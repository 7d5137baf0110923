//! The errors that the library reports.

use vstd::prelude::*;

verus! {

/// The kind of a failure.
#[derive(Debug, Clone, Copy, PartialEq, Eq, Structural)]
pub enum Kind {
    /// A field was asked for that holds no value.
    MissingConfig,
    /// A text was not a TOML document.
    ConfigParse,
    /// Saving the configuration failed.
    IoError,
}

/// A failure: its kind, and a sentence for the user.
#[derive(Debug, Clone)]
pub struct DeliveryError {
    pub kind: Kind,
    pub detail: Option<String>,
}

/// A `DeliveryError` with its detail as a sequence of characters.
pub struct DeliveryErrorView {
    pub kind: Kind,
    pub detail: Option<Seq<char>>,
}

impl View for DeliveryError {
    type V = DeliveryErrorView;

    open spec fn view(&self) -> DeliveryErrorView {
        DeliveryErrorView {
            kind: self.kind,
            detail: match self.detail {
                Some(text) => Some(text@),
                None => None,
            },
        }
    }
}

/// The error for a field that holds no value, where `hint` names the flag
/// that sets it.
pub open spec fn missing_config(hint: Seq<char>) -> DeliveryErrorView {
    DeliveryErrorView { kind: Kind::MissingConfig, detail: Some(hint) }
}

/// The detail of a `ConfigParse` error for a parser's message.
pub open spec fn parse_detail(message: Seq<char>) -> Seq<char> {
    "Parse errors: "@ + message
}

impl DeliveryError {
    /// A field holds no value; `hint` names the flag that sets it.
    pub fn missing_config(hint: &str) -> (e: DeliveryError)
        ensures
            e@ == missing_config(hint@),
    {
        DeliveryError { kind: Kind::MissingConfig, detail: Some(hint.to_owned()) }
    }

    /// A text was not a TOML document; `message` is what the parser said.
    pub fn config_parse(message: &str) -> (e: DeliveryError)
        ensures
            e@ == (DeliveryErrorView {
                kind: Kind::ConfigParse,
                detail: Some(parse_detail(message@)),
            }),
    {
        let mut detail = "Parse errors: ".to_owned();
        detail.append(message);
        DeliveryError { kind: Kind::ConfigParse, detail: Some(detail) }
    }
}

} // verus!
