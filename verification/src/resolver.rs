//! From a file's text to a configuration.

use crate::config::{entry_text, field_text, Config, ConfigView};
use crate::document::{lookup, parse_document, parsed_document, table_entries, Entry};
use crate::errors::{parse_detail, DeliveryError, Kind};
use vstd::prelude::*;

verus! {

/// What the search for the configuration file came to.
#[derive(Debug, Clone, PartialEq, Eq)]
pub enum Found {
    /// There is no configuration file.
    Nothing,
    /// There is one, and it could not be read.
    Unreadable,
    /// There is one, and this is its text.
    Text(String),
}

impl Config {
    /// The configuration for what the search came to. A file that could not
    /// be read counts as no file: both give the defaults. It never fails.
    pub fn load_found(found: &Found) -> (loaded: Result<Config, DeliveryError>)
        ensures
            loaded matches Ok(config) && config@.well_formed() && config@ == match found {
                Found::Text(text) => match parsed_document(text@) {
                    Some(entries) => ConfigView::of_entries(entries),
                    None => ConfigView::defaults(),
                },
                Found::Unreadable => ConfigView::defaults(),
                Found::Nothing => ConfigView::defaults(),
            },
    {
        match found {
            Found::Text(text) => Config::load_config(Some(text.as_str())),
            Found::Unreadable => Config::load_config(None),
            Found::Nothing => Config::load_config(None),
        }
    }

    /// The configuration for a file's text: for no text, the defaults; for a
    /// text that is a TOML document, what the document gives, with no default
    /// filled in; for a text that is none, the defaults again. It never fails.
    pub fn load_config(contents: Option<&str>) -> (loaded: Result<Config, DeliveryError>)
        ensures
            loaded matches Ok(config) && config@.well_formed() && config@ == match contents {
                None => ConfigView::defaults(),
                Some(text) => match parsed_document(text@) {
                    Some(entries) => ConfigView::of_entries(entries),
                    None => ConfigView::defaults(),
                },
            },
    {
        match contents {
            Some(text) => Ok(Config::or_default(Config::parse_config(text))),
            None => Ok(Config::default()),
        }
    }

    /// The configuration that was parsed, or the defaults where parsing failed.
    pub fn or_default(parsed: Result<Config, DeliveryError>) -> (config: Config)
        ensures
            config@ == match parsed {
                Ok(found) => found@,
                Err(_) => ConfigView::defaults(),
            },
            parsed is Err ==> config@.well_formed(),
    {
        match parsed {
            Ok(found) => found,
            Err(_) => Config::default(),
        }
    }

    /// The configuration that a TOML text gives, with no default filled in
    /// and no field empty; a `ConfigParse` error, with the parser's message in
    /// its detail, where the text is no TOML document.
    pub fn parse_config(toml: &str) -> (parsed: Result<Config, DeliveryError>)
        ensures
            match parsed_document(toml@) {
                Some(entries) => parsed matches Ok(config) && config@.well_formed() && config@
                    == ConfigView::of_entries(entries),
                None => parsed matches Err(error) && error.kind == Kind::ConfigParse && exists|
                    message: Seq<char>,
                | error@.detail == Some(#[trigger] parse_detail(message)),
            },
    {
        match parse_document(toml) {
            Ok(table) => Config::set_values_from_toml_table(table),
            Err(error) => Err(DeliveryError::config_parse(error.message())),
        }
    }

    /// The configuration that a TOML table gives: each field is the string
    /// that the table holds under the field's name; a field whose name the
    /// table lacks, or holds with the empty string or with a value that is no
    /// string, is unset.
    pub fn set_values_from_toml_table(table: toml::Table) -> (read: Result<Config, DeliveryError>)
        ensures
            read matches Ok(config) && config@.well_formed() && config@ == ConfigView::of_entries(
                table_entries(table),
            ),
    {
        let server = Config::stringify_values(lookup(&table, "server"));
        let project = Config::stringify_values(lookup(&table, "project"));
        let enterprise = Config::stringify_values(lookup(&table, "enterprise"));
        let organization = Config::stringify_values(lookup(&table, "organization"));
        let user = Config::stringify_values(lookup(&table, "user"));
        let git_port = Config::stringify_values(lookup(&table, "git_port"));
        let pipeline = Config::stringify_values(lookup(&table, "pipeline"));
        Ok(Config { server, user, enterprise, organization, project, git_port, pipeline })
    }

    /// The text of a table's value, if there is a value and it is a string
    /// that is not empty.
    pub fn stringify_values(toml_value: Option<Entry>) -> (text: Option<String>)
        ensures
            field_text(text) == entry_text(
                match toml_value {
                    Some(entry) => Some(entry@),
                    None => None,
                },
            ),
    {
        match toml_value {
            Some(Entry::Text(string)) => {
                if string.as_str().is_empty() {
                    None
                } else {
                    Some(string)
                }
            },
            Some(Entry::Other) => None,
            None => None,
        }
    }
}

} // verus!
