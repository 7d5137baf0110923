//! What holds between a configuration and its document.

use crate::config::ConfigView;
use crate::config::lemma_keys_differ;
use crate::document::{all_text, Entries};
use vstd::prelude::*;

verus! {

/// Reading back the document of a configuration without an empty text gives
/// the configuration: every field that was set holds the same text, every
/// field that was unset is unset, and no default comes in.
pub proof fn lemma_document_round_trip(config: ConfigView)
    requires
        config.well_formed(),
    ensures
        ConfigView::of_entries(config.entries()) == config,
{
    lemma_keys_differ();
}

/// The document of a configuration holds strings only, under the names of
/// the fields that are set.
pub proof fn lemma_document_is_text(config: ConfigView)
    ensures
        all_text(config.entries()),
        forall|key: Seq<char>| config.entries().contains_key(key) <==> config.field(key) is Some,
{
}

/// Whatever a document holds, the configuration read from it has no empty
/// text.
pub proof fn lemma_read_is_well_formed(entries: Entries)
    ensures
        ConfigView::of_entries(entries).well_formed(),
{
}

} // verus!
