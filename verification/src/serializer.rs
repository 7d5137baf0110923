//! From a configuration to the file that stands for it.

use crate::config::{field_text, lemma_keys_differ, Config};
use crate::document::{
    all_text, empty_table, insert_text, print_document, printed_document, table_entries, Entries,
    EntryView,
};
use crate::errors::{DeliveryError, Kind};
use crate::location::{Location, LocationView};
use crate::locator::{config_dir, config_file, dot_delivery, dot_delivery_cli};
use vstd::prelude::*;

verus! {

/// The mode of a directory that the save makes: its owner may read, write
/// and enter it, and nobody else may.
pub const USER_RWX: u32 = 0o700;

/// What saving a configuration takes: the directory to have, the file to
/// write, and the text to write into it.
#[derive(Debug, Clone, PartialEq, Eq)]
pub struct WritePlan {
    /// Whether the directory has yet to be made.
    pub create_dir: bool,
    /// The mode to make the directory with.
    pub dir_mode: u32,
    pub dir: Location,
    pub file: Location,
    pub contents: String,
}

/// A `WritePlan` with its texts as sequences of characters.
pub struct WritePlanView {
    pub create_dir: bool,
    pub dir_mode: u32,
    pub dir: LocationView,
    pub file: LocationView,
    pub contents: Seq<char>,
}

/// The plan for saving `contents` below `root`.
pub open spec fn plan_for(root: LocationView, dir_exists: bool, contents: Seq<char>) -> WritePlanView {
    WritePlanView {
        create_dir: !dir_exists,
        dir_mode: USER_RWX,
        dir: dot_delivery(root),
        file: dot_delivery_cli(root),
        contents,
    }
}

impl View for WritePlan {
    type V = WritePlanView;

    open spec fn view(&self) -> WritePlanView {
        WritePlanView {
            create_dir: self.create_dir,
            dir_mode: self.dir_mode,
            dir: self.dir@,
            file: self.file@,
            contents: self.contents@,
        }
    }
}

/// `entries` with the field's text under `key`, where the field is set.
spec fn with_field(entries: Entries, key: Seq<char>, field: Option<Seq<char>>) -> Entries {
    match field {
        Some(text) => entries.insert(key, EntryView::Text(text)),
        None => entries,
    }
}

/// Puts a field into a table under `key`, if the field is set.
fn put_field(table: &mut toml::Table, key: &str, field: &Option<String>)
    ensures
        table_entries(*final(table)) == with_field(
            table_entries(*old(table)),
            key@,
            field_text(*field),
        ),
{
    match field {
        Some(text) => insert_text(table, key, text.as_str()),
        None => {},
    }
}

impl Config {
    /// The TOML table of this configuration: the fields that are set, each
    /// under its name; a field that is unset is left out.
    pub fn to_table(&self) -> (table: toml::Table)
        ensures
            table_entries(table) == self@.entries(),
            all_text(table_entries(table)),
    {
        let mut table = empty_table();
        put_field(&mut table, "server", &self.server);
        put_field(&mut table, "user", &self.user);
        put_field(&mut table, "enterprise", &self.enterprise);
        put_field(&mut table, "organization", &self.organization);
        put_field(&mut table, "project", &self.project);
        put_field(&mut table, "git_port", &self.git_port);
        put_field(&mut table, "pipeline", &self.pipeline);
        proof {
            lemma_keys_differ();
            assert(table_entries(table) =~= self@.entries());
        }
        table
    }

    /// The plan for saving below `path`, once the printer has answered: its
    /// text goes to `.delivery/cli.toml`, and `.delivery` is made, for its
    /// owner alone, unless it is there; where the printer failed, so does the
    /// save.
    pub fn plan_write(
        path: &Location,
        dir_exists: bool,
        printed: Result<String, toml::ser::Error>,
    ) -> (plan: Result<WritePlan, DeliveryError>)
        ensures
            match printed {
                Ok(text) => plan matches Ok(p) && p@ == plan_for(path@, dir_exists, text@),
                Err(_) => plan matches Err(e) && e.kind == Kind::IoError && e.detail is Some,
            },
    {
        match printed {
            Ok(contents) => {
                let dir = config_dir(path);
                let file = config_file(path);
                Ok(WritePlan { create_dir: !dir_exists, dir_mode: USER_RWX, dir, file, contents })
            },
            Err(error) => Err(
                DeliveryError {
                    kind: Kind::IoError,
                    detail: Some(error.to_string()),
                },
            ),
        }
    }

    /// What saving this configuration below `path` takes. `dir_exists` says
    /// whether `path` already has a directory `.delivery`. The text to write
    /// is this configuration's table as the `toml` crate prints it. Planning
    /// never fails.
    pub fn write_file(&self, path: &Location, dir_exists: bool) -> (plan: Result<
        WritePlan,
        DeliveryError,
    >)
        ensures
            plan matches Ok(p) && p@ == plan_for(
                path@,
                dir_exists,
                printed_document(self@.entries()),
            ),
    {
        let table = self.to_table();
        Config::plan_write(path, dir_exists, print_document(&table))
    }
}

} // verus!
