//! The configuration: its fields, their defaults, and the TOML document that
//! stands for it.

use crate::document::{Entries, EntryView};
use vstd::prelude::*;

verus! {

/// What the tool knows of the project it works on. Each field is either unset
/// or holds a non-empty text: the defaults are so, the setters keep a
/// configuration so, and every reading of a document gives one that is so.
#[derive(Debug, Clone, PartialEq, Eq)]
pub struct Config {
    pub server: Option<String>,
    pub user: Option<String>,
    pub enterprise: Option<String>,
    pub organization: Option<String>,
    pub project: Option<String>,
    pub git_port: Option<String>,
    pub pipeline: Option<String>,
}

/// A `Config` with its texts as sequences of characters.
pub struct ConfigView {
    pub server: Option<Seq<char>>,
    pub user: Option<Seq<char>>,
    pub enterprise: Option<Seq<char>>,
    pub organization: Option<Seq<char>>,
    pub project: Option<Seq<char>>,
    pub git_port: Option<Seq<char>>,
    pub pipeline: Option<Seq<char>>,
}

/// The characters of a field, if it is set.
pub open spec fn field_text(field: Option<String>) -> Option<Seq<char>> {
    match field {
        Some(text) => Some(text@),
        None => None,
    }
}

impl View for Config {
    type V = ConfigView;

    open spec fn view(&self) -> ConfigView {
        ConfigView {
            server: field_text(self.server),
            user: field_text(self.user),
            enterprise: field_text(self.enterprise),
            organization: field_text(self.organization),
            project: field_text(self.project),
            git_port: field_text(self.git_port),
            pipeline: field_text(self.pipeline),
        }
    }
}

/// The text that an entry gives a field: the entry's string, unless it is
/// empty; `None` for no entry, for a value that is no string, and for the
/// empty string.
pub open spec fn entry_text(entry: Option<EntryView>) -> Option<Seq<char>> {
    match entry {
        Some(EntryView::Text(text)) => if text.len() > 0 {
            Some(text)
        } else {
            None
        },
        Some(EntryView::Other) => None,
        None => None,
    }
}

/// The non-empty string that a document holds under `key`; `None` where it
/// lacks the key, and where the value under it is no string or the empty one.
pub open spec fn text_at(entries: Entries, key: Seq<char>) -> Option<Seq<char>> {
    if entries.contains_key(key) {
        entry_text(Some(entries[key]))
    } else {
        None
    }
}

/// Whether a field is unset or holds a text that is not empty.
pub open spec fn unset_or_filled(field: Option<Seq<char>>) -> bool {
    field matches Some(text) ==> text.len() > 0
}

impl ConfigView {
    /// Whether no field holds an empty text.
    pub open spec fn well_formed(self) -> bool {
        &&& unset_or_filled(self.server)
        &&& unset_or_filled(self.user)
        &&& unset_or_filled(self.enterprise)
        &&& unset_or_filled(self.organization)
        &&& unset_or_filled(self.project)
        &&& unset_or_filled(self.git_port)
        &&& unset_or_filled(self.pipeline)
    }

    /// The configuration of a project without a configuration file.
    pub open spec fn defaults() -> ConfigView {
        ConfigView {
            server: None,
            user: None,
            enterprise: None,
            organization: None,
            project: None,
            git_port: Some("8989"@),
            pipeline: Some("master"@),
        }
    }

    /// The configuration that a document gives: each field is the non-empty
    /// string under its name, and unset where there is none. No default is
    /// filled in.
    pub open spec fn of_entries(entries: Entries) -> ConfigView {
        ConfigView {
            server: text_at(entries, "server"@),
            user: text_at(entries, "user"@),
            enterprise: text_at(entries, "enterprise"@),
            organization: text_at(entries, "organization"@),
            project: text_at(entries, "project"@),
            git_port: text_at(entries, "git_port"@),
            pipeline: text_at(entries, "pipeline"@),
        }
    }

    /// The field that a document's key stands for; `None` for a field that is
    /// unset, and for a key that names no field.
    pub open spec fn field(self, key: Seq<char>) -> Option<Seq<char>> {
        if key == "server"@ {
            self.server
        } else if key == "user"@ {
            self.user
        } else if key == "enterprise"@ {
            self.enterprise
        } else if key == "organization"@ {
            self.organization
        } else if key == "project"@ {
            self.project
        } else if key == "git_port"@ {
            self.git_port
        } else if key == "pipeline"@ {
            self.pipeline
        } else {
            None
        }
    }

    /// The document of this configuration: each field that is set stands
    /// under its name, as a string; there are no other keys.
    pub open spec fn entries(self) -> Entries {
        Map::new(
            |key: Seq<char>| self.field(key) is Some,
            |key: Seq<char>| EntryView::Text(self.field(key).unwrap()),
        )
    }
}

/// The names of the seven fields differ from one another: in length, but for
/// `git_port` and `pipeline`, which differ in their first letter.
pub(crate) proof fn lemma_keys_differ()
    ensures
        "server"@.len() == 6,
        "user"@.len() == 4,
        "enterprise"@.len() == 10,
        "organization"@.len() == 12,
        "project"@.len() == 7,
        "git_port"@.len() == 8,
        "pipeline"@.len() == 8,
        "git_port"@[0] != "pipeline"@[0],
{
    reveal_strlit("server");
    reveal_strlit("user");
    reveal_strlit("enterprise");
    reveal_strlit("organization");
    reveal_strlit("project");
    reveal_strlit("git_port");
    reveal_strlit("pipeline");
}

impl Default for Config {
    /// The configuration of a project without a configuration file: the git
    /// port is 8989, the pipeline is master, and nothing else is set.
    fn default() -> (config: Config)
        ensures
            config@ == ConfigView::defaults(),
            config@.well_formed(),
    {
        proof {
            reveal_strlit("8989");
            reveal_strlit("master");
        }
        Config {
            server: None,
            enterprise: None,
            organization: None,
            project: None,
            user: None,
            git_port: Some("8989".to_owned()),
            pipeline: Some("master".to_owned()),
        }
    }
}

} // verus!
