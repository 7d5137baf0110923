//! The search for a project's configuration file.
//!
//! The file of a directory is `.delivery/cli.toml` below it. The search starts
//! at a directory and goes up, parent by parent, to the first directory whose
//! file exists. Which files exist is handed in as a list.

use crate::config::Config;
use crate::location::{is_listed, lists, Location, LocationView};
use vstd::prelude::*;

verus! {

/// The directory below `root` that holds the configuration file.
pub open spec fn dot_delivery(root: LocationView) -> LocationView {
    root.join(".delivery"@)
}

/// The configuration file of the directory `root`.
pub open spec fn dot_delivery_cli(root: LocationView) -> LocationView {
    root.join(".delivery"@).join("cli.toml"@)
}

/// The configuration file of the directory `levels` up from `start`.
pub open spec fn candidate(start: LocationView, levels: int) -> LocationView {
    dot_delivery_cli(start.ancestor(levels))
}

/// Whether the nearest directory, going up from `start`, whose configuration
/// file `files` names is the one `levels` up.
pub open spec fn nearest_at(start: LocationView, files: Seq<Location>, levels: int) -> bool {
    &&& 0 <= levels <= start.parts.len()
    &&& lists(files, candidate(start, levels))
    &&& forall|nearer: int| 0 <= nearer < levels ==> !lists(files, #[trigger] candidate(start, nearer))
}

/// Going no levels up from a place leaves one at the place.
proof fn lemma_ancestor_zero(start: LocationView)
    ensures
        start.ancestor(0) == start,
{
    assert(start.parts.take(start.parts.len() as int) =~= start.parts);
}

/// The parent of the directory `levels` up is the directory one level further.
proof fn lemma_ancestor_parent(start: LocationView, levels: int)
    requires
        0 <= levels < start.parts.len(),
    ensures
        start.ancestor(levels).parent() == Some(start.ancestor(levels + 1)),
{
    assert(start.ancestor(levels).ancestor(1).parts =~= start.ancestor(levels + 1).parts);
}

/// The directory below `root` that holds the configuration file.
pub fn config_dir(root: &Location) -> (dir: Location)
    ensures
        dir@ == dot_delivery(root@),
{
    root.join(".delivery")
}

/// The configuration file of the directory `root`.
pub fn config_file(root: &Location) -> (file: Location)
    ensures
        file@ == dot_delivery_cli(root@),
{
    config_dir(root).join("cli.toml")
}

/// The configuration files that a search from `orig_path` asks for, in the
/// order of the search: that of `orig_path` first, that of the root last.
pub fn candidate_files(orig_path: &Location) -> (files: Vec<Location>)
    ensures
        files.len() == orig_path@.parts.len() + 1,
        forall|levels: int|
            0 <= levels < files.len() ==> (#[trigger] files[levels])@ == candidate(
                orig_path@,
                levels,
            ),
{
    let mut files: Vec<Location> = Vec::new();
    let mut path = orig_path.duplicate();
    proof {
        lemma_ancestor_zero(orig_path@);
    }
    loop
        invariant
            files.len() <= orig_path@.parts.len(),
            path@ == orig_path@.ancestor(files.len() as int),
            forall|levels: int|
                0 <= levels < files.len() ==> (#[trigger] files[levels])@ == candidate(
                    orig_path@,
                    levels,
                ),
        decreases orig_path@.parts.len() - files.len(),
    {
        proof {
            if files.len() < orig_path@.parts.len() {
                lemma_ancestor_parent(orig_path@, files.len() as int);
            }
        }
        let parent = path.parent();
        files.push(config_file(&path));
        match parent {
            Some(dir) => {
                path = dir;
            },
            None => {
                return files;
            },
        }
    }
}

impl Config {
    /// The configuration file of the directory `path`, if `files` names it.
    pub fn check_dot_delivery_cli(path: Location, files: &Vec<Location>) -> (found: Option<
        Location,
    >)
        ensures
            match found {
                Some(file) => file@ == dot_delivery_cli(path@) && lists(files@, file@),
                None => !lists(files@, dot_delivery_cli(path@)),
            },
    {
        let file = config_file(&path);
        if is_listed(files, &file) {
            Some(file)
        } else {
            None
        }
    }

    /// The configuration file of the nearest directory that has one, going up
    /// from `orig_path` itself to the root; `files` names the files that exist.
    /// `None` where no directory on the way has one.
    pub fn have_dot_delivery_cli(orig_path: &Location, files: &Vec<Location>) -> (found: Option<
        Location,
    >)
        ensures
            match found {
                Some(file) => exists|levels: int| #[trigger]
                    nearest_at(orig_path@, files@, levels) && file@ == candidate(
                        orig_path@,
                        levels,
                    ),
                None => forall|levels: int|
                    0 <= levels <= orig_path@.parts.len() ==> !lists(
                        files@,
                        #[trigger] candidate(orig_path@, levels),
                    ),
            },
    {
        let mut path = orig_path.duplicate();
        let ghost mut climbed: int = 0;
        proof {
            lemma_ancestor_zero(orig_path@);
        }
        loop
            invariant
                0 <= climbed <= orig_path@.parts.len(),
                path@ == orig_path@.ancestor(climbed),
                forall|nearer: int|
                    0 <= nearer < climbed ==> !lists(
                        files@,
                        #[trigger] candidate(orig_path@, nearer),
                    ),
            decreases orig_path@.parts.len() - climbed,
        {
            let check_result = Config::check_dot_delivery_cli(path.duplicate(), files);
            match check_result {
                Some(file) => {
                    assert(nearest_at(orig_path@, files@, climbed));
                    return Some(file);
                },
                None => {
                    proof {
                        if climbed < orig_path@.parts.len() {
                            lemma_ancestor_parent(orig_path@, climbed);
                        }
                    }
                    match path.parent() {
                        Some(parent) => {
                            path = parent;
                            proof {
                                climbed = climbed + 1;
                            }
                        },
                        None => {
                            return None;
                        },
                    }
                },
            }
        }
    }
}

} // verus!
