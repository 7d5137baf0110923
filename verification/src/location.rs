//! Places in a directory tree.
//!
//! A `Location` is a root (empty for a relative path) and the names that lead
//! down from it. Its parent lacks the last name; a location without names has
//! no parent.

use vstd::prelude::*;

verus! {

/// A directory or a file, by the names that lead to it.
#[derive(Debug, Clone, PartialEq, Eq)]
pub struct Location {
    /// Where the names start: empty for a relative path, else the root's text.
    pub root: String,
    /// The names from the root down.
    pub parts: Vec<String>,
}

/// A `Location` with its texts as sequences of characters.
pub struct LocationView {
    pub root: Seq<char>,
    pub parts: Seq<Seq<char>>,
}

impl View for Location {
    type V = LocationView;

    open spec fn view(&self) -> LocationView {
        LocationView { root: self.root@, parts: self.parts.deep_view() }
    }
}

impl LocationView {
    /// The place called `name` directly under this one.
    pub open spec fn join(self, name: Seq<char>) -> LocationView {
        LocationView { root: self.root, parts: self.parts.push(name) }
    }

    /// The place `levels` directories up: this one for 0, the root for as
    /// many levels as there are names.
    pub open spec fn ancestor(self, levels: int) -> LocationView
        recommends
            0 <= levels <= self.parts.len(),
    {
        LocationView { root: self.root, parts: self.parts.take(self.parts.len() - levels) }
    }

    /// The directory that holds this place, if it has one.
    pub open spec fn parent(self) -> Option<LocationView> {
        if self.parts.len() == 0 {
            None
        } else {
            Some(self.ancestor(1))
        }
    }
}

/// Whether `files` names the place `target`.
pub open spec fn lists(files: Seq<Location>, target: LocationView) -> bool {
    exists|i: int| 0 <= i < files.len() && (#[trigger] files[i])@ == target
}

/// The first `count` names of `names`, copied.
fn copy_names(names: &Vec<String>, count: usize) -> (copy: Vec<String>)
    requires
        count <= names.len(),
    ensures
        copy.deep_view() == names.deep_view().take(count as int),
{
    let mut copy: Vec<String> = Vec::new();
    let mut i: usize = 0;
    while i < count
        invariant
            i <= count <= names.len(),
            copy.len() == i,
            forall|j: int| 0 <= j < i ==> copy[j]@ == names[j]@,
        decreases count - i,
    {
        copy.push(names[i].clone());
        i += 1;
    }
    assert(copy.deep_view() =~= names.deep_view().take(count as int));
    copy
}

impl Location {
    /// A copy of this place.
    pub fn duplicate(&self) -> (copy: Location)
        ensures
            copy@ == self@,
    {
        let parts = copy_names(&self.parts, self.parts.len());
        assert(self.parts.deep_view().take(self.parts.len() as int) =~= self.parts.deep_view());
        Location { root: self.root.clone(), parts }
    }

    /// The place called `name` directly under this one.
    pub fn join(&self, name: &str) -> (joined: Location)
        ensures
            joined@ == self@.join(name@),
    {
        let mut parts = copy_names(&self.parts, self.parts.len());
        let ghost copied = parts.deep_view();
        assert(copied =~= self.parts.deep_view());
        parts.push(name.to_owned());
        assert forall|j: int| 0 <= j < parts.len() implies #[trigger] parts.deep_view()[j]
            == self.parts.deep_view().push(name@)[j] by {
            if j < copied.len() {
                assert(parts.deep_view()[j] == copied[j]);
            }
        }
        assert(parts.deep_view() =~= self.parts.deep_view().push(name@));
        Location { root: self.root.clone(), parts }
    }

    /// The directory that holds this place; `None` for a place without names.
    pub fn parent(&self) -> (parent: Option<Location>)
        ensures
            match parent {
                Some(dir) => self@.parent() == Some(dir@),
                None => self@.parent() is None,
            },
    {
        if self.parts.len() == 0 {
            None
        } else {
            let parts = copy_names(&self.parts, self.parts.len() - 1);
            Some(Location { root: self.root.clone(), parts })
        }
    }

    /// Whether the two are the same place: the same root and the same names.
    pub fn same(&self, other: &Location) -> (same: bool)
        ensures
            same == (self@ == other@),
    {
        if self.root != other.root || self.parts.len() != other.parts.len() {
            assert(self.parts.deep_view().len() == self.parts.len());
            assert(other.parts.deep_view().len() == other.parts.len());
            return false;
        }
        let mut i: usize = 0;
        while i < self.parts.len()
            invariant
                i <= self.parts.len(),
                self.parts.len() == other.parts.len(),
                forall|j: int| 0 <= j < i ==> self.parts[j]@ == other.parts[j]@,
            decreases self.parts.len() - i,
        {
            if self.parts[i] != other.parts[i] {
                assert(self.parts.deep_view()[i as int] != other.parts.deep_view()[i as int]);
                return false;
            }
            i += 1;
        }
        assert(self.parts.deep_view() =~= other.parts.deep_view());
        true
    }
}

/// Whether `files` names the place `target`.
pub fn is_listed(files: &Vec<Location>, target: &Location) -> (found: bool)
    ensures
        found == lists(files@, target@),
{
    let mut i: usize = 0;
    while i < files.len()
        invariant
            i <= files.len(),
            forall|j: int| 0 <= j < i ==> files[j]@ != target@,
        decreases files.len() - i,
    {
        if files[i].same(target) {
            return true;
        }
        i += 1;
    }
    false
}

} // verus!
