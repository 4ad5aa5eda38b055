//! Profiles and versions, as the windows read them.

use vstd::prelude::*;

verus! {

/// A named record bound to one version. The profile store owns the records;
/// the windows only pass them along.
#[derive(Clone, Debug, PartialEq, Eq)]
pub struct Profile {
    pub id: String,
    pub name: String,
    /// Identifier of the version that the profile is bound to.
    pub version: String,
}

/// The mathematical value of a [`Profile`].
pub ghost struct ProfileView {
    pub id: Seq<char>,
    pub name: Seq<char>,
    pub version: Seq<char>,
}

impl View for Profile {
    type V = ProfileView;

    open spec fn view(&self) -> ProfileView {
        ProfileView { id: self.id@, name: self.name@, version: self.version@ }
    }
}

/// One selectable version: its identifier and the label shown for it.
#[derive(Clone, Debug, PartialEq, Eq)]
pub struct Version {
    pub id: String,
    pub label: String,
}

/// Whether `i` is the position of the first version whose identifier is
/// exactly `wanted`.
pub open spec fn is_first_match(versions: Seq<Version>, wanted: Seq<char>, i: int) -> bool {
    &&& 0 <= i < versions.len()
    &&& versions[i].id@ == wanted
    &&& forall|j: int| 0 <= j < i ==> (#[trigger] versions[j]).id@ != wanted
}

/// Whether no version has the identifier `wanted`.
pub open spec fn no_match(versions: Seq<Version>, wanted: Seq<char>) -> bool {
    forall|j: int| 0 <= j < versions.len() ==> (#[trigger] versions[j]).id@ != wanted
}

/// Finds the first version whose identifier equals `wanted`.
pub fn find_version(versions: &Vec<Version>, wanted: &String) -> (r: Option<usize>)
    ensures
        match r {
            Some(i) => is_first_match(versions@, wanted@, i as int),
            None => no_match(versions@, wanted@),
        },
{
    let mut i: usize = 0;
    while i < versions.len()
        invariant
            i <= versions.len(),
            forall|j: int| 0 <= j < i ==> (#[trigger] versions@[j]).id@ != wanted@,
        decreases versions.len() - i,
    {
        if versions[i].id == *wanted {
            return Some(i);
        }
        i += 1;
    }
    None
}

} // verus!
