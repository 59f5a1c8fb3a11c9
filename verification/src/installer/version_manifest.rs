//! The list of published game versions.

use vstd::prelude::*;

verus! {

/// One published version and where its version file is.
#[derive(Debug)]
pub struct Versions {
    pub id: String,
    pub release_type: String,
    pub url: String,
    pub time: String,
    pub release_time: String,
    pub sha1: String,
    pub compliance_level: i32,
}

/// The newest release and the newest snapshot.
#[derive(Debug)]
pub struct Latest {
    pub release: String,
    pub snapshot: String,
}

#[derive(Debug)]
pub struct VersionManifest {
    pub latest: Latest,
    pub versions: Vec<Versions>,
}

/// `i` is the first of `versions` whose id is `id`.
pub open spec fn is_first_with_id(versions: Seq<Versions>, id: Seq<char>, i: int) -> bool {
    &&& 0 <= i < versions.len()
    &&& versions[i].id@ == id
    &&& forall|j: int| 0 <= j < i ==> versions[j].id@ != id
}

impl VersionManifest {
    /// The first listed version whose id is `id`, if there is one.
    pub fn find(&self, id: &String) -> (found: Option<&Versions>)
        ensures
            match found {
                Some(version) => exists|i: int|
                    is_first_with_id(self.versions@, id@, i) && *version == self.versions@[i],
                None => forall|i: int|
                    0 <= i < self.versions@.len() ==> self.versions@[i].id@ != id@,
            },
    {
        let mut i: usize = 0;
        while i < self.versions.len()
            invariant
                0 <= i <= self.versions@.len(),
                forall|j: int| 0 <= j < i ==> self.versions@[j].id@ != id@,
            decreases self.versions@.len() - i,
        {
            if self.versions[i].id == *id {
                assert(is_first_with_id(self.versions@, id@, i as int));
                return Some(&self.versions[i]);
            }
            i = i + 1;
        }
        None
    }
}

} // verus!
