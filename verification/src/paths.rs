//! Directories as sequences of names, so that no separator is written by
//! hand: whoever touches the file system joins the names as its platform
//! asks.

use vstd::prelude::*;
use vstd::string::*;

verus! {

/// A directory, given by the names that lead to it: the first is the base
/// directory, each further one the name of a child of the one before.
#[derive(Debug)]
pub struct DirPath {
    pub parts: Vec<String>,
}

impl View for DirPath {
    type V = Seq<Seq<char>>;

    open spec fn view(&self) -> Seq<Seq<char>> {
        Seq::new(self.parts@.len(), |i: int| self.parts@[i]@)
    }
}

impl Clone for DirPath {
    fn clone(&self) -> (copy: Self)
        ensures
            copy@ == self@,
    {
        let mut parts: Vec<String> = Vec::new();
        let mut i: usize = 0;
        while i < self.parts.len()
            invariant
                0 <= i <= self.parts@.len(),
                parts@.len() == i,
                forall|j: int| 0 <= j < i ==> parts@[j]@ == self.parts@[j]@,
            decreases self.parts@.len() - i,
        {
            parts.push(self.parts[i].clone());
            i = i + 1;
        }
        DirPath { parts }
    }
}

impl DirPath {
    /// The directory `base` itself.
    pub fn new(base: &str) -> (dir: Self)
        ensures
            dir@ == seq![base@],
    {
        let mut parts: Vec<String> = Vec::new();
        parts.push(String::from_str(base));
        DirPath { parts }
    }

    /// The child `name` of this directory.
    pub fn join(self, name: &str) -> (dir: Self)
        ensures
            dir@ == self@.push(name@),
    {
        let mut parts = self.parts;
        parts.push(String::from_str(name));
        DirPath { parts }
    }

    /// The child `name` of this directory, which is kept.
    pub fn child(&self, name: &str) -> (dir: Self)
        ensures
            dir@ == self@.push(name@),
    {
        self.clone().join(name)
    }
}

} // verus!
