//! What a version file says of the artifacts of one game version, and what
//! an asset index lists.

use vstd::prelude::*;

verus! {

/// Where a file can be fetched.
#[derive(Debug)]
pub struct Artifact {
    pub url: String,
}

/// The downloads of the game itself.
#[derive(Debug)]
pub struct Downloads {
    pub client: Artifact,
}

/// The downloads of one library.
#[derive(Debug)]
pub struct LibraryDownloads {
    pub artifact: Artifact,
}

/// The operating system that a rule names.
#[derive(Debug)]
pub struct Os {
    pub name: String,
}

/// A condition under which a library is used.
#[derive(Debug)]
pub struct Rule {
    pub os: Os,
}

/// One library of the game. A library without rules is used everywhere; the
/// first rule of one with rules names the system whose native code it holds.
#[derive(Debug)]
pub struct Library {
    pub downloads: LibraryDownloads,
    pub rules: Vec<Rule>,
}

#[derive(Debug)]
pub struct VersionFile {
    pub asset_index: Artifact,
    pub downloads: Downloads,
    pub libraries: Vec<Library>,
}

/// One object of the asset index: its name in the game and the hash of its
/// content, by which it is fetched and stored.
#[derive(Debug)]
pub struct Asset {
    pub name: String,
    pub hash: String,
}

/// The objects that an asset index lists, in its order.
#[derive(Debug)]
pub struct AssetIndex {
    pub objects: Vec<Asset>,
}

} // verus!
