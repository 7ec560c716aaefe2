//! The index of a SARF archive: the metadata of each item it holds.
use vstd::prelude::*;

verus! {

/// The metadata of one item of an archive.
pub struct SARFItemMetadata {
    pub file: String,
    pub file_size: u64,
    pub height: u64,
    pub width: u64,
    pub md5: String,
    pub sha256: String,
}

/// The index of an archive: the number of items and their metadata.
pub struct SARF {
    pub item_count: usize,
    pub item_list: Vec<SARFItemMetadata>,
}

} // verus!
