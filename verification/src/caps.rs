//! The capabilities an extractor can have, and how single posts are requested.
use vstd::prelude::*;

verus! {

/// A set of extractor capabilities, one bit each.
#[derive(Clone, Copy, Debug, PartialEq, Eq, Structural)]
pub struct ExtractorFeatures {
    bits: u8,
}

/// All capability bits.
pub open spec fn all_feature_bits() -> u8 {
    0b0001_1111u8
}

impl ExtractorFeatures {
    pub closed spec fn spec_bits(&self) -> u8 {
        self.bits
    }

    /// Posts can be fetched asynchronously through a channel.
    pub fn async_fetch() -> (r: Self)
        ensures
            r.spec_bits() == 0b0000_0001u8,
    {
        ExtractorFeatures { bits: 0b0000_0001 }
    }

    /// Posts can be searched by tags.
    pub fn tag_search() -> (r: Self)
        ensures
            r.spec_bits() == 0b0000_0010u8,
    {
        ExtractorFeatures { bits: 0b0000_0010 }
    }

    /// A single post can be fetched by its id.
    pub fn single_post_fetch() -> (r: Self)
        ensures
            r.spec_bits() == 0b0000_0100u8,
    {
        ExtractorFeatures { bits: 0b0000_0100 }
    }

    /// Posts of a pool can be downloaded.
    pub fn pool_download() -> (r: Self)
        ensures
            r.spec_bits() == 0b0000_1000u8,
    {
        ExtractorFeatures { bits: 0b0000_1000 }
    }

    /// The extractor can authenticate.
    pub fn auth() -> (r: Self)
        ensures
            r.spec_bits() == 0b0001_0000u8,
    {
        ExtractorFeatures { bits: 0b0001_0000 }
    }

    /// The set of the given bits that name capabilities; other bits are dropped.
    pub fn from_bits_truncate(bits: u8) -> (r: Self)
        ensures
            r.spec_bits() == bits & all_feature_bits(),
    {
        ExtractorFeatures { bits: bits & 0b0001_1111 }
    }

    /// The bits of the set.
    pub fn bits(&self) -> (r: u8)
        ensures
            r == self.spec_bits(),
    {
        self.bits
    }

    /// Whether every capability of `other` is in the set.
    pub fn contains(&self, other: Self) -> (r: bool)
        ensures
            r == (self.spec_bits() & other.spec_bits() == other.spec_bits()),
    {
        self.bits & other.bits == other.bits
    }
}

/// Specifies the method for fetching one or more posts by their IDs.
#[derive(Debug)]
pub enum PostFetchMethod {
    /// Fetch a single post by its ID.
    Single(u32),
    /// Fetch multiple posts by their IDs.
    Multiple(Vec<u32>),
}

/// The ids that a fetch method asks for, in order.
pub open spec fn fetch_method_ids(m: PostFetchMethod) -> Seq<u32> {
    match m {
        PostFetchMethod::Single(id) => seq![id],
        PostFetchMethod::Multiple(ids) => ids@,
    }
}

impl PostFetchMethod {
    /// The ids to fetch, in the order they are fetched.
    pub fn ids(&self) -> (r: Vec<u32>)
        ensures
            r@ == fetch_method_ids(*self),
    {
        match self {
            PostFetchMethod::Single(id) => {
                let mut v: Vec<u32> = Vec::new();
                v.push(*id);
                assert(v@ =~= seq![*id]);
                v
            },
            PostFetchMethod::Multiple(ids) => ids.clone(),
        }
    }
}

} // verus!
