//! The plain values exchanged with a level-region accessor: the key range
//! asked about, and the region boundaries answered with.

use vstd::prelude::*;

verus! {

/// The key range a level-region query covers.
#[derive(Clone, PartialEq, Eq, Debug)]
pub struct LevelRegionAccessorRequest<'a> {
    pub smallest_user_key: &'a [u8],
    pub largest_user_key: &'a [u8],
}

/// One region's boundary keys.
#[derive(Clone, Debug, PartialEq, Eq)]
pub struct LevelRegionBoundaries {
    pub start_key: Vec<u8>,
    pub end_key: Vec<u8>,
}

/// The regions answered for a query.
#[derive(Clone, Debug, PartialEq, Eq)]
pub struct LevelRegionAccessorResult {
    pub regions: Vec<LevelRegionBoundaries>,
}

} // verus!
