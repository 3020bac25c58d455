//! The plain values a table partitioner reads: the state of the table
//! being written and the context of the compaction writing it.

use vstd::prelude::*;

verus! {

/// What a partitioner sees of the table being written.
#[derive(Clone, PartialEq, Eq, Debug)]
pub struct SstPartitionerState<'a> {
    pub next_key: &'a [u8],
    pub current_output_file_size: u64,
}

/// What a partitioner sees of the compaction it serves.
#[derive(Clone, PartialEq, Eq, Debug)]
pub struct SstPartitionerContext<'a> {
    pub is_full_compaction: bool,
    pub is_manual_compaction: bool,
    pub output_level: i32,
    pub smallest_key: &'a [u8],
    pub largest_key: &'a [u8],
}

} // verus!
