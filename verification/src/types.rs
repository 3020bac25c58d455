//! The plain value types of the wider binding layer: enumerations
//! mirroring the storage engine's option, compaction and event
//! vocabularies, and the blob index record.

use vstd::prelude::*;

verus! {

/// Whether writes are flowing, delayed, or stopped.
#[derive(Copy, Clone, Debug, Eq, PartialEq)]
pub enum WriteStallCondition {
    Normal,
    Delayed,
    Stopped,
}

/// The location of a value held out of line in blob storage.
#[derive(Clone, Debug, Default)]
pub struct DBTitanBlobIndex {
    pub file_number: u64,
    pub blob_offset: u64,
    pub blob_size: u64,
}

/// The kind of a table entry.
#[derive(Copy, Clone, Debug, Eq, PartialEq)]
pub enum DBEntryType {
    Put,
    Delete,
    SingleDelete,
    Merge,
    RangeDeletion,
    BlobIndex,
    Other,
}

/// The compression applied to table blocks.
#[derive(Copy, Clone, Debug, Eq, PartialEq)]
pub enum DBCompressionType {
    No,
    Snappy,
    Zlib,
    Bz2,
    Lz4,
    Lz4hc,
    Zstd,
    ZstdNotFinal,
    Disable,
}

/// The engine's compaction style.
#[derive(Copy, Clone, Debug, Eq, PartialEq)]
pub enum DBCompactionStyle {
    Level,
    Universal,
    Fifo,
    No,
}

/// How universal compaction picks files.
#[derive(Copy, Clone, Debug, Eq, PartialEq)]
pub enum DBUniversalCompactionStyle {
    SimilarSize,
    TotalSize,
}

/// How the engine recovers the write-ahead log.
#[derive(Copy, Clone, Debug, Eq, PartialEq)]
pub enum DBRecoveryMode {
    TolerateCorruptedTailRecords,
    AbsoluteConsistency,
    PointInTime,
    SkipAnyCorruptedRecords,
}

/// Which file of a level is picked first for compaction.
#[derive(Copy, Clone, Debug, Eq, PartialEq)]
pub enum CompactionPriority {
    ByCompensatedSize,
    OldestLargestSeqFirst,
    OldestSmallestSeqFirst,
    MinOverlappingRatio,
}

/// Why a compaction was started.
#[derive(Copy, Clone, Debug, Eq, PartialEq)]
pub enum CompactionReason {
    Unknown,
    LevelL0FilesNum,
    LevelMaxLevelSize,
    UniversalSizeAmplification,
    UniversalSizeRatio,
    UniversalSortedRunNum,
    FIFOMaxSize,
    FIFOReduceNumFiles,
    FIFOTtl,
    ManualCompaction,
    FilesMarkedForCompaction,
    BottommostFiles,
    Ttl,
    Flush,
    ExternalSstIngestion,
    NumOfReasons,
}

/// The engine's info-log verbosity.
#[derive(Copy, Clone, Debug, Eq, PartialEq)]
pub enum DBInfoLogLevel {
    Debug,
    Info,
    Warn,
    Error,
    Fatal,
    Header,
    NumInfoLog,
}

/// The numeric table properties a table exposes.
#[derive(Copy, Clone, Debug, Eq, PartialEq)]
pub enum DBTableProperty {
    DataSize,
    IndexSize,
    FilterSize,
    RawKeySize,
    RawValueSize,
    NumDataBlocks,
    NumEntries,
    FormatVersion,
    FixedKeyLen,
    ColumnFamilyId,
    ColumnFamilyName,
    FilterPolicyName,
    ComparatorName,
    MergeOperatorName,
    PrefixExtractorName,
    PropertyCollectorsNames,
    CompressionName,
}

/// Whether a range compaction touches the bottommost level.
#[derive(Copy, Clone, Debug, Eq, PartialEq)]
pub enum DBBottommostLevelCompaction {
    Skip,
    IfHaveCompactionFilter,
    Force,
}

/// Which I/O directions a rate limiter throttles.
#[derive(Copy, Clone, Debug, Eq, PartialEq)]
pub enum DBRateLimiterMode {
    ReadOnly,
    WriteOnly,
    AllIo,
}

/// How blob storage treats new writes.
#[derive(Copy, Clone, Debug, Eq, PartialEq)]
pub enum DBTitanDBBlobRunMode {
    Normal,
    ReadOnly,
    Fallback,
}

/// The index layout of table files.
#[derive(Copy, Clone, Debug, Eq, PartialEq)]
pub enum IndexType {
    BinarySearch,
    HashSearch,
    TwoLevelIndexSearch,
}

/// Where a background error surfaced.
#[derive(Copy, Clone, Debug, Eq, PartialEq)]
pub enum DBBackgroundErrorReason {
    Flush,
    Compaction,
    WriteCallback,
    MemTable,
}

} // verus!
