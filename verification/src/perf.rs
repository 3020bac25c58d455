//! Performance instrumentation vocabulary: the profiling level with its
//! numeric mirror, and the individual profiling flags.
//!
//! The engine stores the profiling level as a bare number; the two
//! conversions here are the checked halves of reading and setting it.

use vstd::prelude::*;

verus! {

/// How much performance accounting the engine gathers.
#[derive(Copy, Clone, Debug, Eq, PartialEq, Structural)]
pub enum PerfLevel {
    Uninitialized,
    Disable,
    EnableCount,
    EnableTimeExceptForMutex,
    EnableTimeAndCPUTimeExceptForMutex,
    EnableTime,
    OutOfBounds,
}

/// The number the engine stores for each profiling level.
pub open spec fn perf_level_number_spec(level: PerfLevel) -> u32 {
    match level {
        PerfLevel::Uninitialized => 0,
        PerfLevel::Disable => 1,
        PerfLevel::EnableCount => 2,
        PerfLevel::EnableTimeExceptForMutex => 3,
        PerfLevel::EnableTimeAndCPUTimeExceptForMutex => 4,
        PerfLevel::EnableTime => 5,
        PerfLevel::OutOfBounds => 6,
    }
}

/// The number handed to the engine when this level is set.
pub fn perf_level_number(level: PerfLevel) -> (v: u32)
    ensures
        v == perf_level_number_spec(level),
{
    match level {
        PerfLevel::Uninitialized => 0,
        PerfLevel::Disable => 1,
        PerfLevel::EnableCount => 2,
        PerfLevel::EnableTimeExceptForMutex => 3,
        PerfLevel::EnableTimeAndCPUTimeExceptForMutex => 4,
        PerfLevel::EnableTime => 5,
        PerfLevel::OutOfBounds => 6,
    }
}

/// The level a number read back from the engine stands for. Numbers
/// beyond the last level name no level at all and are left out.
pub fn perf_level_from_number(v: u32) -> (level: PerfLevel)
    requires
        v <= 6,
    ensures
        perf_level_number_spec(level) == v,
{
    match v {
        0 => PerfLevel::Uninitialized,
        1 => PerfLevel::Disable,
        2 => PerfLevel::EnableCount,
        3 => PerfLevel::EnableTimeExceptForMutex,
        4 => PerfLevel::EnableTimeAndCPUTimeExceptForMutex,
        5 => PerfLevel::EnableTime,
        _ => PerfLevel::OutOfBounds,
    }
}

/// The individual profiling counters a caller can switch on.
#[derive(Copy, Clone, Debug, Eq, PartialEq)]
pub enum PerfFlag {
    UserKeyComparisonCount,
    BlockCacheHitCount,
    BlockReadCount,
    BlockReadByte,
    BlockReadTime,
    BlockCacheIndexHitCount,
    IndexBlockReadCount,
    BlockCacheFilterHitCount,
    FilterBlockReadCount,
    CompressionDictBlockReadCount,
    SecondaryCacheHitCount,
    BlockChecksumTime,
    BlockDecompressTime,
    GetReadBytes,
    MultigetReadBytes,
    IterReadBytes,
    InternalKeySkippedCount,
    InternalDeleteSkippedCount,
    InternalRecentSkippedCount,
    InternalMergeCount,
    GetSnapshotTime,
    GetFromMemtableTime,
    GetFromMemtableCount,
    GetPostProcessTime,
    GetFromOutputFilesTime,
    SeekOnMemtableTime,
    SeekOnMemtableCount,
    NextOnMemtableCount,
    PrevOnMemtableCount,
    SeekChildSeekTime,
    SeekChildSeekCount,
    SeekMinHeapTime,
    SeekMaxHeapTime,
    SeekInternalSeekTime,
    FindNextUserEntryTime,
    WriteWalTime,
    WriteMemtableTime,
    WriteDelayTime,
    WriteSchedulingFlushesCompactionsTime,
    WritePreAndPostProcessTime,
    WriteThreadWaitNanos,
    DbMutexLockNanos,
    DbConditionWaitNanos,
    MergeOperatorTimeNanos,
    ReadIndexBlockNanos,
    ReadFilterBlockNanos,
    NewTableBlockIterNanos,
    NewTableIteratorNanos,
    BlockSeekNanos,
    FindTableNanos,
    BloomMemtableHitCount,
    BloomMemtableMissCount,
    BloomSstHitCount,
    BloomSstMissCount,
    KeyLockWaitTime,
    KeyLockWaitCount,
    EnvNewSequentialFileNanos,
    EnvNewRandomAccessFileNanos,
    EnvNewWritableFileNanos,
    EnvReuseWritableFileNanos,
    EnvNewRandomRwFileNanos,
    EnvNewDirectoryNanos,
    EnvFileExistsNanos,
    EnvGetChildrenNanos,
    EnvGetChildrenFileAttributesNanos,
    EnvDeleteFileNanos,
    EnvCreateDirNanos,
    EnvCreateDirIfMissingNanos,
    EnvDeleteDirNanos,
    EnvGetFileSizeNanos,
    EnvGetFileModificationTimeNanos,
    EnvRenameFileNanos,
    EnvLinkFileNanos,
    EnvLockFileNanos,
    EnvUnlockFileNanos,
    EnvNewLoggerNanos,
    GetCpuNanos,
    IterNextCpuNanos,
    IterPrevCpuNanos,
    IterSeekCpuNanos,
    EncryptDataNanos,
    DecryptDataNanos,
    GetFromTableNanos,
    UserKeyReturnCount,
    BlockCacheMissCount,
    BloomFilterFullPositive,
    BloomFilterUseful,
    BloomFilterFullTruePositive,
    BytesRead,
    BytesWritten,
    OpenNanos,
    AllocateNanos,
    WriteNanos,
    ReadNanos,
    RangeSyncNanos,
    PrepareWriteNanos,
    FsyncNanos,
    LoggerNanos,
    CpuReadNanos,
    CpuWriteNanos,
}

} // verus!
