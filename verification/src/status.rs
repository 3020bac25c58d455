//! The status model: the tri-part outcome descriptor mirroring the storage
//! engine's native status representation, and its I/O-layer specialization.
//!
//! Both are immutable value types: they report failure, they never fail.

use vstd::prelude::*;

verus! {

/// The enumerated outcome of an engine operation, mirroring the engine's
/// native status codes.
#[allow(non_camel_case_types)]
#[derive(Copy, Clone, Debug, PartialEq, Eq, Structural)]
pub enum StatusCode {
    kOk,
    kNotFound,
    kCorruption,
    kNotSupported,
    kInvalidArgument,
    kIOError,
    kMergeInProgress,
    kIncomplete,
    kShutdownInProgress,
    kTimedOut,
    kAborted,
    kBusy,
    kExpired,
    kTryAgain,
    kCompactionTooLarge,
    kColumnFamilyDropped,
    kMaxCode,
}

/// The enumerated refinement of a status code, only meaningful when the
/// code reports an error.
#[allow(non_camel_case_types)]
#[derive(Copy, Clone, Debug, PartialEq, Eq, Structural)]
pub enum StatusSubCode {
    kNone,
    kMutexTimeout,
    kLockTimeout,
    kLockLimit,
    kNoSpace,
    kDeadlock,
    kStaleFile,
    kMemoryLimit,
    kSpaceLimit,
    kPathNotFound,
    kMergeOperandsInsufficientCapacity,
    kManualCompactionPaused,
    kOverwritten,
    kTxnNotPrepared,
    kIOFenced,
    kIOUringSqeFull,
    kIOUringSubmitError,
    kMaxSubCode,
}

/// The enumerated severity of a status, an advisory refinement.
#[allow(non_camel_case_types)]
#[derive(Copy, Clone, Debug, PartialEq, Eq, Structural)]
pub enum StatusSeverity {
    kNoError,
    kSoftError,
    kHardError,
    kFatalError,
    kUnrecoverableError,
    kMaxSeverity,
}

/// The locality of an I/O fault.
#[allow(non_camel_case_types)]
#[derive(Copy, Clone, Debug, PartialEq, Eq, Structural)]
pub enum IOErrorScope {
    kIOErrorScopeFileSystem,
    kIOErrorScopeFile,
    kIOErrorScopeRange,
    kIOErrorScopeMax,
}

/// The uniform outcome of every engine operation: a code, a refining
/// sub-code, and an advisory severity.
#[derive(Copy, Clone, Debug, PartialEq, Eq, Structural)]
pub struct RustStatus {
    pub code: StatusCode,
    pub sub_code: StatusSubCode,
    pub severity: StatusSeverity,
}

impl RustStatus {
    /// The ok value: code ok, sub-code none, severity no-error.
    pub fn new() -> (r: Self)
        ensures
            r.code == StatusCode::kOk,
            r.sub_code == StatusSubCode::kNone,
            r.severity == StatusSeverity::kNoError,
    {
        Self {
            code: StatusCode::kOk,
            sub_code: StatusSubCode::kNone,
            severity: StatusSeverity::kNoError,
        }
    }

    /// An error value with the given code. The sub-code and the severity
    /// stay at their defaults: the severity is not inferred from the code,
    /// the caller supplies a refined triple by constructing it directly.
    pub fn new_error(code: StatusCode) -> (r: Self)
        ensures
            r.code == code,
            r.sub_code == StatusSubCode::kNone,
            r.severity == StatusSeverity::kNoError,
    {
        Self {
            code,
            sub_code: StatusSubCode::kNone,
            severity: StatusSeverity::kNoError,
        }
    }

    /// Holds exactly when the code is ok.
    pub fn ok(&self) -> (b: bool)
        ensures
            b == (self.code == StatusCode::kOk),
    {
        self.code == StatusCode::kOk
    }

    /// The full triple: code, sub-code, severity.
    pub fn err(&self) -> (r: (StatusCode, StatusSubCode, StatusSeverity))
        ensures
            r == (self.code, self.sub_code, self.severity),
    {
        (self.code, self.sub_code, self.severity)
    }
}

/// The outcome of an I/O-layer operation: a status plus whether the fault
/// is retryable, whether data was lost, and where the fault lies.
#[derive(Copy, Clone, Debug, PartialEq, Eq, Structural)]
pub struct RustIOStatus {
    pub status: RustStatus,
    pub retryable: bool,
    pub data_loss: bool,
    pub scope: IOErrorScope,
}

impl RustIOStatus {
    /// The ok value: an ok status, not retryable, no data loss, file scope.
    pub fn new() -> (r: Self)
        ensures
            r.status.code == StatusCode::kOk,
            r.status.sub_code == StatusSubCode::kNone,
            r.status.severity == StatusSeverity::kNoError,
            !r.retryable,
            !r.data_loss,
            r.scope == IOErrorScope::kIOErrorScopeFile,
    {
        let status = RustStatus::new();
        Self {
            status,
            retryable: false,
            data_loss: false,
            scope: IOErrorScope::kIOErrorScopeFile,
        }
    }

    /// An I/O error value: the code is io-error, everything else stays at
    /// its default.
    pub fn new_error() -> (r: Self)
        ensures
            r.status.code == StatusCode::kIOError,
            r.status.sub_code == StatusSubCode::kNone,
            r.status.severity == StatusSeverity::kNoError,
            !r.retryable,
            !r.data_loss,
            r.scope == IOErrorScope::kIOErrorScopeFile,
    {
        Self {
            status: RustStatus::new_error(StatusCode::kIOError),
            retryable: false,
            data_loss: false,
            scope: IOErrorScope::kIOErrorScopeFile,
        }
    }

    /// Holds exactly when the inner status code is ok.
    pub fn ok(&self) -> (b: bool)
        ensures
            b == (self.status.code == StatusCode::kOk),
    {
        self.status.ok()
    }

    /// A copy of the full descriptor.
    pub fn err(&self) -> (r: Self)
        ensures
            r == *self,
    {
        Self {
            status: self.status,
            retryable: self.retryable,
            data_loss: self.data_loss,
            scope: self.scope,
        }
    }
}

} // verus!
