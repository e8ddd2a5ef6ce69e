//! The single, total mapping site: category to CLI exit code, category to
//! default HTTP status, and code to HTTP status. Every match is exhaustive, so
//! a new code or category cannot be added without being mapped here.

use vstd::prelude::*;

use super::{code_category, ErrorCategory, ErrorCode};

verus! {

/// The CLI exit code of a category. Exit 1 is never emitted: it is reserved
/// for "the process did not run to a controlled conclusion".
pub open spec fn category_exit(c: ErrorCategory) -> u8 {
    match c {
        ErrorCategory::Usage => 2,
        ErrorCategory::ModelNotFound => 3,
        ErrorCategory::Infeasible => 4,
        ErrorCategory::Network => 5,
        ErrorCategory::Format => 6,
        ErrorCategory::Engine => 6,
        ErrorCategory::Disk => 7,
        ErrorCategory::Internal => 6,
    }
}

/// The default HTTP status of a category.
pub open spec fn category_http(c: ErrorCategory) -> u16 {
    match c {
        ErrorCategory::Usage => 400,
        ErrorCategory::ModelNotFound => 404,
        ErrorCategory::Infeasible => 422,
        ErrorCategory::Network => 503,
        ErrorCategory::Format => 422,
        ErrorCategory::Engine => 500,
        ErrorCategory::Disk => 507,
        ErrorCategory::Internal => 500,
    }
}

/// The HTTP status of a code: the four registered per-code overrides, else the
/// category default.
pub open spec fn code_http(c: ErrorCode) -> u16 {
    match c {
        ErrorCode::FitContextExceeded => 413,
        ErrorCode::KvPoolExhausted => 429,
        ErrorCode::GrammarSchemaCompileFailed => 422,
        ErrorCode::ServerModelLoading => 503,
        _ => category_http(code_category(c)),
    }
}

/// The CLI exit code for a category.
pub fn exit_code(category: ErrorCategory) -> (r: u8)
    ensures
        r == category_exit(category),
{
    match category {
        ErrorCategory::Usage => 2,
        ErrorCategory::ModelNotFound => 3,
        ErrorCategory::Infeasible => 4,
        ErrorCategory::Network => 5,
        ErrorCategory::Format => 6,
        ErrorCategory::Engine => 6,
        ErrorCategory::Disk => 7,
        ErrorCategory::Internal => 6,
    }
}

/// The default HTTP status for a category.
pub fn http_default(category: ErrorCategory) -> (r: u16)
    ensures
        r == category_http(category),
{
    match category {
        ErrorCategory::Usage => 400,
        ErrorCategory::ModelNotFound => 404,
        ErrorCategory::Infeasible => 422,
        ErrorCategory::Network => 503,
        ErrorCategory::Format => 422,
        ErrorCategory::Engine => 500,
        ErrorCategory::Disk => 507,
        ErrorCategory::Internal => 500,
    }
}

/// The HTTP status for a code: the category default plus the four per-code
/// overrides.
pub fn http_status(code: ErrorCode) -> (r: u16)
    ensures
        r == code_http(code),
{
    match code {
        ErrorCode::FitContextExceeded => 413,
        ErrorCode::KvPoolExhausted => 429,
        ErrorCode::GrammarSchemaCompileFailed => 422,
        ErrorCode::ServerModelLoading => 503,
        ErrorCode::CliInvalidArgs
        | ErrorCode::CliMissingModelArg
        | ErrorCode::ConfigInvalidKey
        | ErrorCode::ConfigInvalidValue
        | ErrorCode::ModelsNotFound
        | ErrorCode::ModelsNotInstalled
        | ErrorCode::ModelsRepoNotFound
        | ErrorCode::ModelsGatedRepoNoToken
        | ErrorCode::ModelsUnsupportedArchitecture
        | ErrorCode::ModelsPickleRejected
        | ErrorCode::ModelsInvalidMetadata
        | ErrorCode::DownloadNetworkFailed
        | ErrorCode::DownloadHubUnreachable
        | ErrorCode::DownloadIntegrityMismatch
        | ErrorCode::DownloadNoSpace
        | ErrorCode::StoreWriteFailed
        | ErrorCode::StoreCorruptBlob
        | ErrorCode::FitWontFit
        | ErrorCode::ServerUnsupportedField
        | ErrorCode::EngineLoadFailed
        | ErrorCode::EngineMetalInitFailed
        | ErrorCode::EngineInferenceFailed
        | ErrorCode::BackendMetalFault
        | ErrorCode::BackendCapabilityAbsent
        | ErrorCode::BackendIo
        | ErrorCode::AbiVersionMismatch
        | ErrorCode::AbiStructSizeMismatch
        | ErrorCode::AbiThreadViolation
        | ErrorCode::AbiInvalidArgument
        | ErrorCode::InternalPanic
        | ErrorCode::InternalInvariant
        | ErrorCode::InternalBudgetBreach => http_default(code.category()),
    }
}

/// Exit code 1 is never produced by any category.
pub proof fn lemma_exit_code_never_one(c: ErrorCategory)
    ensures
        category_exit(c) != 1,
        2 <= category_exit(c) <= 7,
{
}

} // verus!
