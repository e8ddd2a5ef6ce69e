//! The error taxonomy: one flat error type for the whole workspace.
//!
//! The failure class lives in the closed [`ErrorCategory`] and the specific
//! error in the closed [`ErrorCode`] enum, which *is* the registry: an
//! unregistered code cannot be constructed. The category to exit-code and code
//! to HTTP-status mappings live in one place, [`mapping`].

use vstd::prelude::*;

pub mod context;
pub mod mapping;
pub mod remedy;

pub use context::{ContextValue, ErrorContext};
pub use remedy::{Remedy, RemedyTemplate, RemedyView};

use context::CtxVal;
use crate::text::push_str;

verus! {

/// The closed failure-class set. Consumers that see an unknown code fall back
/// to this field, which is sufficient to choose a handling strategy.
#[derive(Clone, Copy, PartialEq, Eq, Debug, Hash, Structural)]
pub enum ErrorCategory {
    /// Malformed or unsupported input.
    Usage,
    /// The model reference does not resolve to anything servable.
    ModelNotFound,
    /// The feasibility engine or admission control rejects the plan or request.
    Infeasible,
    /// Hub or download-path failure.
    Network,
    /// The artifact or its metadata is unusable.
    Format,
    /// Backend or runtime failure.
    Engine,
    /// Local storage failure.
    Disk,
    /// Invariant violations, ABI-boundary faults and caught panics: a bug.
    Internal,
}

/// The stable string of a category, e.g. `model_not_found`.
pub open spec fn category_str(c: ErrorCategory) -> Seq<char> {
    match c {
        ErrorCategory::Usage => "usage"@,
        ErrorCategory::ModelNotFound => "model_not_found"@,
        ErrorCategory::Infeasible => "infeasible"@,
        ErrorCategory::Network => "network"@,
        ErrorCategory::Format => "format"@,
        ErrorCategory::Engine => "engine"@,
        ErrorCategory::Disk => "disk"@,
        ErrorCategory::Internal => "internal"@,
    }
}

impl ErrorCategory {
    /// The stable string, e.g. `"model_not_found"`.
    pub fn as_str(self) -> (r: &'static str)
        ensures
            r@ == category_str(self),
    {
        match self {
            ErrorCategory::Usage => "usage",
            ErrorCategory::ModelNotFound => "model_not_found",
            ErrorCategory::Infeasible => "infeasible",
            ErrorCategory::Network => "network",
            ErrorCategory::Format => "format",
            ErrorCategory::Engine => "engine",
            ErrorCategory::Disk => "disk",
            ErrorCategory::Internal => "internal",
        }
    }

    /// The CLI exit code for this category.
    pub fn exit_code(self) -> (r: u8)
        ensures
            r == mapping::category_exit(self),
    {
        mapping::exit_code(self)
    }

    /// The default HTTP status for this category.
    pub fn http_default(self) -> (r: u16)
        ensures
            r == mapping::category_http(self),
    {
        mapping::http_default(self)
    }
}

/// The closed error-code registry. Each variant renders to a stable
/// `subsystem.snake_case` string via [`ErrorCode::as_str`]; that string is the
/// wire code.
#[derive(Clone, Copy, PartialEq, Eq, Debug, Hash, Structural)]
#[non_exhaustive]
pub enum ErrorCode {
    /// `cli.invalid_args`
    CliInvalidArgs,
    /// `cli.missing_model_arg`
    CliMissingModelArg,
    /// `config.invalid_key`
    ConfigInvalidKey,
    /// `config.invalid_value`
    ConfigInvalidValue,
    /// `models.not_found`
    ModelsNotFound,
    /// `models.not_installed`
    ModelsNotInstalled,
    /// `models.repo_not_found`
    ModelsRepoNotFound,
    /// `models.gated_repo_no_token`
    ModelsGatedRepoNoToken,
    /// `models.unsupported_architecture`
    ModelsUnsupportedArchitecture,
    /// `models.pickle_rejected`
    ModelsPickleRejected,
    /// `models.invalid_metadata`
    ModelsInvalidMetadata,
    /// `download.network_failed`
    DownloadNetworkFailed,
    /// `download.hub_unreachable`
    DownloadHubUnreachable,
    /// `download.integrity_mismatch`
    DownloadIntegrityMismatch,
    /// `download.no_space`
    DownloadNoSpace,
    /// `store.write_failed`
    StoreWriteFailed,
    /// `store.corrupt_blob`
    StoreCorruptBlob,
    /// `fit.wont_fit`
    FitWontFit,
    /// `fit.context_exceeded`
    FitContextExceeded,
    /// `kv.pool_exhausted`
    KvPoolExhausted,
    /// `grammar.schema_compile_failed`
    GrammarSchemaCompileFailed,
    /// `server.unsupported_field`
    ServerUnsupportedField,
    /// `server.model_loading`
    ServerModelLoading,
    /// `engine.load_failed`
    EngineLoadFailed,
    /// `engine.metal_init_failed`
    EngineMetalInitFailed,
    /// `engine.inference_failed`
    EngineInferenceFailed,
    /// `backend.metal_fault`
    BackendMetalFault,
    /// `backend.capability_absent`
    BackendCapabilityAbsent,
    /// `backend.io`
    BackendIo,
    /// `abi.version_mismatch`
    AbiVersionMismatch,
    /// `abi.struct_size_mismatch`
    AbiStructSizeMismatch,
    /// `abi.thread_violation`
    AbiThreadViolation,
    /// `abi.invalid_argument`
    AbiInvalidArgument,
    /// `internal.panic`
    InternalPanic,
    /// `internal.invariant`
    InternalInvariant,
    /// `internal.budget_breach`
    InternalBudgetBreach,
}

/// The number of registered codes.
pub const ERROR_CODE_COUNT: usize = 36;

/// Every code, in registry order.
pub open spec fn registry() -> Seq<ErrorCode> {
    seq![
        ErrorCode::CliInvalidArgs,
        ErrorCode::CliMissingModelArg,
        ErrorCode::ConfigInvalidKey,
        ErrorCode::ConfigInvalidValue,
        ErrorCode::ModelsNotFound,
        ErrorCode::ModelsNotInstalled,
        ErrorCode::ModelsRepoNotFound,
        ErrorCode::ModelsGatedRepoNoToken,
        ErrorCode::ModelsUnsupportedArchitecture,
        ErrorCode::ModelsPickleRejected,
        ErrorCode::ModelsInvalidMetadata,
        ErrorCode::DownloadNetworkFailed,
        ErrorCode::DownloadHubUnreachable,
        ErrorCode::DownloadIntegrityMismatch,
        ErrorCode::DownloadNoSpace,
        ErrorCode::StoreWriteFailed,
        ErrorCode::StoreCorruptBlob,
        ErrorCode::FitWontFit,
        ErrorCode::FitContextExceeded,
        ErrorCode::KvPoolExhausted,
        ErrorCode::GrammarSchemaCompileFailed,
        ErrorCode::ServerUnsupportedField,
        ErrorCode::ServerModelLoading,
        ErrorCode::EngineLoadFailed,
        ErrorCode::EngineMetalInitFailed,
        ErrorCode::EngineInferenceFailed,
        ErrorCode::BackendMetalFault,
        ErrorCode::BackendCapabilityAbsent,
        ErrorCode::BackendIo,
        ErrorCode::AbiVersionMismatch,
        ErrorCode::AbiStructSizeMismatch,
        ErrorCode::AbiThreadViolation,
        ErrorCode::AbiInvalidArgument,
        ErrorCode::InternalPanic,
        ErrorCode::InternalInvariant,
        ErrorCode::InternalBudgetBreach,
    ]
}

/// The dotted wire string of a code.
pub open spec fn code_str(c: ErrorCode) -> Seq<char> {
    match c {
        ErrorCode::CliInvalidArgs => "cli.invalid_args"@,
        ErrorCode::CliMissingModelArg => "cli.missing_model_arg"@,
        ErrorCode::ConfigInvalidKey => "config.invalid_key"@,
        ErrorCode::ConfigInvalidValue => "config.invalid_value"@,
        ErrorCode::ModelsNotFound => "models.not_found"@,
        ErrorCode::ModelsNotInstalled => "models.not_installed"@,
        ErrorCode::ModelsRepoNotFound => "models.repo_not_found"@,
        ErrorCode::ModelsGatedRepoNoToken => "models.gated_repo_no_token"@,
        ErrorCode::ModelsUnsupportedArchitecture => "models.unsupported_architecture"@,
        ErrorCode::ModelsPickleRejected => "models.pickle_rejected"@,
        ErrorCode::ModelsInvalidMetadata => "models.invalid_metadata"@,
        ErrorCode::DownloadNetworkFailed => "download.network_failed"@,
        ErrorCode::DownloadHubUnreachable => "download.hub_unreachable"@,
        ErrorCode::DownloadIntegrityMismatch => "download.integrity_mismatch"@,
        ErrorCode::DownloadNoSpace => "download.no_space"@,
        ErrorCode::StoreWriteFailed => "store.write_failed"@,
        ErrorCode::StoreCorruptBlob => "store.corrupt_blob"@,
        ErrorCode::FitWontFit => "fit.wont_fit"@,
        ErrorCode::FitContextExceeded => "fit.context_exceeded"@,
        ErrorCode::KvPoolExhausted => "kv.pool_exhausted"@,
        ErrorCode::GrammarSchemaCompileFailed => "grammar.schema_compile_failed"@,
        ErrorCode::ServerUnsupportedField => "server.unsupported_field"@,
        ErrorCode::ServerModelLoading => "server.model_loading"@,
        ErrorCode::EngineLoadFailed => "engine.load_failed"@,
        ErrorCode::EngineMetalInitFailed => "engine.metal_init_failed"@,
        ErrorCode::EngineInferenceFailed => "engine.inference_failed"@,
        ErrorCode::BackendMetalFault => "backend.metal_fault"@,
        ErrorCode::BackendCapabilityAbsent => "backend.capability_absent"@,
        ErrorCode::BackendIo => "backend.io"@,
        ErrorCode::AbiVersionMismatch => "abi.version_mismatch"@,
        ErrorCode::AbiStructSizeMismatch => "abi.struct_size_mismatch"@,
        ErrorCode::AbiThreadViolation => "abi.thread_violation"@,
        ErrorCode::AbiInvalidArgument => "abi.invalid_argument"@,
        ErrorCode::InternalPanic => "internal.panic"@,
        ErrorCode::InternalInvariant => "internal.invariant"@,
        ErrorCode::InternalBudgetBreach => "internal.budget_breach"@,
    }
}

/// The failure class of a code.
pub open spec fn code_category(c: ErrorCode) -> ErrorCategory {
    match c {
        ErrorCode::CliInvalidArgs => ErrorCategory::Usage,
        ErrorCode::CliMissingModelArg => ErrorCategory::Usage,
        ErrorCode::ConfigInvalidKey => ErrorCategory::Usage,
        ErrorCode::ConfigInvalidValue => ErrorCategory::Usage,
        ErrorCode::ModelsNotFound => ErrorCategory::ModelNotFound,
        ErrorCode::ModelsNotInstalled => ErrorCategory::ModelNotFound,
        ErrorCode::ModelsRepoNotFound => ErrorCategory::ModelNotFound,
        ErrorCode::ModelsGatedRepoNoToken => ErrorCategory::ModelNotFound,
        ErrorCode::ModelsUnsupportedArchitecture => ErrorCategory::Format,
        ErrorCode::ModelsPickleRejected => ErrorCategory::Format,
        ErrorCode::ModelsInvalidMetadata => ErrorCategory::Format,
        ErrorCode::DownloadNetworkFailed => ErrorCategory::Network,
        ErrorCode::DownloadHubUnreachable => ErrorCategory::Network,
        ErrorCode::DownloadIntegrityMismatch => ErrorCategory::Format,
        ErrorCode::DownloadNoSpace => ErrorCategory::Disk,
        ErrorCode::StoreWriteFailed => ErrorCategory::Disk,
        ErrorCode::StoreCorruptBlob => ErrorCategory::Format,
        ErrorCode::FitWontFit => ErrorCategory::Infeasible,
        ErrorCode::FitContextExceeded => ErrorCategory::Infeasible,
        ErrorCode::KvPoolExhausted => ErrorCategory::Infeasible,
        ErrorCode::GrammarSchemaCompileFailed => ErrorCategory::Usage,
        ErrorCode::ServerUnsupportedField => ErrorCategory::Usage,
        ErrorCode::ServerModelLoading => ErrorCategory::Engine,
        ErrorCode::EngineLoadFailed => ErrorCategory::Engine,
        ErrorCode::EngineMetalInitFailed => ErrorCategory::Engine,
        ErrorCode::EngineInferenceFailed => ErrorCategory::Engine,
        ErrorCode::BackendMetalFault => ErrorCategory::Engine,
        ErrorCode::BackendCapabilityAbsent => ErrorCategory::Engine,
        ErrorCode::BackendIo => ErrorCategory::Engine,
        ErrorCode::AbiVersionMismatch => ErrorCategory::Internal,
        ErrorCode::AbiStructSizeMismatch => ErrorCategory::Internal,
        ErrorCode::AbiThreadViolation => ErrorCategory::Internal,
        ErrorCode::AbiInvalidArgument => ErrorCategory::Internal,
        ErrorCode::InternalPanic => ErrorCategory::Internal,
        ErrorCode::InternalInvariant => ErrorCategory::Internal,
        ErrorCode::InternalBudgetBreach => ErrorCategory::Internal,
    }
}

/// The retry semantics an error carries.
#[derive(Clone, Copy, PartialEq, Eq, Debug, Structural)]
pub enum Retry {
    /// Resubmitting the identical request fails identically until the remedy
    /// is acted on.
    Terminal,
    /// Transient; retry with client-chosen exponential backoff.
    AfterBackoff,
    /// A computed delay; retrying earlier is permitted but wasteful.
    After {
        /// The suggested delay in milliseconds.
        after_ms: u64,
    },
}

/// The `kind` member of a retry on the wire.
#[derive(Clone, Copy, PartialEq, Eq, Debug, Structural)]
pub enum RetryKind {
    /// `terminal`.
    Terminal,
    /// `after_backoff`.
    AfterBackoff,
    /// `after`.
    After,
}

/// The wire form of a retry: the kind, and the delay only for a computed
/// delay.
pub open spec fn retry_wire(r: Retry) -> (RetryKind, Option<u64>) {
    match r {
        Retry::Terminal => (RetryKind::Terminal, None),
        Retry::AfterBackoff => (RetryKind::AfterBackoff, None),
        Retry::After { after_ms } => (RetryKind::After, Some(after_ms)),
    }
}

/// A retry read from its wire form: a computed delay with no `after_ms` reads
/// as zero, and a delay on another kind is ignored.
pub open spec fn retry_of_wire(kind: RetryKind, after_ms: Option<u64>) -> Retry {
    match kind {
        RetryKind::Terminal => Retry::Terminal,
        RetryKind::AfterBackoff => Retry::AfterBackoff,
        RetryKind::After => Retry::After {
            after_ms: match after_ms {
                Some(ms) => ms,
                None => 0,
            },
        },
    }
}

impl Retry {
    /// The wire form.
    pub fn to_wire(self) -> (r: (RetryKind, Option<u64>))
        ensures
            r == retry_wire(self),
    {
        match self {
            Retry::Terminal => (RetryKind::Terminal, None),
            Retry::AfterBackoff => (RetryKind::AfterBackoff, None),
            Retry::After { after_ms } => (RetryKind::After, Some(after_ms)),
        }
    }

    /// Reads a retry back from its wire form.
    pub fn from_wire(kind: RetryKind, after_ms: Option<u64>) -> (r: Retry)
        ensures
            r == retry_of_wire(kind, after_ms),
    {
        match kind {
            RetryKind::Terminal => Retry::Terminal,
            RetryKind::AfterBackoff => Retry::AfterBackoff,
            RetryKind::After => Retry::After {
                after_ms: match after_ms {
                    Some(ms) => ms,
                    None => 0,
                },
            },
        }
    }
}

/// A retry read back from its wire form is the retry that was written.
pub proof fn lemma_retry_wire_round_trip(r: Retry)
    ensures
        retry_of_wire(retry_wire(r).0, retry_wire(r).1) == r,
{
}

/// The retry class the registry pins for a code.
pub open spec fn code_retry(c: ErrorCode) -> Retry {
    match c {
        ErrorCode::DownloadNetworkFailed
        | ErrorCode::DownloadHubUnreachable
        | ErrorCode::ServerModelLoading => Retry::AfterBackoff,
        ErrorCode::KvPoolExhausted => Retry::After { after_ms: 0 },
        _ => Retry::Terminal,
    }
}

/// The codes exempt from a specific remedy: the `internal.*` codes.
pub open spec fn code_remedy_exempt(c: ErrorCode) -> bool {
    c == ErrorCode::InternalPanic || c == ErrorCode::InternalInvariant || c
        == ErrorCode::InternalBudgetBreach
}

impl ErrorCode {
    /// The stable dotted code string, e.g. `"kv.pool_exhausted"`.
    pub fn as_str(self) -> (r: &'static str)
        ensures
            r@ == code_str(self),
    {
        match self {
            ErrorCode::CliInvalidArgs => "cli.invalid_args",
            ErrorCode::CliMissingModelArg => "cli.missing_model_arg",
            ErrorCode::ConfigInvalidKey => "config.invalid_key",
            ErrorCode::ConfigInvalidValue => "config.invalid_value",
            ErrorCode::ModelsNotFound => "models.not_found",
            ErrorCode::ModelsNotInstalled => "models.not_installed",
            ErrorCode::ModelsRepoNotFound => "models.repo_not_found",
            ErrorCode::ModelsGatedRepoNoToken => "models.gated_repo_no_token",
            ErrorCode::ModelsUnsupportedArchitecture => "models.unsupported_architecture",
            ErrorCode::ModelsPickleRejected => "models.pickle_rejected",
            ErrorCode::ModelsInvalidMetadata => "models.invalid_metadata",
            ErrorCode::DownloadNetworkFailed => "download.network_failed",
            ErrorCode::DownloadHubUnreachable => "download.hub_unreachable",
            ErrorCode::DownloadIntegrityMismatch => "download.integrity_mismatch",
            ErrorCode::DownloadNoSpace => "download.no_space",
            ErrorCode::StoreWriteFailed => "store.write_failed",
            ErrorCode::StoreCorruptBlob => "store.corrupt_blob",
            ErrorCode::FitWontFit => "fit.wont_fit",
            ErrorCode::FitContextExceeded => "fit.context_exceeded",
            ErrorCode::KvPoolExhausted => "kv.pool_exhausted",
            ErrorCode::GrammarSchemaCompileFailed => "grammar.schema_compile_failed",
            ErrorCode::ServerUnsupportedField => "server.unsupported_field",
            ErrorCode::ServerModelLoading => "server.model_loading",
            ErrorCode::EngineLoadFailed => "engine.load_failed",
            ErrorCode::EngineMetalInitFailed => "engine.metal_init_failed",
            ErrorCode::EngineInferenceFailed => "engine.inference_failed",
            ErrorCode::BackendMetalFault => "backend.metal_fault",
            ErrorCode::BackendCapabilityAbsent => "backend.capability_absent",
            ErrorCode::BackendIo => "backend.io",
            ErrorCode::AbiVersionMismatch => "abi.version_mismatch",
            ErrorCode::AbiStructSizeMismatch => "abi.struct_size_mismatch",
            ErrorCode::AbiThreadViolation => "abi.thread_violation",
            ErrorCode::AbiInvalidArgument => "abi.invalid_argument",
            ErrorCode::InternalPanic => "internal.panic",
            ErrorCode::InternalInvariant => "internal.invariant",
            ErrorCode::InternalBudgetBreach => "internal.budget_breach",
        }
    }

    /// The failure class of this code.
    pub fn category(self) -> (r: ErrorCategory)
        ensures
            r == code_category(self),
    {
        match self {
            ErrorCode::CliInvalidArgs
            | ErrorCode::CliMissingModelArg
            | ErrorCode::ConfigInvalidKey
            | ErrorCode::ConfigInvalidValue
            | ErrorCode::GrammarSchemaCompileFailed
            | ErrorCode::ServerUnsupportedField => ErrorCategory::Usage,
            ErrorCode::ModelsNotFound
            | ErrorCode::ModelsNotInstalled
            | ErrorCode::ModelsRepoNotFound
            | ErrorCode::ModelsGatedRepoNoToken => ErrorCategory::ModelNotFound,
            ErrorCode::FitWontFit
            | ErrorCode::FitContextExceeded
            | ErrorCode::KvPoolExhausted => ErrorCategory::Infeasible,
            ErrorCode::DownloadNetworkFailed
            | ErrorCode::DownloadHubUnreachable => ErrorCategory::Network,
            ErrorCode::ModelsUnsupportedArchitecture
            | ErrorCode::ModelsPickleRejected
            | ErrorCode::ModelsInvalidMetadata
            | ErrorCode::DownloadIntegrityMismatch
            | ErrorCode::StoreCorruptBlob => ErrorCategory::Format,
            ErrorCode::ServerModelLoading
            | ErrorCode::EngineLoadFailed
            | ErrorCode::EngineMetalInitFailed
            | ErrorCode::EngineInferenceFailed
            | ErrorCode::BackendMetalFault
            | ErrorCode::BackendCapabilityAbsent
            | ErrorCode::BackendIo => ErrorCategory::Engine,
            ErrorCode::DownloadNoSpace
            | ErrorCode::StoreWriteFailed => ErrorCategory::Disk,
            ErrorCode::AbiVersionMismatch
            | ErrorCode::AbiStructSizeMismatch
            | ErrorCode::AbiThreadViolation
            | ErrorCode::AbiInvalidArgument
            | ErrorCode::InternalPanic
            | ErrorCode::InternalInvariant
            | ErrorCode::InternalBudgetBreach => ErrorCategory::Internal,
        }
    }

    /// The CLI exit code for this code, via its category.
    pub fn exit_code(self) -> (r: u8)
        ensures
            r == mapping::category_exit(code_category(self)),
    {
        mapping::exit_code(self.category())
    }

    /// The HTTP status for this code: the category default plus the per-code
    /// overrides.
    pub fn http_status(self) -> (r: u16)
        ensures
            r == mapping::code_http(self),
    {
        mapping::http_status(self)
    }

    /// The retry class the registry pins for this code. For the one `after`
    /// code (`kv.pool_exhausted`) the concrete delay is filled in by the
    /// constructing subsystem; the default carries `0`.
    pub fn default_retry(self) -> (r: Retry)
        ensures
            r == code_retry(self),
    {
        match self {
            ErrorCode::DownloadNetworkFailed
            | ErrorCode::DownloadHubUnreachable
            | ErrorCode::ServerModelLoading => Retry::AfterBackoff,
            ErrorCode::KvPoolExhausted => Retry::After { after_ms: 0 },
            _ => Retry::Terminal,
        }
    }

    /// Whether this code is exempt from carrying a specific remedy (the
    /// `internal.*` codes, whose remedy is always the bug-report instruction).
    pub fn remedy_exempt(self) -> (r: bool)
        ensures
            r == code_remedy_exempt(self),
    {
        match self {
            ErrorCode::InternalPanic
            | ErrorCode::InternalInvariant
            | ErrorCode::InternalBudgetBreach => true,
            _ => false,
        }
    }

    /// The remedy template bound to this code, or `None` for the exempt
    /// `internal.*` codes.
    pub fn remedy_template(self) -> (r: Option<RemedyTemplate>)
        ensures
            r matches Some(t) ==> remedy::template_spec(self) == Some(t.view_pair()),
            r is None ==> remedy::template_spec(self) is None,
    {
        remedy::template_for(self)
    }
}

/// Every registered code, in registry order.
pub fn all_error_codes() -> (r: Vec<ErrorCode>)
    ensures
        r@ == registry(),
        r.len() == ERROR_CODE_COUNT,
{
    let mut v: Vec<ErrorCode> = Vec::new();
    v.push(ErrorCode::CliInvalidArgs);
    v.push(ErrorCode::CliMissingModelArg);
    v.push(ErrorCode::ConfigInvalidKey);
    v.push(ErrorCode::ConfigInvalidValue);
    v.push(ErrorCode::ModelsNotFound);
    v.push(ErrorCode::ModelsNotInstalled);
    v.push(ErrorCode::ModelsRepoNotFound);
    v.push(ErrorCode::ModelsGatedRepoNoToken);
    v.push(ErrorCode::ModelsUnsupportedArchitecture);
    v.push(ErrorCode::ModelsPickleRejected);
    v.push(ErrorCode::ModelsInvalidMetadata);
    v.push(ErrorCode::DownloadNetworkFailed);
    v.push(ErrorCode::DownloadHubUnreachable);
    v.push(ErrorCode::DownloadIntegrityMismatch);
    v.push(ErrorCode::DownloadNoSpace);
    v.push(ErrorCode::StoreWriteFailed);
    v.push(ErrorCode::StoreCorruptBlob);
    v.push(ErrorCode::FitWontFit);
    v.push(ErrorCode::FitContextExceeded);
    v.push(ErrorCode::KvPoolExhausted);
    v.push(ErrorCode::GrammarSchemaCompileFailed);
    v.push(ErrorCode::ServerUnsupportedField);
    v.push(ErrorCode::ServerModelLoading);
    v.push(ErrorCode::EngineLoadFailed);
    v.push(ErrorCode::EngineMetalInitFailed);
    v.push(ErrorCode::EngineInferenceFailed);
    v.push(ErrorCode::BackendMetalFault);
    v.push(ErrorCode::BackendCapabilityAbsent);
    v.push(ErrorCode::BackendIo);
    v.push(ErrorCode::AbiVersionMismatch);
    v.push(ErrorCode::AbiStructSizeMismatch);
    v.push(ErrorCode::AbiThreadViolation);
    v.push(ErrorCode::AbiInvalidArgument);
    v.push(ErrorCode::InternalPanic);
    v.push(ErrorCode::InternalInvariant);
    v.push(ErrorCode::InternalBudgetBreach);
    assert(v@ =~= registry());
    v
}

/// The first code in `codes` whose wire string is `s`.
pub open spec fn first_code_with_str(codes: Seq<ErrorCode>, s: Seq<char>) -> Option<ErrorCode>
    decreases codes.len(),
{
    if codes.len() == 0 {
        None
    } else if code_str(codes[0]) == s {
        Some(codes[0])
    } else {
        first_code_with_str(codes.drop_first(), s)
    }
}

/// The registered code whose wire string is `s`, if any.
pub open spec fn code_from_str(s: Seq<char>) -> Option<ErrorCode> {
    first_code_with_str(registry(), s)
}

/// Exactly the `internal.*` codes are exempt from a remedy: every other code
/// binds a remedy template.
pub proof fn lemma_remedy_bound_unless_exempt(c: ErrorCode)
    ensures
        remedy::template_spec(c) is None <==> code_remedy_exempt(c),
{
}

/// The HTTP status of a code is its category's default except for the four
/// codes with a per-code override.
pub proof fn lemma_http_overrides_are_the_only_deviations(c: ErrorCode)
    ensures
        mapping::code_http(c) != mapping::category_http(code_category(c)) <==> (c
            == ErrorCode::FitContextExceeded || c == ErrorCode::KvPoolExhausted || c
            == ErrorCode::GrammarSchemaCompileFailed || c == ErrorCode::ServerModelLoading),
{
}

/// Distinct codes have distinct wire strings.
pub proof fn lemma_code_str_injective(a: ErrorCode, b: ErrorCode)
    ensures
        code_str(a) == code_str(b) ==> a == b,
{
    if code_str(a) == code_str(b) {
    reveal_strlit("cli.invalid_args");
    reveal_strlit("cli.missing_model_arg");
    reveal_strlit("config.invalid_key");
    reveal_strlit("config.invalid_value");
    reveal_strlit("models.not_found");
    reveal_strlit("models.not_installed");
    reveal_strlit("models.repo_not_found");
    reveal_strlit("models.gated_repo_no_token");
    reveal_strlit("models.unsupported_architecture");
    reveal_strlit("models.pickle_rejected");
    reveal_strlit("models.invalid_metadata");
    reveal_strlit("download.network_failed");
    reveal_strlit("download.hub_unreachable");
    reveal_strlit("download.integrity_mismatch");
    reveal_strlit("download.no_space");
    reveal_strlit("store.write_failed");
    reveal_strlit("store.corrupt_blob");
    reveal_strlit("fit.wont_fit");
    reveal_strlit("fit.context_exceeded");
    reveal_strlit("kv.pool_exhausted");
    reveal_strlit("grammar.schema_compile_failed");
    reveal_strlit("server.unsupported_field");
    reveal_strlit("server.model_loading");
    reveal_strlit("engine.load_failed");
    reveal_strlit("engine.metal_init_failed");
    reveal_strlit("engine.inference_failed");
    reveal_strlit("backend.metal_fault");
    reveal_strlit("backend.capability_absent");
    reveal_strlit("backend.io");
    reveal_strlit("abi.version_mismatch");
    reveal_strlit("abi.struct_size_mismatch");
    reveal_strlit("abi.thread_violation");
    reveal_strlit("abi.invalid_argument");
    reveal_strlit("internal.panic");
    reveal_strlit("internal.invariant");
    reveal_strlit("internal.budget_breach");
        match a {
        ErrorCode::CliInvalidArgs => {
            reveal_strlit("cli.invalid_args");
            assert(code_str(b).len() == 16);
            assert(code_str(b)[0] == 'c');
        },
        ErrorCode::CliMissingModelArg => {
            reveal_strlit("cli.missing_model_arg");
            assert(code_str(b).len() == 21);
            assert(code_str(b)[0] == 'c');
        },
        ErrorCode::ConfigInvalidKey => {
            reveal_strlit("config.invalid_key");
            assert(code_str(b).len() == 18);
            assert(code_str(b)[0] == 'c');
        },
        ErrorCode::ConfigInvalidValue => {
            reveal_strlit("config.invalid_value");
            assert(code_str(b).len() == 20);
            assert(code_str(b)[0] == 'c');
        },
        ErrorCode::ModelsNotFound => {
            reveal_strlit("models.not_found");
            assert(code_str(b).len() == 16);
            assert(code_str(b)[0] == 'm');
        },
        ErrorCode::ModelsNotInstalled => {
            reveal_strlit("models.not_installed");
            assert(code_str(b).len() == 20);
            assert(code_str(b)[0] == 'm');
        },
        ErrorCode::ModelsRepoNotFound => {
            reveal_strlit("models.repo_not_found");
            assert(code_str(b).len() == 21);
            assert(code_str(b)[0] == 'm');
        },
        ErrorCode::ModelsGatedRepoNoToken => {
            reveal_strlit("models.gated_repo_no_token");
            assert(code_str(b).len() == 26);
        },
        ErrorCode::ModelsUnsupportedArchitecture => {
            reveal_strlit("models.unsupported_architecture");
            assert(code_str(b).len() == 31);
        },
        ErrorCode::ModelsPickleRejected => {
            reveal_strlit("models.pickle_rejected");
            assert(code_str(b).len() == 22);
            assert(code_str(b)[0] == 'm');
        },
        ErrorCode::ModelsInvalidMetadata => {
            reveal_strlit("models.invalid_metadata");
            assert(code_str(b).len() == 23);
            assert(code_str(b)[0] == 'm');
        },
        ErrorCode::DownloadNetworkFailed => {
            reveal_strlit("download.network_failed");
            assert(code_str(b).len() == 23);
            assert(code_str(b)[0] == 'd');
        },
        ErrorCode::DownloadHubUnreachable => {
            reveal_strlit("download.hub_unreachable");
            assert(code_str(b).len() == 24);
            assert(code_str(b)[0] == 'd');
        },
        ErrorCode::DownloadIntegrityMismatch => {
            reveal_strlit("download.integrity_mismatch");
            assert(code_str(b).len() == 27);
        },
        ErrorCode::DownloadNoSpace => {
            reveal_strlit("download.no_space");
            assert(code_str(b).len() == 17);
            assert(code_str(b)[0] == 'd');
        },
        ErrorCode::StoreWriteFailed => {
            reveal_strlit("store.write_failed");
            assert(code_str(b).len() == 18);
            assert(code_str(b)[0] == 's');
            assert(code_str(b)[6] == 'w');
        },
        ErrorCode::StoreCorruptBlob => {
            reveal_strlit("store.corrupt_blob");
            assert(code_str(b).len() == 18);
            assert(code_str(b)[0] == 's');
            assert(code_str(b)[6] == 'c');
        },
        ErrorCode::FitWontFit => {
            reveal_strlit("fit.wont_fit");
            assert(code_str(b).len() == 12);
        },
        ErrorCode::FitContextExceeded => {
            reveal_strlit("fit.context_exceeded");
            assert(code_str(b).len() == 20);
            assert(code_str(b)[0] == 'f');
        },
        ErrorCode::KvPoolExhausted => {
            reveal_strlit("kv.pool_exhausted");
            assert(code_str(b).len() == 17);
            assert(code_str(b)[0] == 'k');
        },
        ErrorCode::GrammarSchemaCompileFailed => {
            reveal_strlit("grammar.schema_compile_failed");
            assert(code_str(b).len() == 29);
        },
        ErrorCode::ServerUnsupportedField => {
            reveal_strlit("server.unsupported_field");
            assert(code_str(b).len() == 24);
            assert(code_str(b)[0] == 's');
        },
        ErrorCode::ServerModelLoading => {
            reveal_strlit("server.model_loading");
            assert(code_str(b).len() == 20);
            assert(code_str(b)[0] == 's');
        },
        ErrorCode::EngineLoadFailed => {
            reveal_strlit("engine.load_failed");
            assert(code_str(b).len() == 18);
            assert(code_str(b)[0] == 'e');
        },
        ErrorCode::EngineMetalInitFailed => {
            reveal_strlit("engine.metal_init_failed");
            assert(code_str(b).len() == 24);
            assert(code_str(b)[0] == 'e');
        },
        ErrorCode::EngineInferenceFailed => {
            reveal_strlit("engine.inference_failed");
            assert(code_str(b).len() == 23);
            assert(code_str(b)[0] == 'e');
        },
        ErrorCode::BackendMetalFault => {
            reveal_strlit("backend.metal_fault");
            assert(code_str(b).len() == 19);
        },
        ErrorCode::BackendCapabilityAbsent => {
            reveal_strlit("backend.capability_absent");
            assert(code_str(b).len() == 25);
        },
        ErrorCode::BackendIo => {
            reveal_strlit("backend.io");
            assert(code_str(b).len() == 10);
        },
        ErrorCode::AbiVersionMismatch => {
            reveal_strlit("abi.version_mismatch");
            assert(code_str(b).len() == 20);
            assert(code_str(b)[0] == 'a');
            assert(code_str(b)[4] == 'v');
        },
        ErrorCode::AbiStructSizeMismatch => {
            reveal_strlit("abi.struct_size_mismatch");
            assert(code_str(b).len() == 24);
            assert(code_str(b)[0] == 'a');
        },
        ErrorCode::AbiThreadViolation => {
            reveal_strlit("abi.thread_violation");
            assert(code_str(b).len() == 20);
            assert(code_str(b)[0] == 'a');
            assert(code_str(b)[4] == 't');
        },
        ErrorCode::AbiInvalidArgument => {
            reveal_strlit("abi.invalid_argument");
            assert(code_str(b).len() == 20);
            assert(code_str(b)[0] == 'a');
            assert(code_str(b)[4] == 'i');
        },
        ErrorCode::InternalPanic => {
            reveal_strlit("internal.panic");
            assert(code_str(b).len() == 14);
        },
        ErrorCode::InternalInvariant => {
            reveal_strlit("internal.invariant");
            assert(code_str(b).len() == 18);
            assert(code_str(b)[0] == 'i');
        },
        ErrorCode::InternalBudgetBreach => {
            reveal_strlit("internal.budget_breach");
            assert(code_str(b).len() == 22);
            assert(code_str(b)[0] == 'i');
        },
        }
    }
}

/// Every code appears in the registry.
pub proof fn lemma_registry_complete(c: ErrorCode)
    ensures
        exists|i: int| 0 <= i < registry().len() && registry()[i] == c,
{
    match c {
        ErrorCode::CliInvalidArgs => assert(registry()[0] == c),
        ErrorCode::CliMissingModelArg => assert(registry()[1] == c),
        ErrorCode::ConfigInvalidKey => assert(registry()[2] == c),
        ErrorCode::ConfigInvalidValue => assert(registry()[3] == c),
        ErrorCode::ModelsNotFound => assert(registry()[4] == c),
        ErrorCode::ModelsNotInstalled => assert(registry()[5] == c),
        ErrorCode::ModelsRepoNotFound => assert(registry()[6] == c),
        ErrorCode::ModelsGatedRepoNoToken => assert(registry()[7] == c),
        ErrorCode::ModelsUnsupportedArchitecture => assert(registry()[8] == c),
        ErrorCode::ModelsPickleRejected => assert(registry()[9] == c),
        ErrorCode::ModelsInvalidMetadata => assert(registry()[10] == c),
        ErrorCode::DownloadNetworkFailed => assert(registry()[11] == c),
        ErrorCode::DownloadHubUnreachable => assert(registry()[12] == c),
        ErrorCode::DownloadIntegrityMismatch => assert(registry()[13] == c),
        ErrorCode::DownloadNoSpace => assert(registry()[14] == c),
        ErrorCode::StoreWriteFailed => assert(registry()[15] == c),
        ErrorCode::StoreCorruptBlob => assert(registry()[16] == c),
        ErrorCode::FitWontFit => assert(registry()[17] == c),
        ErrorCode::FitContextExceeded => assert(registry()[18] == c),
        ErrorCode::KvPoolExhausted => assert(registry()[19] == c),
        ErrorCode::GrammarSchemaCompileFailed => assert(registry()[20] == c),
        ErrorCode::ServerUnsupportedField => assert(registry()[21] == c),
        ErrorCode::ServerModelLoading => assert(registry()[22] == c),
        ErrorCode::EngineLoadFailed => assert(registry()[23] == c),
        ErrorCode::EngineMetalInitFailed => assert(registry()[24] == c),
        ErrorCode::EngineInferenceFailed => assert(registry()[25] == c),
        ErrorCode::BackendMetalFault => assert(registry()[26] == c),
        ErrorCode::BackendCapabilityAbsent => assert(registry()[27] == c),
        ErrorCode::BackendIo => assert(registry()[28] == c),
        ErrorCode::AbiVersionMismatch => assert(registry()[29] == c),
        ErrorCode::AbiStructSizeMismatch => assert(registry()[30] == c),
        ErrorCode::AbiThreadViolation => assert(registry()[31] == c),
        ErrorCode::AbiInvalidArgument => assert(registry()[32] == c),
        ErrorCode::InternalPanic => assert(registry()[33] == c),
        ErrorCode::InternalInvariant => assert(registry()[34] == c),
        ErrorCode::InternalBudgetBreach => assert(registry()[35] == c),
    }
}

/// Parsing a code's wire string gives back the code.
pub proof fn lemma_code_str_round_trip(c: ErrorCode)
    ensures
        code_from_str(code_str(c)) == Some(c),
{
    lemma_registry_complete(c);
    let i = choose|i: int| 0 <= i < registry().len() && registry()[i] == c;
    lemma_first_code_with_str_found(registry(), code_str(c), i);
}

proof fn lemma_first_code_with_str_found(codes: Seq<ErrorCode>, s: Seq<char>, i: int)
    requires
        0 <= i < codes.len(),
        code_str(codes[i]) == s,
    ensures
        first_code_with_str(codes, s) == Some(codes[i]),
    decreases codes.len(),
{
    if code_str(codes[0]) == s {
        lemma_code_str_injective(codes[0], codes[i]);
    } else {
        lemma_first_code_with_str_found(codes.drop_first(), s, i - 1);
    }
}

/// A parsed code is one whose wire string is the parsed text.
pub proof fn lemma_code_from_str_sound(codes: Seq<ErrorCode>, s: Seq<char>)
    ensures
        first_code_with_str(codes, s) matches Some(c) ==> code_str(c) == s,
    decreases codes.len(),
{
    if codes.len() > 0 && code_str(codes[0]) != s {
        lemma_code_from_str_sound(codes.drop_first(), s);
    }
}

impl ErrorCode {
    /// Parses a dotted code string back into a code, or `None` if it is not a
    /// registered code.
    pub fn from_code_str(s: &str) -> (r: Option<ErrorCode>)
        ensures
            r == code_from_str(s@),
    {
        let codes = all_error_codes();
        let mut i: usize = 0;
        assert(registry().subrange(0, registry().len() as int) =~= registry());
        while i < codes.len()
            invariant
                i <= codes@.len(),
                codes@ == registry(),
                code_from_str(s@) == first_code_with_str(
                    registry().subrange(i as int, registry().len() as int),
                    s@,
                ),
            decreases codes@.len() - i,
        {
            let ghost rest = registry().subrange(i as int, registry().len() as int);
            assert(rest.drop_first() =~= registry().subrange(i + 1, registry().len() as int));
            if crate::text::str_eq(codes[i].as_str(), s) {
                return Some(codes[i]);
            }
            i = i + 1;
        }
        None
    }
}

/// The one flat error type for the whole workspace. Its failure class lives in
/// `category` and the specific error in `code`; there is no per-subsystem
/// sub-error hierarchy.
#[derive(Debug)]
pub struct DkError {
    /// The registered code.
    pub code: ErrorCode,
    /// The failure class (derived from `code`).
    pub category: ErrorCategory,
    /// A human message in domain terms, with no secrets.
    pub message: String,
    /// The rendered remedy; `None` only before context is attached or for
    /// remedy-exempt codes.
    pub remedy: Option<Remedy>,
    /// The retry semantics (the registry pins the class per code).
    pub retry: Retry,
    /// Typed per-code context.
    pub context: ErrorContext,
}

/// The mathematical value of a [`DkError`].
pub struct DkErrorView {
    /// The code.
    pub code: ErrorCode,
    /// The category.
    pub category: ErrorCategory,
    /// The message.
    pub message: Seq<char>,
    /// The rendered remedy.
    pub remedy: Option<RemedyView>,
    /// The retry semantics.
    pub retry: Retry,
    /// The context entries.
    pub context: Seq<(Seq<char>, CtxVal)>,
}

impl View for DkError {
    type V = DkErrorView;

    open spec fn view(&self) -> DkErrorView {
        DkErrorView {
            code: self.code,
            category: self.category,
            message: self.message@,
            remedy: match self.remedy {
                Some(r) => Some(r@),
                None => None,
            },
            retry: self.retry,
            context: self.context@,
        }
    }
}

/// A fresh error for `code`: category and retry class derived from the code,
/// no remedy, empty context.
pub open spec fn error_new(code: ErrorCode, message: Seq<char>) -> DkErrorView {
    DkErrorView {
        code,
        category: code_category(code),
        message,
        remedy: None,
        retry: code_retry(code),
        context: Seq::empty(),
    }
}

/// `e` with `ctx` attached, rendering the code's remedy template against it
/// when the code binds one.
pub open spec fn error_with_context(e: DkErrorView, ctx: Seq<(Seq<char>, CtxVal)>) -> DkErrorView {
    DkErrorView {
        remedy: match remedy::template_spec(e.code) {
            Some(t) => Some(remedy::rendered_remedy(t, ctx)),
            None => e.remedy,
        },
        context: ctx,
        ..e
    }
}

/// What reading an error back from its wire fields yields: the error for
/// the registered code (its category derived from the code), or the error
/// naming an unknown code.
pub open spec fn error_wire_spec(
    code: Seq<char>,
    message: Seq<char>,
    remedy: Option<RemedyView>,
    retry: Retry,
    context: Seq<(Seq<char>, CtxVal)>,
) -> Result<DkErrorView, Seq<char>> {
    match code_from_str(code) {
        Some(c) => Ok(
            DkErrorView { code: c, category: code_category(c), message, remedy, retry, context },
        ),
        None => Err("unknown error code "@ + crate::text::str_debug(code)),
    }
}

/// An error read back from its `drakkar.error/1` fields is the error that
/// was written, whenever its category is the one its code derives (as for
/// every error this library builds).
pub proof fn lemma_error_wire_round_trip(e: DkErrorView)
    requires
        e.category == code_category(e.code),
    ensures
        error_wire_spec(code_str(e.code), e.message, e.remedy, e.retry, e.context) == Ok::<
            DkErrorView,
            Seq<char>,
        >(e),
{
    lemma_code_str_round_trip(e.code);
}

impl DkError {
    /// Reads an error back from its `drakkar.error/1` fields; the code must be
    /// registered, and the category is derived from it.
    pub fn from_wire(
        code: &str,
        message: String,
        remedy: Option<Remedy>,
        retry: Retry,
        context: ErrorContext,
    ) -> (r: Result<DkError, String>)
        ensures
            match error_wire_spec(
                code@,
                message@,
                match remedy {
                    Some(x) => Some(x@),
                    None => None,
                },
                retry,
                context@,
            ) {
                Ok(v) => r matches Ok(e) && e@ == v,
                Err(m) => r matches Err(x) && x@ == m,
            },
    {
        match ErrorCode::from_code_str(code) {
            Some(c) => Ok(
                DkError { code: c, category: c.category(), message, remedy, retry, context },
            ),
            None => {
                let mut m = String::new();
                push_str(&mut m, "unknown error code ");
                push_str(&mut m, crate::text::debug_quoted(code).as_str());
                Err(m)
            },
        }
    }

    /// An error for `code` with `message`, deriving the category and the
    /// pinned retry class from the code, with no remedy or context yet.
    pub fn new(code: ErrorCode, message: String) -> (r: DkError)
        ensures
            r@ == error_new(code, message@),
    {
        let r = DkError {
            code,
            category: code.category(),
            message,
            remedy: None,
            retry: code.default_retry(),
            context: ErrorContext::new(),
        };
        r
    }

    /// Attaches context, also rendering the code's remedy template against it
    /// when the code is not remedy-exempt.
    pub fn with_context(self, context: ErrorContext) -> (r: DkError)
        ensures
            r@ == error_with_context(self@, context@),
    {
        let mut e = self;
        match e.code.remedy_template() {
            Some(t) => {
                e.remedy = Some(t.render(&context));
            },
            None => {},
        }
        e.context = context;
        e
    }

    /// Overrides the retry semantics (used to fill the concrete delay of the
    /// `after` codes).
    pub fn with_retry(self, retry: Retry) -> (r: DkError)
        ensures
            r@ == (DkErrorView { retry, ..self@ }),
    {
        let mut e = self;
        e.retry = retry;
        e
    }

    /// The registered code.
    pub fn code(&self) -> (r: ErrorCode)
        ensures
            r == self.code,
    {
        self.code
    }

    /// The failure class.
    pub fn category(&self) -> (r: ErrorCategory)
        ensures
            r == self.category,
    {
        self.category
    }

    /// The CLI exit code, from the code's category.
    pub fn exit_code(&self) -> (r: u8)
        ensures
            r == mapping::category_exit(code_category(self.code)),
    {
        self.code.exit_code()
    }

    /// The HTTP status of the code.
    pub fn http_status(&self) -> (r: u16)
        ensures
            r == mapping::code_http(self.code),
    {
        self.code.http_status()
    }

    /// The rendered remedy, if any.
    pub fn remedy(&self) -> (r: Option<&Remedy>)
        ensures
            r matches Some(x) ==> self.remedy == Some(*x),
            r is None ==> self.remedy is None,
    {
        match &self.remedy {
            Some(x) => Some(x),
            None => None,
        }
    }

    /// The one-line description `[code] message`.
    pub fn describe(&self) -> (r: String)
        ensures
            r@ == seq!['['] + code_str(self.code) + "] "@ + self.message@,
    {
        let mut s = String::new();
        push_str(&mut s, "[");
        push_str(&mut s, self.code.as_str());
        push_str(&mut s, "] ");
        push_str(&mut s, self.message.as_str());
        proof {
            reveal_strlit("[");
        }
        assert(s@ =~= seq!['['] + code_str(self.code) + "] "@ + self.message@);
        s
    }
}

} // verus!
