//! Remedy templates and their rendering.
//!
//! Every code that is not remedy-exempt (the `internal.*` codes) binds one
//! [`RemedyTemplate`]: a stable id plus a format string whose `{key}`
//! placeholders are filled from an [`ErrorContext`]. Braces that do not enclose
//! a known key are kept literally, so remedy text may contain JSON.

use vstd::prelude::*;

use super::context::{ctx_display, ctx_lookup, CtxVal, ErrorContext};
use super::{registry, ErrorCode};
use crate::text::{chars_of, debug_quoted, push_char, push_chars, push_str, str_debug, str_eq, sub_chars};

verus! {

/// A registered remedy template: a stable id and its `{placeholder}` format.
#[derive(Clone, Copy, Debug)]
pub struct RemedyTemplate {
    /// The stable template id, e.g. `"run_sibling"`.
    pub id: &'static str,
    /// The format string with `{key}` placeholders filled from context.
    pub format: &'static str,
}

impl RemedyTemplate {
    /// The id and format as character sequences.
    pub open spec fn view_pair(self) -> (Seq<char>, Seq<char>) {
        (self.id@, self.format@)
    }
}

/// The template (id, format) bound to a code; `None` for the remedy-exempt
/// `internal.*` codes.
pub open spec fn template_spec(code: ErrorCode) -> Option<(Seq<char>, Seq<char>)> {
    match code {
        ErrorCode::CliInvalidArgs => Some(("cli_invalid_args"@, "Run 'drakkar {command} --help' for accepted flags and arguments."@)),
        ErrorCode::CliMissingModelArg => Some(("cli_missing_model_arg"@, "This command needs a model reference: 'drakkar {command} <ref>'. 'drakkar ls' lists installed models."@)),
        ErrorCode::ConfigInvalidKey => Some(("config_invalid_key"@, "Unknown config key '{key}'. 'drakkar config path' shows the file; 'drakkar doctor' lists valid keys."@)),
        ErrorCode::ConfigInvalidValue => Some(("config_invalid_value"@, "'{key}' expects {expected}; got '{value}'. 'drakkar config set {key} <value>' validates before writing."@)),
        ErrorCode::ModelsNotFound => Some(("models_not_found"@, "'{ref}' does not resolve to a servable model. Check the reference, or 'drakkar ls' for installed models."@)),
        ErrorCode::ModelsNotInstalled => Some(("models_not_installed"@, "Model '{model}' is not installed. Run 'drakkar pull {model}', or pick an installed model from GET /v1/models."@)),
        ErrorCode::ModelsRepoNotFound => Some(("models_repo_not_found"@, "No repository '{repo}' on the hub. Check the spelling, or search: https://huggingface.co/models?search={repo}"@)),
        ErrorCode::ModelsGatedRepoNoToken => Some(("accept_license"@, "{repo} is gated. Accept the license at {acceptance_url}, then provide a token (HF_TOKEN, ~/.huggingface, or keychain; RFC-0006 MP2)."@)),
        ErrorCode::ModelsUnsupportedArchitecture => Some(("models_unsupported_architecture"@, "Architecture '{arch}' is not in the model-def layer of this build. Try a GGUF artifact ('drakkar pull {ref} --format gguf', backend B), or upgrade: architectures are added on a weekly cadence (RFC-0002 D3)."@)),
        ErrorCode::ModelsPickleRejected => Some(("models_pickle_rejected"@, "{file} is a pickle checkpoint; pickle executes code on load and is never accepted (RFC-0001 A11, RFC-0006 MP6). Use a safetensors or GGUF export of this model; conversion guidance: {docs_url}."@)),
        ErrorCode::ModelsInvalidMetadata => Some(("models_invalid_metadata"@, "Metadata for '{ref}' is malformed: {reason}. Check the repository's config.json and safetensors index, or pin a known-good revision with '@{rev}'."@)),
        ErrorCode::DownloadNetworkFailed => Some(("resume_pull"@, "Download interrupted at {percent}% ({bytes_done} of {bytes_total}). Re-run the same command to resume; completed files are never re-fetched (RFC-0006 MP7)."@)),
        ErrorCode::DownloadHubUnreachable => Some(("download_hub_unreachable"@, "Could not reach the hub: {cause}. Check connectivity and proxy settings; installed models keep working offline ('drakkar ls')."@)),
        ErrorCode::DownloadIntegrityMismatch => Some(("download_integrity_mismatch"@, "{file} failed integrity verification (expected {expected}, got {actual}); the blob was discarded (RFC-0006 MP8). Re-run to re-fetch; if it persists, pin a known-good revision with '@{rev}'."@)),
        ErrorCode::DownloadNoSpace => Some(("prune_store"@, "Needs {needed_gib} GiB on {volume} (download + conversion workspace + output, RFC-0006 MP9); {free_gib} GiB free. 'drakkar prune' can reclaim {reclaimable_gib} GiB, or set storage.path to another volume."@)),
        ErrorCode::StoreWriteFailed => Some(("store_write_failed"@, "Writing to the model store at {path} failed: {cause}. Check volume health and permissions; the store is reconstructible, so 'drakkar doctor' can verify and repair manifests."@)),
        ErrorCode::StoreCorruptBlob => Some(("store_corrupt_blob"@, "Blob {blob} at {path} failed digest verification: its content does not match its name (RFC-0006 MP8, INV-CAS). 'drakkar rm {model}' then re-pull; 'drakkar doctor' quarantines the bad blob."@)),
        ErrorCode::FitWontFit => Some(("run_sibling"@, "Needs {needed_gib} GiB even at the floor plan (lowest sane quant, 4k ctx, KV 8-bit); usable budget is {usable_gib} GiB (RFC-0004 FE19). Nearest sibling that fits: 'drakkar run {sibling}'. Override at your own risk with --force."@)),
        ErrorCode::FitContextExceeded => Some(("reduce_context"@, "prompt + max_tokens = {requested} exceeds the admissible {max_admissible_tokens} at the current KV precision. Reduce the request, or reload with --kv-bits 8 (ctx ceiling per precision: 'drakkar fit {model}')."@)),
        ErrorCode::KvPoolExhausted => Some(("retry_after_or_reduce"@, "KV pool at {pool_occupancy}% with no reclaimable blocks (RFC-0004 FE18). Retry after {retry_after_ms} ms, lower concurrency, or raise the pool via a smaller context ceiling."@)),
        ErrorCode::GrammarSchemaCompileFailed => Some(("grammar_schema_compile_failed"@, "The json_schema in response_format does not compile to a grammar: {reason}. Simplify the schema or use {\"type\":\"json_object\"} (RFC-0007 AS10)."@)),
        ErrorCode::ServerUnsupportedField => Some(("server_unsupported_field"@, "Remove '{field}' or check capabilities via GET /v1/models. DRAKKAR never silently ignores parameters (RFC-0007 AS2)."@)),
        ErrorCode::ServerModelLoading => Some(("server_model_loading"@, "{model} is loading ({progress_percent}%, ~{eta_s} s at current SSD bandwidth). Retry after {retry_after_ms} ms."@)),
        ErrorCode::EngineLoadFailed => Some(("engine_load_failed"@, "Loading {model} failed in the backend: {cause}. 'drakkar doctor' checks the store and environment; 'drakkar rm {model}' then re-pull rules out a damaged artifact."@)),
        ErrorCode::EngineMetalInitFailed => Some(("engine_metal_init_failed"@, "Metal device initialization failed: {cause}. 'drakkar doctor' reports GPU, macOS ({min_macos}+ required), and wired-limit status."@)),
        ErrorCode::EngineInferenceFailed => Some(("engine_inference_failed"@, "Generation failed mid-flight: {cause}. The sequence was aborted and its blocks freed. Recurrence on the same input is a bug — report it."@)),
        ErrorCode::BackendMetalFault => Some(("backend_metal_fault"@, "The backend reported a Metal fault: {backend_message} (RFC-0010). 'drakkar doctor' checks GPU and driver state; recurrence on the same input is a bug — report it."@)),
        ErrorCode::BackendCapabilityAbsent => Some(("backend_capability_absent"@, "The backend lacks a required capability: {capability} (RFC-0010, gated by Capabilities). Upgrade DRAKKAR or choose an artifact this build can run ('drakkar fit {model}')."@)),
        ErrorCode::BackendIo => Some(("backend_io"@, "The backend failed a weight I/O operation on {path}: {backend_message} (RFC-0010). Check volume health; 'drakkar rm {model}' then re-pull rules out a damaged artifact."@)),
        ErrorCode::AbiVersionMismatch => Some(("abi_version_mismatch"@, "Backend shim ABI is {found}, this binary expects {expected} (RFC-0010 AB3). The installation is inconsistent — reinstall DRAKKAR (brew reinstall drakkar or re-download)."@)),
        ErrorCode::AbiStructSizeMismatch => Some(("abi_struct_size_mismatch"@, "An ABI struct is larger than the shim understands ({found} > {expected} bytes, RFC-0010 AB13). The installation is inconsistent — reinstall DRAKKAR."@)),
        ErrorCode::AbiThreadViolation => Some(("abi_thread_violation"@, "A backend call crossed the one-thread contract (RFC-0010 AB6). This is a bug — open an issue with the log at {log_path}."@)),
        ErrorCode::AbiInvalidArgument => Some(("abi_invalid_argument"@, "The control plane passed an invalid argument across the ABI (RFC-0010 AB9). This is a bug — open an issue with the log at {log_path}."@)),
        _ => None,
    }
}

/// The remedy template bound to `code`, or `None` for the exempt `internal.*`
/// codes.
pub fn template_for(code: ErrorCode) -> (r: Option<RemedyTemplate>)
    ensures
        r matches Some(t) ==> template_spec(code) == Some(t.view_pair()),
        r is None ==> template_spec(code) is None,
{
    match code {
        ErrorCode::CliInvalidArgs => Some(
            RemedyTemplate {
                id: "cli_invalid_args",
                format: "Run 'drakkar {command} --help' for accepted flags and arguments.",
            },
        ),
        ErrorCode::CliMissingModelArg => Some(
            RemedyTemplate {
                id: "cli_missing_model_arg",
                format: "This command needs a model reference: 'drakkar {command} <ref>'. 'drakkar ls' lists installed models.",
            },
        ),
        ErrorCode::ConfigInvalidKey => Some(
            RemedyTemplate {
                id: "config_invalid_key",
                format: "Unknown config key '{key}'. 'drakkar config path' shows the file; 'drakkar doctor' lists valid keys.",
            },
        ),
        ErrorCode::ConfigInvalidValue => Some(
            RemedyTemplate {
                id: "config_invalid_value",
                format: "'{key}' expects {expected}; got '{value}'. 'drakkar config set {key} <value>' validates before writing.",
            },
        ),
        ErrorCode::ModelsNotFound => Some(
            RemedyTemplate {
                id: "models_not_found",
                format: "'{ref}' does not resolve to a servable model. Check the reference, or 'drakkar ls' for installed models.",
            },
        ),
        ErrorCode::ModelsNotInstalled => Some(
            RemedyTemplate {
                id: "models_not_installed",
                format: "Model '{model}' is not installed. Run 'drakkar pull {model}', or pick an installed model from GET /v1/models.",
            },
        ),
        ErrorCode::ModelsRepoNotFound => Some(
            RemedyTemplate {
                id: "models_repo_not_found",
                format: "No repository '{repo}' on the hub. Check the spelling, or search: https://huggingface.co/models?search={repo}",
            },
        ),
        ErrorCode::ModelsGatedRepoNoToken => Some(
            RemedyTemplate {
                id: "accept_license",
                format: "{repo} is gated. Accept the license at {acceptance_url}, then provide a token (HF_TOKEN, ~/.huggingface, or keychain; RFC-0006 MP2).",
            },
        ),
        ErrorCode::ModelsUnsupportedArchitecture => Some(
            RemedyTemplate {
                id: "models_unsupported_architecture",
                format: "Architecture '{arch}' is not in the model-def layer of this build. Try a GGUF artifact ('drakkar pull {ref} --format gguf', backend B), or upgrade: architectures are added on a weekly cadence (RFC-0002 D3).",
            },
        ),
        ErrorCode::ModelsPickleRejected => Some(
            RemedyTemplate {
                id: "models_pickle_rejected",
                format: "{file} is a pickle checkpoint; pickle executes code on load and is never accepted (RFC-0001 A11, RFC-0006 MP6). Use a safetensors or GGUF export of this model; conversion guidance: {docs_url}.",
            },
        ),
        ErrorCode::ModelsInvalidMetadata => Some(
            RemedyTemplate {
                id: "models_invalid_metadata",
                format: "Metadata for '{ref}' is malformed: {reason}. Check the repository's config.json and safetensors index, or pin a known-good revision with '@{rev}'.",
            },
        ),
        ErrorCode::DownloadNetworkFailed => Some(
            RemedyTemplate {
                id: "resume_pull",
                format: "Download interrupted at {percent}% ({bytes_done} of {bytes_total}). Re-run the same command to resume; completed files are never re-fetched (RFC-0006 MP7).",
            },
        ),
        ErrorCode::DownloadHubUnreachable => Some(
            RemedyTemplate {
                id: "download_hub_unreachable",
                format: "Could not reach the hub: {cause}. Check connectivity and proxy settings; installed models keep working offline ('drakkar ls').",
            },
        ),
        ErrorCode::DownloadIntegrityMismatch => Some(
            RemedyTemplate {
                id: "download_integrity_mismatch",
                format: "{file} failed integrity verification (expected {expected}, got {actual}); the blob was discarded (RFC-0006 MP8). Re-run to re-fetch; if it persists, pin a known-good revision with '@{rev}'.",
            },
        ),
        ErrorCode::DownloadNoSpace => Some(
            RemedyTemplate {
                id: "prune_store",
                format: "Needs {needed_gib} GiB on {volume} (download + conversion workspace + output, RFC-0006 MP9); {free_gib} GiB free. 'drakkar prune' can reclaim {reclaimable_gib} GiB, or set storage.path to another volume.",
            },
        ),
        ErrorCode::StoreWriteFailed => Some(
            RemedyTemplate {
                id: "store_write_failed",
                format: "Writing to the model store at {path} failed: {cause}. Check volume health and permissions; the store is reconstructible, so 'drakkar doctor' can verify and repair manifests.",
            },
        ),
        ErrorCode::StoreCorruptBlob => Some(
            RemedyTemplate {
                id: "store_corrupt_blob",
                format: "Blob {blob} at {path} failed digest verification: its content does not match its name (RFC-0006 MP8, INV-CAS). 'drakkar rm {model}' then re-pull; 'drakkar doctor' quarantines the bad blob.",
            },
        ),
        ErrorCode::FitWontFit => Some(
            RemedyTemplate {
                id: "run_sibling",
                format: "Needs {needed_gib} GiB even at the floor plan (lowest sane quant, 4k ctx, KV 8-bit); usable budget is {usable_gib} GiB (RFC-0004 FE19). Nearest sibling that fits: 'drakkar run {sibling}'. Override at your own risk with --force.",
            },
        ),
        ErrorCode::FitContextExceeded => Some(
            RemedyTemplate {
                id: "reduce_context",
                format: "prompt + max_tokens = {requested} exceeds the admissible {max_admissible_tokens} at the current KV precision. Reduce the request, or reload with --kv-bits 8 (ctx ceiling per precision: 'drakkar fit {model}').",
            },
        ),
        ErrorCode::KvPoolExhausted => Some(
            RemedyTemplate {
                id: "retry_after_or_reduce",
                format: "KV pool at {pool_occupancy}% with no reclaimable blocks (RFC-0004 FE18). Retry after {retry_after_ms} ms, lower concurrency, or raise the pool via a smaller context ceiling.",
            },
        ),
        ErrorCode::GrammarSchemaCompileFailed => Some(
            RemedyTemplate {
                id: "grammar_schema_compile_failed",
                format: "The json_schema in response_format does not compile to a grammar: {reason}. Simplify the schema or use {\"type\":\"json_object\"} (RFC-0007 AS10).",
            },
        ),
        ErrorCode::ServerUnsupportedField => Some(
            RemedyTemplate {
                id: "server_unsupported_field",
                format: "Remove '{field}' or check capabilities via GET /v1/models. DRAKKAR never silently ignores parameters (RFC-0007 AS2).",
            },
        ),
        ErrorCode::ServerModelLoading => Some(
            RemedyTemplate {
                id: "server_model_loading",
                format: "{model} is loading ({progress_percent}%, ~{eta_s} s at current SSD bandwidth). Retry after {retry_after_ms} ms.",
            },
        ),
        ErrorCode::EngineLoadFailed => Some(
            RemedyTemplate {
                id: "engine_load_failed",
                format: "Loading {model} failed in the backend: {cause}. 'drakkar doctor' checks the store and environment; 'drakkar rm {model}' then re-pull rules out a damaged artifact.",
            },
        ),
        ErrorCode::EngineMetalInitFailed => Some(
            RemedyTemplate {
                id: "engine_metal_init_failed",
                format: "Metal device initialization failed: {cause}. 'drakkar doctor' reports GPU, macOS ({min_macos}+ required), and wired-limit status.",
            },
        ),
        ErrorCode::EngineInferenceFailed => Some(
            RemedyTemplate {
                id: "engine_inference_failed",
                format: "Generation failed mid-flight: {cause}. The sequence was aborted and its blocks freed. Recurrence on the same input is a bug — report it.",
            },
        ),
        ErrorCode::BackendMetalFault => Some(
            RemedyTemplate {
                id: "backend_metal_fault",
                format: "The backend reported a Metal fault: {backend_message} (RFC-0010). 'drakkar doctor' checks GPU and driver state; recurrence on the same input is a bug — report it.",
            },
        ),
        ErrorCode::BackendCapabilityAbsent => Some(
            RemedyTemplate {
                id: "backend_capability_absent",
                format: "The backend lacks a required capability: {capability} (RFC-0010, gated by Capabilities). Upgrade DRAKKAR or choose an artifact this build can run ('drakkar fit {model}').",
            },
        ),
        ErrorCode::BackendIo => Some(
            RemedyTemplate {
                id: "backend_io",
                format: "The backend failed a weight I/O operation on {path}: {backend_message} (RFC-0010). Check volume health; 'drakkar rm {model}' then re-pull rules out a damaged artifact.",
            },
        ),
        ErrorCode::AbiVersionMismatch => Some(
            RemedyTemplate {
                id: "abi_version_mismatch",
                format: "Backend shim ABI is {found}, this binary expects {expected} (RFC-0010 AB3). The installation is inconsistent — reinstall DRAKKAR (brew reinstall drakkar or re-download).",
            },
        ),
        ErrorCode::AbiStructSizeMismatch => Some(
            RemedyTemplate {
                id: "abi_struct_size_mismatch",
                format: "An ABI struct is larger than the shim understands ({found} > {expected} bytes, RFC-0010 AB13). The installation is inconsistent — reinstall DRAKKAR.",
            },
        ),
        ErrorCode::AbiThreadViolation => Some(
            RemedyTemplate {
                id: "abi_thread_violation",
                format: "A backend call crossed the one-thread contract (RFC-0010 AB6). This is a bug — open an issue with the log at {log_path}.",
            },
        ),
        ErrorCode::AbiInvalidArgument => Some(
            RemedyTemplate {
                id: "abi_invalid_argument",
                format: "The control plane passed an invalid argument across the ABI (RFC-0010 AB9). This is a bug — open an issue with the log at {log_path}.",
            },
        ),
        ErrorCode::InternalPanic
        | ErrorCode::InternalInvariant
        | ErrorCode::InternalBudgetBreach => None,
    }
}

/// The first template, in registry order of `codes`, whose id is `id`.
pub open spec fn template_with_id(codes: Seq<ErrorCode>, id: Seq<char>) -> Option<
    (Seq<char>, Seq<char>),
>
    decreases codes.len(),
{
    if codes.len() == 0 {
        None
    } else {
        match template_spec(codes[0]) {
            Some(t) => if t.0 == id {
                Some(t)
            } else {
                template_with_id(codes.drop_first(), id)
            },
            None => template_with_id(codes.drop_first(), id),
        }
    }
}

/// The registered template with the given id, for id-based lookup when a
/// rendered remedy is read back.
pub fn template_by_id(id: &str) -> (r: Option<RemedyTemplate>)
    ensures
        r matches Some(t) ==> template_with_id(registry(), id@) == Some(t.view_pair()),
        r is None ==> template_with_id(registry(), id@) is None,
{
    let codes = super::all_error_codes();
    let mut i: usize = 0;
    assert(registry().subrange(0, registry().len() as int) =~= registry());
    while i < codes.len()
        invariant
            i <= codes@.len(),
            codes@ == registry(),
            template_with_id(registry(), id@) == template_with_id(
                registry().subrange(i as int, registry().len() as int),
                id@,
            ),
        decreases codes@.len() - i,
    {
        let ghost rest = registry().subrange(i as int, registry().len() as int);
        assert(rest.drop_first() =~= registry().subrange(i + 1, registry().len() as int));
        match template_for(codes[i]) {
            Some(t) => {
                if str_eq(t.id, id) {
                    return Some(t);
                }
            },
            None => {},
        }
        i = i + 1;
    }
    None
}

/// Whether `id` is one of the six seed template ids.
pub open spec fn seed_template(id: Seq<char>) -> bool {
    id == "run_sibling"@ || id == "retry_after_or_reduce"@ || id == "reduce_context"@ || id
        == "resume_pull"@ || id == "prune_store"@ || id == "accept_license"@
}

/// Whether `id` is one of the six seed template ids (a documentation anchor;
/// every non-exempt code binds a template).
pub fn is_seed_template(id: &str) -> (r: bool)
    ensures
        r == seed_template(id@),
{
    str_eq(id, "run_sibling") || str_eq(id, "retry_after_or_reduce") || str_eq(
        id,
        "reduce_context",
    ) || str_eq(id, "resume_pull") || str_eq(id, "prune_store") || str_eq(id, "accept_license")
}

/// The first index `j >= i` with `s[j] == c`, or `-1`.
pub open spec fn find_from(s: Seq<char>, c: char, i: int) -> int
    decreases s.len() - i,
{
    if i < 0 || i >= s.len() {
        -1
    } else if s[i] == c {
        i
    } else {
        find_from(s, c, i + 1)
    }
}

/// What a placeholder `{key}` renders to: the value's display when the key is
/// bound, else the literal braces around the key.
pub open spec fn placeholder(key: Seq<char>, params: Seq<(Seq<char>, CtxVal)>) -> Seq<char> {
    match ctx_lookup(params, key) {
        Some(v) => ctx_display(v),
        None => seq!['{'] + key + seq!['}'],
    }
}

/// The rendering of `fmt[pos..]`: text is copied, each `{key}` becomes its
/// placeholder rendering, and an unmatched `{` is copied literally.
pub open spec fn render_from(fmt: Seq<char>, pos: int, params: Seq<(Seq<char>, CtxVal)>) -> Seq<
    char,
>
    decreases fmt.len() - pos,
{
    if pos < 0 || pos >= fmt.len() {
        Seq::empty()
    } else {
        let open = find_from(fmt, '{', pos);
        proof {
            lemma_find_from_bounds(fmt, '{', pos);
        }
        if open < 0 {
            fmt.subrange(pos, fmt.len() as int)
        } else {
            let close = find_from(fmt, '}', open + 1);
            proof {
                lemma_find_from_bounds(fmt, '}', open + 1);
            }
            if close < 0 {
                fmt.subrange(pos, open) + seq!['{'] + render_from(fmt, open + 1, params)
            } else {
                fmt.subrange(pos, open) + placeholder(fmt.subrange(open + 1, close), params)
                    + render_from(fmt, close + 1, params)
            }
        }
    }
}

/// The rendering of a whole format string against `params`.
pub open spec fn render_spec(fmt: Seq<char>, params: Seq<(Seq<char>, CtxVal)>) -> Seq<char> {
    render_from(fmt, 0, params)
}

/// A search from `i` either finds nothing or an index at or after `i` that
/// holds the character.
pub proof fn lemma_find_from_bounds(s: Seq<char>, c: char, i: int)
    requires
        0 <= i,
    ensures
        find_from(s, c, i) == -1 || (i <= find_from(s, c, i) < s.len() && s[find_from(
            s,
            c,
            i,
        )] == c),
    decreases s.len() - i,
{
    if i < s.len() && s[i] != c {
        lemma_find_from_bounds(s, c, i + 1);
    }
}

/// The first index at or after `from` holding `c`, or `v.len()`.
fn find_char(v: &[char], c: char, from: usize) -> (r: usize)
    requires
        from <= v@.len(),
    ensures
        from <= r <= v@.len(),
        r < v@.len() ==> find_from(v@, c, from as int) == r as int,
        r == v@.len() ==> find_from(v@, c, from as int) == -1,
{
    let mut j = from;
    while j < v.len() && v[j] != c
        invariant
            from <= j <= v@.len(),
            find_from(v@, c, from as int) == find_from(v@, c, j as int),
        decreases v@.len() - j,
    {
        j = j + 1;
    }
    j
}

/// Renders `format` against `params`, substituting each `{key}` for the
/// matching value.
pub fn render_format(format: &str, params: &ErrorContext) -> (r: String)
    ensures
        r@ == render_spec(format@, params@),
{
    let fmt = chars_of(format);
    let n = fmt.len();
    let mut out = String::new();
    let mut pos: usize = 0;
    while pos < n
        invariant
            n == fmt@.len(),
            pos <= n,
            fmt@ == format@,
            out@ + render_from(fmt@, pos as int, params@) == render_spec(format@, params@),
        decreases n - pos,
    {
        let open = find_char(fmt.as_slice(), '{', pos);
        if open == n {
            push_chars(&mut out, fmt.as_slice(), pos, n);
            pos = n;
        } else {
            let close = find_char(fmt.as_slice(), '}', open + 1);
            push_chars(&mut out, fmt.as_slice(), pos, open);
            if close == n {
                push_char(&mut out, '{');
                pos = open + 1;
            } else {
                let key = sub_chars(fmt.as_slice(), open + 1, close);
                match params.get_chars(key.as_slice()) {
                    Some(value) => value.push_display(&mut out),
                    None => {
                        push_char(&mut out, '{');
                        push_chars(&mut out, fmt.as_slice(), open + 1, close);
                        push_char(&mut out, '}');
                    },
                }
                pos = close + 1;
            }
        }
        assert(out@ + render_from(fmt@, pos as int, params@) =~= render_spec(format@, params@));
    }
    assert(out@ =~= render_spec(format@, params@));
    out
}

/// A rendered remedy: the single most useful next action, with the template id
/// and the params that filled it.
#[derive(Debug)]
pub struct Remedy {
    /// The single-line rendered remedy.
    pub rendered: String,
    /// The registered template id, e.g. `"run_sibling"`.
    pub template: &'static str,
    /// The typed params that filled the template.
    pub params: ErrorContext,
}

/// The mathematical value of a [`Remedy`].
pub struct RemedyView {
    /// The rendered text.
    pub rendered: Seq<char>,
    /// The template id.
    pub template: Seq<char>,
    /// The params.
    pub params: Seq<(Seq<char>, CtxVal)>,
}

impl View for Remedy {
    type V = RemedyView;

    open spec fn view(&self) -> RemedyView {
        RemedyView { rendered: self.rendered@, template: self.template@, params: self.params@ }
    }
}

/// The remedy a template renders against `params`.
pub open spec fn rendered_remedy(t: (Seq<char>, Seq<char>), params: Seq<(Seq<char>, CtxVal)>) -> RemedyView {
    RemedyView { rendered: render_spec(t.1, params), template: t.0, params }
}

impl RemedyTemplate {
    /// Renders this template against `params`, substituting each `{key}` for
    /// the matching context value.
    pub fn render(&self, params: &ErrorContext) -> (r: Remedy)
        ensures
            r@ == rendered_remedy(self.view_pair(), params@),
    {
        Remedy {
            rendered: render_format(self.format, params),
            template: self.id,
            params: params.duplicate(),
        }
    }
}

impl Remedy {
    /// A copy of this remedy.
    pub fn duplicate(&self) -> (r: Remedy)
        ensures
            r@ == self@,
    {
        Remedy {
            rendered: self.rendered.clone(),
            template: self.template,
            params: self.params.duplicate(),
        }
    }
}

/// What reading a remedy back from its wire fields yields: the remedy with
/// the registered template of that id, or the error naming an unknown id.
pub open spec fn remedy_wire_spec(
    rendered: Seq<char>,
    template: Seq<char>,
    params: Seq<(Seq<char>, CtxVal)>,
) -> Result<RemedyView, Seq<char>> {
    match template_with_id(registry(), template) {
        Some(t) => Ok(RemedyView { rendered, template: t.0, params }),
        None => Err("unknown remedy template "@ + str_debug(template)),
    }
}

/// Reads a remedy back from its wire fields; the template id must be
/// registered.
pub fn remedy_from_wire(rendered: String, template: &str, params: ErrorContext) -> (r: Result<
    Remedy,
    String,
>)
    ensures
        match remedy_wire_spec(rendered@, template@, params@) {
            Ok(v) => r matches Ok(x) && x@ == v,
            Err(m) => r matches Err(x) && x@ == m,
        },
{
    match template_by_id(template) {
        Some(t) => Ok(Remedy { rendered, template: t.id, params }),
        None => {
            let mut m = String::new();
            push_str(&mut m, "unknown remedy template ");
            push_str(&mut m, debug_quoted(template).as_str());
            Err(m)
        },
    }
}

/// Looking a template up by the id of a code's template, among codes that
/// include that code, finds a template with that id.
proof fn lemma_template_with_id_finds(codes: Seq<ErrorCode>, c: ErrorCode)
    requires
        codes.contains(c),
        template_spec(c) is Some,
    ensures
        template_with_id(codes, (template_spec(c)->0).0) matches Some(t) && t.0 == (template_spec(
            c,
        )->0).0,
    decreases codes.len(),
{
    if codes[0] != c {
        let i = choose|i: int| 0 <= i < codes.len() && codes[i] == c;
        assert(codes.drop_first()[i - 1] == c);
        lemma_template_with_id_finds(codes.drop_first(), c);
    }
}

/// A remedy rendered from a code's template and read back from its wire
/// fields is the same remedy.
pub proof fn lemma_remedy_wire_round_trip(c: ErrorCode, params: Seq<(Seq<char>, CtxVal)>)
    requires
        template_spec(c) is Some,
    ensures
        ({
            let v = rendered_remedy(template_spec(c)->0, params);
            remedy_wire_spec(v.rendered, v.template, v.params) == Ok::<RemedyView, Seq<char>>(v)
        }),
{
    super::lemma_registry_complete(c);
    let i = choose|i: int| 0 <= i < registry().len() && registry()[i] == c;
    assert(registry().contains(c));
    lemma_template_with_id_finds(registry(), c);
}

/// The length, first and eighth characters of a template id, which already
/// tell the ids apart.
spec fn id_shape(id: Seq<char>) -> (int, char, char) {
    (id.len() as int, id[0], id[7])
}

/// The shape of each code's template id.
spec fn template_id_shape(c: ErrorCode) -> (int, char, char) {
    match c {
        ErrorCode::CliInvalidArgs => (16, 'c', 'a'),
        ErrorCode::CliMissingModelArg => (21, 'c', 's'),
        ErrorCode::ConfigInvalidKey => (18, 'c', 'i'),
        ErrorCode::ConfigInvalidValue => (20, 'c', 'i'),
        ErrorCode::ModelsNotFound => (16, 'm', 'n'),
        ErrorCode::ModelsNotInstalled => (20, 'm', 'n'),
        ErrorCode::ModelsRepoNotFound => (21, 'm', 'r'),
        ErrorCode::ModelsGatedRepoNoToken => (14, 'a', 'l'),
        ErrorCode::ModelsUnsupportedArchitecture => (31, 'm', 'u'),
        ErrorCode::ModelsPickleRejected => (22, 'm', 'p'),
        ErrorCode::ModelsInvalidMetadata => (23, 'm', 'i'),
        ErrorCode::DownloadNetworkFailed => (11, 'r', 'p'),
        ErrorCode::DownloadHubUnreachable => (24, 'd', 'd'),
        ErrorCode::DownloadIntegrityMismatch => (27, 'd', 'd'),
        ErrorCode::DownloadNoSpace => (11, 'p', 't'),
        ErrorCode::StoreWriteFailed => (18, 's', 'r'),
        ErrorCode::StoreCorruptBlob => (18, 's', 'o'),
        ErrorCode::FitWontFit => (11, 'r', 'l'),
        ErrorCode::FitContextExceeded => (14, 'r', 'c'),
        ErrorCode::KvPoolExhausted => (21, 'r', 'f'),
        ErrorCode::GrammarSchemaCompileFailed => (29, 'g', '_'),
        ErrorCode::ServerUnsupportedField => (24, 's', 'u'),
        ErrorCode::ServerModelLoading => (20, 's', 'm'),
        ErrorCode::EngineLoadFailed => (18, 'e', 'l'),
        ErrorCode::EngineMetalInitFailed => (24, 'e', 'm'),
        ErrorCode::EngineInferenceFailed => (23, 'e', 'i'),
        ErrorCode::BackendMetalFault => (19, 'b', '_'),
        ErrorCode::BackendCapabilityAbsent => (25, 'b', '_'),
        ErrorCode::BackendIo => (10, 'b', '_'),
        ErrorCode::AbiVersionMismatch => (20, 'a', 's'),
        ErrorCode::AbiStructSizeMismatch => (24, 'a', 'u'),
        ErrorCode::AbiThreadViolation => (20, 'a', 'e'),
        ErrorCode::AbiInvalidArgument => (20, 'a', 'a'),
        _ => (0, ' ', ' '),
    }
}

/// The code whose template id has the given shape.
spec fn code_with_id_shape(sh: (int, char, char)) -> ErrorCode {
    if sh == (16int, 'c', 'a') {
        ErrorCode::CliInvalidArgs
    } else if sh == (21int, 'c', 's') {
        ErrorCode::CliMissingModelArg
    } else if sh == (18int, 'c', 'i') {
        ErrorCode::ConfigInvalidKey
    } else if sh == (20int, 'c', 'i') {
        ErrorCode::ConfigInvalidValue
    } else if sh == (16int, 'm', 'n') {
        ErrorCode::ModelsNotFound
    } else if sh == (20int, 'm', 'n') {
        ErrorCode::ModelsNotInstalled
    } else if sh == (21int, 'm', 'r') {
        ErrorCode::ModelsRepoNotFound
    } else if sh == (14int, 'a', 'l') {
        ErrorCode::ModelsGatedRepoNoToken
    } else if sh == (31int, 'm', 'u') {
        ErrorCode::ModelsUnsupportedArchitecture
    } else if sh == (22int, 'm', 'p') {
        ErrorCode::ModelsPickleRejected
    } else if sh == (23int, 'm', 'i') {
        ErrorCode::ModelsInvalidMetadata
    } else if sh == (11int, 'r', 'p') {
        ErrorCode::DownloadNetworkFailed
    } else if sh == (24int, 'd', 'd') {
        ErrorCode::DownloadHubUnreachable
    } else if sh == (27int, 'd', 'd') {
        ErrorCode::DownloadIntegrityMismatch
    } else if sh == (11int, 'p', 't') {
        ErrorCode::DownloadNoSpace
    } else if sh == (18int, 's', 'r') {
        ErrorCode::StoreWriteFailed
    } else if sh == (18int, 's', 'o') {
        ErrorCode::StoreCorruptBlob
    } else if sh == (11int, 'r', 'l') {
        ErrorCode::FitWontFit
    } else if sh == (14int, 'r', 'c') {
        ErrorCode::FitContextExceeded
    } else if sh == (21int, 'r', 'f') {
        ErrorCode::KvPoolExhausted
    } else if sh == (29int, 'g', '_') {
        ErrorCode::GrammarSchemaCompileFailed
    } else if sh == (24int, 's', 'u') {
        ErrorCode::ServerUnsupportedField
    } else if sh == (20int, 's', 'm') {
        ErrorCode::ServerModelLoading
    } else if sh == (18int, 'e', 'l') {
        ErrorCode::EngineLoadFailed
    } else if sh == (24int, 'e', 'm') {
        ErrorCode::EngineMetalInitFailed
    } else if sh == (23int, 'e', 'i') {
        ErrorCode::EngineInferenceFailed
    } else if sh == (19int, 'b', '_') {
        ErrorCode::BackendMetalFault
    } else if sh == (25int, 'b', '_') {
        ErrorCode::BackendCapabilityAbsent
    } else if sh == (10int, 'b', '_') {
        ErrorCode::BackendIo
    } else if sh == (20int, 'a', 's') {
        ErrorCode::AbiVersionMismatch
    } else if sh == (24int, 'a', 'u') {
        ErrorCode::AbiStructSizeMismatch
    } else if sh == (20int, 'a', 'e') {
        ErrorCode::AbiThreadViolation
    } else {
        ErrorCode::AbiInvalidArgument
    }
}

proof fn lemma_template_id_shape(c: ErrorCode)
    requires
        template_spec(c) is Some,
    ensures
        id_shape((template_spec(c)->0).0) == template_id_shape(c),
        code_with_id_shape(template_id_shape(c)) == c,
{
    match c {
        ErrorCode::CliInvalidArgs => reveal_strlit("cli_invalid_args"),
        ErrorCode::CliMissingModelArg => reveal_strlit("cli_missing_model_arg"),
        ErrorCode::ConfigInvalidKey => reveal_strlit("config_invalid_key"),
        ErrorCode::ConfigInvalidValue => reveal_strlit("config_invalid_value"),
        ErrorCode::ModelsNotFound => reveal_strlit("models_not_found"),
        ErrorCode::ModelsNotInstalled => reveal_strlit("models_not_installed"),
        ErrorCode::ModelsRepoNotFound => reveal_strlit("models_repo_not_found"),
        ErrorCode::ModelsGatedRepoNoToken => reveal_strlit("accept_license"),
        ErrorCode::ModelsUnsupportedArchitecture => reveal_strlit("models_unsupported_architecture"),
        ErrorCode::ModelsPickleRejected => reveal_strlit("models_pickle_rejected"),
        ErrorCode::ModelsInvalidMetadata => reveal_strlit("models_invalid_metadata"),
        ErrorCode::DownloadNetworkFailed => reveal_strlit("resume_pull"),
        ErrorCode::DownloadHubUnreachable => reveal_strlit("download_hub_unreachable"),
        ErrorCode::DownloadIntegrityMismatch => reveal_strlit("download_integrity_mismatch"),
        ErrorCode::DownloadNoSpace => reveal_strlit("prune_store"),
        ErrorCode::StoreWriteFailed => reveal_strlit("store_write_failed"),
        ErrorCode::StoreCorruptBlob => reveal_strlit("store_corrupt_blob"),
        ErrorCode::FitWontFit => reveal_strlit("run_sibling"),
        ErrorCode::FitContextExceeded => reveal_strlit("reduce_context"),
        ErrorCode::KvPoolExhausted => reveal_strlit("retry_after_or_reduce"),
        ErrorCode::GrammarSchemaCompileFailed => reveal_strlit("grammar_schema_compile_failed"),
        ErrorCode::ServerUnsupportedField => reveal_strlit("server_unsupported_field"),
        ErrorCode::ServerModelLoading => reveal_strlit("server_model_loading"),
        ErrorCode::EngineLoadFailed => reveal_strlit("engine_load_failed"),
        ErrorCode::EngineMetalInitFailed => reveal_strlit("engine_metal_init_failed"),
        ErrorCode::EngineInferenceFailed => reveal_strlit("engine_inference_failed"),
        ErrorCode::BackendMetalFault => reveal_strlit("backend_metal_fault"),
        ErrorCode::BackendCapabilityAbsent => reveal_strlit("backend_capability_absent"),
        ErrorCode::BackendIo => reveal_strlit("backend_io"),
        ErrorCode::AbiVersionMismatch => reveal_strlit("abi_version_mismatch"),
        ErrorCode::AbiStructSizeMismatch => reveal_strlit("abi_struct_size_mismatch"),
        ErrorCode::AbiThreadViolation => reveal_strlit("abi_thread_violation"),
        ErrorCode::AbiInvalidArgument => reveal_strlit("abi_invalid_argument"),
        _ => {},
    }
}

/// A template id identifies its code: no two codes share one.
pub proof fn lemma_template_ids_distinct(a: ErrorCode, b: ErrorCode)
    requires
        a != b,
        template_spec(a) is Some,
        template_spec(b) is Some,
    ensures
        (template_spec(a)->0).0 != (template_spec(b)->0).0,
{
    lemma_template_id_shape(a);
    lemma_template_id_shape(b);
}

} // verus!
