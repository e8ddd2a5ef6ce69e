use drakkar::error::mapping::http_default;
use drakkar::error::remedy::{is_seed_template, remedy_from_wire, template_by_id, template_for};
use drakkar::error::{
    ContextValue, DkError, ERROR_CODE_COUNT, ErrorCategory, ErrorCode, ErrorContext, Retry,
    RetryKind, all_error_codes,
};

#[test]
fn registry_has_exactly_36_distinct_codes() {
    let codes = all_error_codes();
    assert_eq!(codes.len(), 36);
    assert_eq!(ERROR_CODE_COUNT, 36);
    let mut strings: Vec<&str> = codes.iter().map(|c| c.as_str()).collect();
    strings.sort_unstable();
    strings.dedup();
    assert_eq!(strings.len(), 36, "code strings must be distinct");
}

#[test]
fn as_str_matches_registry_examples() {
    assert_eq!(ErrorCode::KvPoolExhausted.as_str(), "kv.pool_exhausted");
    assert_eq!(ErrorCode::FitWontFit.as_str(), "fit.wont_fit");
    assert_eq!(ErrorCode::InternalPanic.as_str(), "internal.panic");
    assert_eq!(ErrorCode::BackendIo.as_str(), "backend.io");
    // Every dotted string is `subsystem.snake_case` with a closed prefix set.
    let prefixes = [
        "cli", "config", "models", "download", "store", "fit", "kv", "engine", "backend", "abi",
        "grammar", "server", "internal",
    ];
    for code in all_error_codes() {
        let (prefix, _) = code.as_str().split_once('.').expect("dotted code");
        assert!(prefixes.contains(&prefix), "unexpected prefix in {}", code.as_str());
    }
}

#[test]
fn from_code_str_round_trips_every_code() {
    for code in all_error_codes() {
        assert_eq!(ErrorCode::from_code_str(code.as_str()), Some(code));
    }
    assert_eq!(ErrorCode::from_code_str("no.such_code"), None);
}

#[test]
fn http_status_overrides_are_the_only_deviations() {
    assert_eq!(ErrorCode::FitContextExceeded.http_status(), 413);
    assert_eq!(ErrorCode::KvPoolExhausted.http_status(), 429);
    assert_eq!(ErrorCode::GrammarSchemaCompileFailed.http_status(), 422);
    assert_eq!(ErrorCode::ServerModelLoading.http_status(), 503);
    // A representative non-override in each category equals its default.
    assert_eq!(ErrorCode::CliInvalidArgs.http_status(), 400);
    assert_eq!(ErrorCode::ModelsNotFound.http_status(), 404);
    assert_eq!(ErrorCode::FitWontFit.http_status(), 422);
    assert_eq!(ErrorCode::DownloadHubUnreachable.http_status(), 503);
    assert_eq!(ErrorCode::EngineLoadFailed.http_status(), 500);
    assert_eq!(ErrorCode::DownloadNoSpace.http_status(), 507);
    assert_eq!(ErrorCode::InternalPanic.http_status(), 500);
}

#[test]
fn every_other_code_uses_its_category_default_status() {
    let overrides = [
        ErrorCode::FitContextExceeded,
        ErrorCode::KvPoolExhausted,
        ErrorCode::GrammarSchemaCompileFailed,
        ErrorCode::ServerModelLoading,
    ];
    for code in all_error_codes() {
        if !overrides.contains(&code) {
            assert_eq!(code.http_status(), http_default(code.category()), "{}", code.as_str());
        }
    }
}

#[test]
fn category_to_exit_code_map() {
    assert_eq!(ErrorCategory::Usage.exit_code(), 2);
    assert_eq!(ErrorCategory::ModelNotFound.exit_code(), 3);
    assert_eq!(ErrorCategory::Infeasible.exit_code(), 4);
    assert_eq!(ErrorCategory::Network.exit_code(), 5);
    assert_eq!(ErrorCategory::Format.exit_code(), 6);
    assert_eq!(ErrorCategory::Engine.exit_code(), 6);
    assert_eq!(ErrorCategory::Disk.exit_code(), 7);
    assert_eq!(ErrorCategory::Internal.exit_code(), 6);
}

#[test]
fn every_non_internal_code_has_a_remedy_and_internal_is_exempt() {
    for code in all_error_codes() {
        let is_internal_prefix = code.as_str().starts_with("internal.");
        assert_eq!(code.remedy_exempt(), is_internal_prefix, "{}", code.as_str());
        if is_internal_prefix {
            assert!(code.remedy_template().is_none(), "{} should be exempt", code.as_str());
        } else {
            assert!(
                code.remedy_template().is_some(),
                "{} should bind a remedy template",
                code.as_str()
            );
        }
    }
}

#[test]
fn seed_templates_are_bound_to_their_codes() {
    assert_eq!(ErrorCode::FitWontFit.remedy_template().unwrap().id, "run_sibling");
    assert_eq!(ErrorCode::KvPoolExhausted.remedy_template().unwrap().id, "retry_after_or_reduce");
    assert_eq!(ErrorCode::FitContextExceeded.remedy_template().unwrap().id, "reduce_context");
    assert_eq!(ErrorCode::DownloadNetworkFailed.remedy_template().unwrap().id, "resume_pull");
    assert_eq!(ErrorCode::DownloadNoSpace.remedy_template().unwrap().id, "prune_store");
    assert_eq!(ErrorCode::ModelsGatedRepoNoToken.remedy_template().unwrap().id, "accept_license");
}

#[test]
fn seed_templates_are_found_by_id() {
    for id in [
        "run_sibling",
        "retry_after_or_reduce",
        "reduce_context",
        "resume_pull",
        "prune_store",
        "accept_license",
    ] {
        assert!(is_seed_template(id), "{id}");
        assert_eq!(template_by_id(id).unwrap().id, id);
    }
    assert!(template_by_id("no_such_template").is_none());
    assert_eq!(template_for(ErrorCode::FitWontFit).unwrap().id, "run_sibling");
}

#[test]
fn render_substitutes_placeholders_and_preserves_literal_braces() {
    let ctx = ErrorContext::new().with_str("command", "run");
    let rendered = ErrorCode::CliInvalidArgs.remedy_template().unwrap().render(&ctx);
    assert_eq!(rendered.rendered, "Run 'drakkar run --help' for accepted flags and arguments.");
    // The grammar remedy contains literal JSON braces that are not placeholders.
    let rendered = ErrorCode::GrammarSchemaCompileFailed
        .remedy_template()
        .unwrap()
        .render(&ErrorContext::new().with_str("reason", "unbounded recursion"));
    assert!(rendered.rendered.contains("{\"type\":\"json_object\"}"));
    assert!(rendered.rendered.contains("unbounded recursion"));
}

#[test]
fn a_new_error_carries_its_code_category_and_default_retry() {
    let e = DkError::new(ErrorCode::KvPoolExhausted, "pool full".to_owned());
    assert_eq!(e.code(), ErrorCode::KvPoolExhausted);
    assert_eq!(e.category(), ErrorCode::KvPoolExhausted.category());
    assert_eq!(e.http_status(), 429);
    assert_eq!(e.describe(), "[kv.pool_exhausted] pool full");
    assert_eq!(e.retry, Retry::After { after_ms: 0 });
    let r = e.with_retry(Retry::After { after_ms: 250 });
    assert_eq!(r.retry, Retry::After { after_ms: 250 });
}

#[test]
fn context_keeps_the_last_value_for_a_key() {
    let ctx = ErrorContext::new().with_int("n", 1).with_str("k", "v").with_int("n", 2);
    assert_eq!(ctx.len(), 2);
    assert!(matches!(ctx.get("n"), Some(ContextValue::Int(2))));
    assert!(ctx.get("missing").is_none());
    assert!(ErrorContext::new().is_empty());
}

fn produce_snapshot() -> String {
    let mut out = String::from("# code | category | exit | http (drakkar.errors/1)\n");
    for code in all_error_codes() {
        out.push_str(&format!(
            "{} | {} | {} | {}\n",
            code.as_str(),
            code.category().as_str(),
            code.exit_code(),
            code.http_status(),
        ));
    }
    out
}

#[test]
fn snapshot_covers_all_36_codes() {
    assert_eq!(all_error_codes().len(), 36);
    assert_eq!(produce_snapshot().lines().count(), 37); // header + 36 rows
}

#[test]
fn retry_wire_shape() {
    assert_eq!(Retry::Terminal.to_wire(), (RetryKind::Terminal, None));
    assert_eq!(Retry::AfterBackoff.to_wire(), (RetryKind::AfterBackoff, None));
    assert_eq!(Retry::After { after_ms: 1800 }.to_wire(), (RetryKind::After, Some(1800)));
    assert_eq!(Retry::from_wire(RetryKind::After, None), Retry::After { after_ms: 0 });
    assert_eq!(Retry::from_wire(RetryKind::Terminal, Some(5)), Retry::Terminal);
    for r in [Retry::Terminal, Retry::AfterBackoff, Retry::After { after_ms: 7 }] {
        let (k, ms) = r.to_wire();
        assert_eq!(Retry::from_wire(k, ms), r);
    }
}

#[test]
fn dkerror_round_trips_through_json_minus_source() {
    let err = DkError::new(
        ErrorCode::KvPoolExhausted,
        "KV pool at 97% with no reclaimable blocks.".to_owned(),
    )
    .with_context(ErrorContext::new().with_int("retry_after_ms", 1800))
    .with_retry(Retry::After { after_ms: 1800 });
    let remedy = err.remedy().unwrap();
    let back_remedy = remedy_from_wire(
        remedy.rendered.clone(),
        remedy.template,
        remedy.params.duplicate(),
    )
    .unwrap();
    assert_eq!(back_remedy.template, "retry_after_or_reduce");
    assert_eq!(back_remedy.rendered, remedy.rendered);
    let back = DkError::from_wire(
        err.code.as_str(),
        err.message.clone(),
        Some(back_remedy),
        err.retry,
        err.context.duplicate(),
    )
    .unwrap();
    assert_eq!(back.retry, Retry::After { after_ms: 1800 });
    assert_eq!(back.code, ErrorCode::KvPoolExhausted);
    assert_eq!(back.category, err.category);
    assert_eq!(back.message, err.message);
    assert_eq!(back.context.len(), 1);
}

#[test]
fn unknown_wire_codes_and_templates_are_refused() {
    let e = DkError::from_wire("no.such_code", String::new(), None, Retry::Terminal, ErrorContext::new())
        .unwrap_err();
    assert_eq!(e, "unknown error code \"no.such_code\"");
    let r = remedy_from_wire(String::new(), "nope", ErrorContext::new()).unwrap_err();
    assert_eq!(r, "unknown remedy template \"nope\"");
}
