use drakkar::cli::{
    Cli, Command, ConfigAction, Dispatch, GlobalFlags, OutputMode, color_resolve,
    config_path_from, dispatch, exit_code, panic_exit_code,
};
use drakkar::error::{DkError, ErrorCode, ErrorContext};

fn err(code: ErrorCode) -> DkError {
    DkError::new(code, "test".to_owned()).with_context(ErrorContext::new())
}

#[test]
fn color_gating_matrix() {
    assert!(color_resolve(true, false)); // TTY, no NO_COLOR -> colored
    assert!(!color_resolve(true, true)); // NO_COLOR set -> plain
    assert!(!color_resolve(false, false)); // not a TTY -> plain
    assert!(!color_resolve(false, true)); // both -> plain
}

#[test]
fn success_is_zero() {
    assert_eq!(exit_code(&Ok(())), 0);
}

#[test]
fn each_category_maps_to_its_cli8_code() {
    assert_eq!(exit_code(&Err(err(ErrorCode::CliInvalidArgs))), 2); // usage
    assert_eq!(exit_code(&Err(err(ErrorCode::ModelsNotFound))), 3); // model_not_found
    assert_eq!(exit_code(&Err(err(ErrorCode::FitWontFit))), 4); // infeasible
    assert_eq!(exit_code(&Err(err(ErrorCode::DownloadHubUnreachable))), 5); // network
    assert_eq!(exit_code(&Err(err(ErrorCode::ModelsUnsupportedArchitecture))), 6); // format
    assert_eq!(exit_code(&Err(err(ErrorCode::EngineLoadFailed))), 6); // engine
    assert_eq!(exit_code(&Err(err(ErrorCode::DownloadNoSpace))), 7); // disk
    assert_eq!(exit_code(&Err(err(ErrorCode::InternalPanic))), 6); // internal
}

#[test]
fn code_one_is_never_emitted() {
    for result in [
        Ok(()),
        Err(err(ErrorCode::CliInvalidArgs)),
        Err(err(ErrorCode::FitWontFit)),
        Err(err(ErrorCode::InternalPanic)),
    ] {
        assert_ne!(exit_code(&result), 1);
    }
    assert_ne!(panic_exit_code(), 1);
    assert_eq!(panic_exit_code(), 6);
}

#[test]
fn mode_from_flags() {
    let mut flags = GlobalFlags::default();
    assert_eq!(OutputMode::from_flags(&flags), OutputMode::Human);
    flags.json = true;
    assert_eq!(OutputMode::from_flags(&flags), OutputMode::Json);
    flags.stream_json = true;
    assert_eq!(OutputMode::from_flags(&flags), OutputMode::StreamJson);
}

#[test]
fn stream_json_alone_selects_stream_json() {
    let flags = GlobalFlags { stream_json: true, ..GlobalFlags::default() };
    assert_eq!(OutputMode::from_flags(&flags), OutputMode::StreamJson);
}

#[test]
fn dispatch_routes_config_and_announces_the_rest() {
    let config = Cli {
        globals: GlobalFlags::default(),
        command: Command::Config { action: ConfigAction::Get { key: "server.port".to_owned() } },
    };
    assert_eq!(
        dispatch(&config),
        Dispatch::Config(ConfigAction::Get { key: "server.port".to_owned() })
    );

    let ls = Cli { globals: GlobalFlags::default(), command: Command::Ls };
    assert_eq!(dispatch(&ls), Dispatch::NotImplemented { name: "ls", announce: true });

    let quiet = Cli {
        globals: GlobalFlags { quiet: true, ..GlobalFlags::default() },
        command: Command::Prune,
    };
    assert_eq!(dispatch(&quiet), Dispatch::NotImplemented { name: "prune", announce: false });
}

#[test]
fn config_path_prefers_xdg_then_home() {
    assert_eq!(config_path_from(Some("/x/cfg"), Some("/home/u")), "/x/cfg/drakkar/config.toml");
    assert_eq!(config_path_from(None, Some("/home/u")), "/home/u/.config/drakkar/config.toml");
    // An empty XDG value falls back to HOME.
    assert_eq!(config_path_from(Some(""), Some("/home/u")), "/home/u/.config/drakkar/config.toml");
    // A trailing separator is not doubled, and no HOME leaves a relative path.
    assert_eq!(config_path_from(Some("/x/"), None), "/x/drakkar/config.toml");
    assert_eq!(config_path_from(None, None), ".config/drakkar/config.toml");
}
