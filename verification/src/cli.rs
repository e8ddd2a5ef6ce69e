//! The command-line surface as data, and the pure parts of the CLI: the
//! output mode, the color gate, the exit-code path, and the dispatch decision.
//! Parsing the arguments and writing to the terminal happen outside the
//! library.

use vstd::prelude::*;

use crate::error::mapping::category_exit;
use crate::error::{DkError, ErrorCode, code_category};
use crate::text::{chars_of, push_str};

verus! {

/// Global flags, accepted before or after the subcommand.
#[derive(Clone, Copy, PartialEq, Eq, Debug, Default, Structural)]
pub struct GlobalFlags {
    /// Emit a single machine-readable JSON object on stdout.
    pub json: bool,
    /// Emit JSON Lines streaming events (streaming commands only).
    pub stream_json: bool,
    /// Suppress non-error progress on stderr.
    pub quiet: bool,
    /// The stderr log level; each repetition raises it.
    pub verbose: u8,
    /// Assume "yes" to interactive confirmations.
    pub yes: bool,
    /// Override a `Won't fit` verdict and proceed.
    pub force: bool,
}

/// `drakkar config` subcommands.
#[derive(Clone, PartialEq, Eq, Debug)]
pub enum ConfigAction {
    /// Print a config value.
    Get {
        /// The dotted config key, e.g. `server.port`.
        key: String,
    },
    /// Set a config value (validated, atomic write).
    SetValue {
        /// The dotted config key.
        key: String,
        /// The new value.
        value: String,
    },
    /// Print the config file path.
    Path,
}

impl ConfigAction {
    /// A copy of the action.
    pub fn duplicate(&self) -> (r: ConfigAction)
        ensures
            r == *self,
    {
        match self {
            ConfigAction::Get { key } => ConfigAction::Get { key: key.clone() },
            ConfigAction::SetValue { key, value } => ConfigAction::SetValue {
                key: key.clone(),
                value: value.clone(),
            },
            ConfigAction::Path => ConfigAction::Path,
        }
    }
}

/// The command surface; the whole surface is present for honest `--help`.
#[derive(Clone, PartialEq, Eq, Debug)]
pub enum Command {
    /// Fit-check, acquire, load, then REPL or one-shot generate.
    Run {
        /// The model reference.
        reference: String,
        /// A one-shot prompt; omit for an interactive REPL.
        prompt: Option<String>,
    },
    /// Acquire and prepare a model without running it.
    Pull {
        /// The model reference.
        reference: String,
    },
    /// Print a feasibility report without downloading.
    Fit {
        /// The model reference.
        reference: String,
        /// Target context length.
        ctx: Option<u32>,
        /// KV precision in bits (16, 8, or 4).
        kv_bits: Option<u8>,
        /// Concurrency to plan for.
        concurrency: Option<u32>,
        /// Simulate a machine profile instead of probing.
        machine: Option<String>,
    },
    /// List installed models.
    Ls,
    /// Remove a model.
    Rm {
        /// The model reference.
        reference: String,
    },
    /// Garbage-collect blobs unreferenced by any manifest.
    Prune,
    /// Report the environment, GPU, and configuration.
    Doctor {
        /// Check for a newer release (explicit, on-demand).
        check_update: bool,
    },
    /// Run the HTTP server in the foreground.
    Serve {
        /// The model to load on start; omit to load on first request.
        reference: Option<String>,
    },
    /// Read or write configuration.
    Config {
        /// The config action.
        action: ConfigAction,
    },
    /// Show resident models and pool occupancy.
    Ps,
    /// Benchmark a model, optionally writing calibration.
    Bench {
        /// The model reference.
        reference: String,
        /// Write a per-chip calibration store.
        calibrate: bool,
    },
    /// Quantize a model on device to the store.
    Convert {
        /// The model reference.
        reference: String,
        /// Target bit width.
        bits: u8,
    },
}

/// The parsed command line.
#[derive(Clone, PartialEq, Eq, Debug)]
pub struct Cli {
    /// Flags accepted on every command.
    pub globals: GlobalFlags,
    /// The subcommand to run.
    pub command: Command,
}

/// How output is rendered.
#[derive(Clone, Copy, PartialEq, Eq, Debug, Structural)]
pub enum OutputMode {
    /// Human-readable output (default).
    Human,
    /// A single JSON object on stdout (`--json`).
    Json,
    /// JSON Lines streaming events (`--stream-json`).
    StreamJson,
}

impl OutputMode {
    /// The output mode from the global flags: `--stream-json` wins over
    /// `--json`, which wins over the human default.
    pub fn from_flags(flags: &GlobalFlags) -> (r: OutputMode)
        ensures
            r == (if flags.stream_json {
                OutputMode::StreamJson
            } else if flags.json {
                OutputMode::Json
            } else {
                OutputMode::Human
            }),
    {
        if flags.stream_json {
            OutputMode::StreamJson
        } else if flags.json {
            OutputMode::Json
        } else {
            OutputMode::Human
        }
    }
}

/// Whether ANSI color is enabled: only when stdout is a terminal and
/// `NO_COLOR` is unset.
pub fn color_resolve(stdout_is_tty: bool, no_color_set: bool) -> (r: bool)
    ensures
        r == (stdout_is_tty && !no_color_set),
{
    stdout_is_tty && !no_color_set
}

/// The process exit code of a command result: 0 on success, else the code of
/// the error's category. Never 1.
pub fn exit_code(result: &Result<(), DkError>) -> (r: u8)
    ensures
        result is Ok ==> r == 0,
        result matches Err(e) ==> r == category_exit(code_category(e.code)),
        r != 1,
{
    match result {
        Ok(()) => 0,
        Err(err) => {
            proof {
                crate::error::mapping::lemma_exit_code_never_one(code_category(err.code));
            }
            err.exit_code()
        },
    }
}

/// The exit code for a caught panic: that of `internal.panic` (6).
pub fn panic_exit_code() -> (r: u8)
    ensures
        r == category_exit(code_category(ErrorCode::InternalPanic)),
        r == 6,
{
    ErrorCode::InternalPanic.exit_code()
}

/// What to do with a parsed command line.
#[derive(Clone, PartialEq, Eq, Debug)]
pub enum Dispatch {
    /// Run a `config` action.
    Config(ConfigAction),
    /// A command whose body is not in this build: name it on stderr unless
    /// `--quiet`, and succeed.
    NotImplemented {
        /// The command's name.
        name: &'static str,
        /// Whether to report it on stderr.
        announce: bool,
    },
}

/// The name of a command as typed.
pub open spec fn command_name(c: Command) -> Seq<char> {
    match c {
        Command::Run { .. } => "run"@,
        Command::Pull { .. } => "pull"@,
        Command::Fit { .. } => "fit"@,
        Command::Ls => "ls"@,
        Command::Rm { .. } => "rm"@,
        Command::Prune => "prune"@,
        Command::Doctor { .. } => "doctor"@,
        Command::Serve { .. } => "serve"@,
        Command::Config { .. } => "config"@,
        Command::Ps => "ps"@,
        Command::Bench { .. } => "bench"@,
        Command::Convert { .. } => "convert"@,
    }
}

/// The dispatch decision for a parsed command line: `config` runs its
/// action; every other command is reported as not yet implemented (on stderr,
/// unless `--quiet`).
pub fn dispatch(cli: &Cli) -> (r: Dispatch)
    ensures
        cli.command matches Command::Config { action } ==> r == Dispatch::Config(action),
        !(cli.command is Config) ==> (r matches Dispatch::NotImplemented { name, announce }
            && name@ == command_name(cli.command) && announce == !cli.globals.quiet),
{
    let name = match &cli.command {
        Command::Config { action } => {
            return Dispatch::Config(action.duplicate());
        },
        Command::Run { .. } => "run",
        Command::Pull { .. } => "pull",
        Command::Fit { .. } => "fit",
        Command::Ls => "ls",
        Command::Rm { .. } => "rm",
        Command::Prune => "prune",
        Command::Doctor { .. } => "doctor",
        Command::Serve { .. } => "serve",
        Command::Ps => "ps",
        Command::Bench { .. } => "bench",
        Command::Convert { .. } => "convert",
    };
    Dispatch::NotImplemented { name, announce: !cli.globals.quiet }
}

/// `base` joined with the relative component `part` the way a path join
/// does: no separator after an empty base or one that already ends in `/`.
pub open spec fn path_join(base: Seq<char>, part: Seq<char>) -> Seq<char> {
    if base.len() == 0 {
        part
    } else if base.last() == '/' {
        base + part
    } else {
        base + "/"@ + part
    }
}

/// Where `config.toml` lives: under a non-empty `XDG_CONFIG_HOME` at
/// `drakkar/config.toml`, else under `HOME` at `.config/drakkar/config.toml`
/// (relative to the working directory when `HOME` is unset).
pub open spec fn config_path_spec(xdg: Option<Seq<char>>, home: Option<Seq<char>>) -> Seq<char> {
    match xdg {
        Some(x) if x.len() > 0 => path_join(path_join(x, "drakkar"@), "config.toml"@),
        _ => path_join(
            path_join(
                path_join(
                    match home {
                        Some(h) => h,
                        None => Seq::empty(),
                    },
                    ".config"@,
                ),
                "drakkar"@,
            ),
            "config.toml"@,
        ),
    }
}

fn push_component(out: &mut String, part: &str)
    ensures
        final(out)@ == path_join(old(out)@, part@),
{
    let v = chars_of(out.as_str());
    if v.len() > 0 && v[v.len() - 1] != '/' {
        push_str(out, "/");
    }
    push_str(out, part);
}

/// The configuration file path from the `XDG_CONFIG_HOME` and `HOME` values.
pub fn config_path_from(xdg: Option<&str>, home: Option<&str>) -> (r: String)
    ensures
        r@ == config_path_spec(
            match xdg {
                Some(x) => Some(x@),
                None => None,
            },
            match home {
                Some(h) => Some(h@),
                None => None,
            },
        ),
{
    let mut out = String::new();
    match xdg {
        Some(x) if x.unicode_len() > 0 => {
            push_str(&mut out, x);
            push_component(&mut out, "drakkar");
            push_component(&mut out, "config.toml");
            return out;
        },
        _ => {},
    }
    match home {
        Some(h) => push_str(&mut out, h),
        None => {},
    }
    push_component(&mut out, ".config");
    push_component(&mut out, "drakkar");
    push_component(&mut out, "config.toml");
    out
}

} // verus!
