use rargo::auth::{credentials_path, saved_token, Credentials, CredentialsTable};
use rargo::client::command_request;
use rargo::commands::{
    after_build, broker_plan, dispatch_abrasive_command, exit_code_byte, extract_post_dash,
    is_abrasive_command, is_on_broker_whitelist, is_run, login, poll_step, route_command,
    temp_executable_name, Bin, BrokerPlan, BuildAction, BuildOutcome, Command, PollStep, Route,
    RETRY_DELAY_SECS,
};
use rargo::crep::{Abi, Arch, EnvironmentVariable, Os, PlatformTriple};
use rargo::errors::CliError;
use rargo::workspace::{
    relative_subdir, rargoConfig, rargoContext, subdir_from, workspace_toml_path,
    Manifest, MetadataSection, WorkspaceSection,
};

fn args(a: &[&str]) -> Vec<String> {
    a.iter().map(|s| s.to_string()).collect()
}

fn config() -> rargoConfig {
    rargoConfig {
        host: "157.180.55.180".to_string(),
        team: "public".to_string(),
        scope: "rargo".to_string(),
    }
}

fn manifest_with_config() -> Manifest {
    Manifest {
        workspace: Some(WorkspaceSection { metadata: Some(MetadataSection { rargo: Some(config()) }) }),
    }
}

// ---- errors ----

#[test]
fn error_messages() {
    let cases: Vec<(CliError, &str)> = vec![
        (CliError::Connect, "Failed to connect to the broker."),
        (CliError::Io, "Broker IO Error."),
        (CliError::Protocol, "Invalid response from broker."),
        (CliError::Disconnected, "Broker closed connection before action finished"),
        (CliError::InvalidPath("x/y".to_string()), "invalid path: x/y"),
        (CliError::NoToml, "Cannot read rargo.toml"),
        (CliError::InvalidToml("bad key".to_string()), "invalid toml: bad key"),
        (CliError::NoCwd, "Cannot determine current directory."),
        (CliError::CargoNotFound, "Cargo not found"),
        (CliError::NoSavedToken, "Not logged in, run `rargo auth` first"),
        (CliError::NoHome, "No HOME or USERPROFILE set"),
        (CliError::WriteToken, "Could not write credentials file"),
        (CliError::ReadStdin, "Failed to read token from stdin"),
        (CliError::EmptyToken, "No token was entered"),
        (CliError::InvalidToken, "Token must start with `rargo_`"),
        (CliError::NoMetaData, "The workspace manifest has no [workspace.metadata.rargo] table"),
        (CliError::WriteFail, "Write fail"),
    ];
    for (e, msg) in cases {
        assert_eq!(e.message(), msg);
    }
}

#[test]
fn error_exit_codes() {
    assert_eq!(CliError::CargoNotFound.exit_code(), 127);
    assert_eq!(CliError::Connect.exit_code(), 1);
    assert_eq!(CliError::InvalidPath(String::new()).exit_code(), 1);
    assert_eq!(CliError::WriteFail.exit_code(), 1);
    assert_eq!(CliError::NoMetaData.exit_code(), 1);
}

// ---- workspace ----

#[test]
fn relative_subdir_doc_example() {
    assert_eq!(relative_subdir("a/b", "a/b/c/d"), Ok("c/d".to_string()));
}

#[test]
fn relative_subdir_of_the_root_is_empty() {
    assert_eq!(relative_subdir("/home/u/ws", "/home/u/ws"), Ok(String::new()));
}

#[test]
fn relative_subdir_matches_whole_components() {
    assert_eq!(
        relative_subdir("/home/u/ws", "/home/u/wsx/c"),
        Err(CliError::InvalidPath("/home/u/wsx/c".to_string()))
    );
    assert_eq!(
        relative_subdir("/home/u/ws", "/tmp"),
        Err(CliError::InvalidPath("/tmp".to_string()))
    );
}

#[test]
fn subdir_from_stripped_result() {
    assert_eq!(subdir_from(Some("c".to_string()), "/r/c"), Ok("c".to_string()));
    assert_eq!(subdir_from(None, "/r/c"), Err(CliError::InvalidPath("/r/c".to_string())));
}

#[test]
fn context_from_paths() {
    let ctx = rargoContext::from_paths("/ws/Cargo.toml", "/ws/crates/cli", Ok(manifest_with_config()))
        .unwrap();
    assert_eq!(ctx.subdir, "crates/cli");
    assert_eq!(ctx.rargo_config, config());
    assert!(ctx.environment_variables.is_empty());
}

#[test]
fn context_from_paths_errors_in_order() {
    // The subdirectory is checked before the manifest.
    assert_eq!(
        rargoContext::from_paths("/ws/Cargo.toml", "/elsewhere", Err(CliError::NoToml)).unwrap_err(),
        CliError::InvalidPath("/elsewhere".to_string())
    );
    assert_eq!(
        rargoContext::from_paths("/ws/Cargo.toml", "/ws", Err(CliError::NoToml)).unwrap_err(),
        CliError::NoToml
    );
    assert_eq!(
        rargoContext::from_paths("/ws/Cargo.toml", "/ws", Err(CliError::InvalidToml("e".to_string())))
            .unwrap_err(),
        CliError::InvalidToml("e".to_string())
    );
    assert_eq!(
        rargoContext::from_paths("/ws/Cargo.toml", "/ws", Ok(Manifest { workspace: None })).unwrap_err(),
        CliError::NoMetaData
    );
    assert_eq!(
        rargoContext::from_paths(
            "/ws/Cargo.toml",
            "/ws",
            Ok(Manifest { workspace: Some(WorkspaceSection { metadata: None }) })
        )
        .unwrap_err(),
        CliError::NoMetaData
    );
}

#[test]
fn metadata_without_rargo_table_is_no_metadata() {
    let m = Manifest { workspace: Some(WorkspaceSection { metadata: Some(MetadataSection { rargo: None }) }) };
    assert_eq!(rargoContext::from_paths("/ws/Cargo.toml", "/ws", Ok(m)).unwrap_err(), CliError::NoMetaData);
}

#[test]
fn context_at_the_workspace_root_has_empty_subdir() {
    let ctx = rargoContext::from_paths("/ws/Cargo.toml", "/ws", Ok(manifest_with_config())).unwrap();
    assert_eq!(ctx.subdir, "");
}

#[test]
fn context_from_paths_needs_a_parent() {
    assert!(rargoContext::try_from_paths("/", "/", Ok(manifest_with_config())).is_none());
    assert!(rargoContext::try_from_paths("", "", Ok(manifest_with_config())).is_none());
    let ctx = rargoContext::try_from_paths("Cargo.toml", "sub", Ok(manifest_with_config()))
        .unwrap()
        .unwrap();
    assert_eq!(ctx.subdir, "sub");
}

#[test]
fn workspace_toml_path_from_cargo_output() {
    assert_eq!(workspace_toml_path(false, b"/ws/Cargo.toml\n".to_vec()), None);
    assert_eq!(
        workspace_toml_path(true, b"/ws/Cargo.toml \r\n\t\x0c".to_vec()),
        Some(b"/ws/Cargo.toml".to_vec())
    );
    assert_eq!(workspace_toml_path(true, b"/a b/Cargo.toml".to_vec()), Some(b"/a b/Cargo.toml".to_vec()));
    // A vertical tab is not ASCII whitespace for `u8::is_ascii_whitespace`.
    assert_eq!(workspace_toml_path(true, b"p\x0b".to_vec()), Some(b"p\x0b".to_vec()));
    assert_eq!(workspace_toml_path(true, b"  \n".to_vec()), Some(Vec::new()));
}

// ---- commands ----

#[test]
fn abrasive_commands() {
    for a in ["setup", "auth", "--version", "-V", "--help", "-h", "splash", "-s"] {
        assert!(is_abrasive_command(Some(a)), "{a}");
    }
    assert!(is_abrasive_command(None));
    for a in ["build", "tip", "-t", "Setup", ""] {
        assert!(!is_abrasive_command(Some(a)), "{a}");
    }
}

#[test]
fn broker_whitelist() {
    for c in ["build", "run", "test", "bench", "check", "clippy", "doc", "nop", "clean", "install"] {
        assert!(is_on_broker_whitelist(&args(&[c, "--release"])), "{c}");
    }
    assert!(!is_on_broker_whitelist(&args(&[])));
    assert!(!is_on_broker_whitelist(&args(&["fmt", "build"])));
    assert!(!is_on_broker_whitelist(&args(&["--release", "build"])));
}

#[test]
fn post_dash_arguments() {
    assert_eq!(extract_post_dash(&args(&["run", "--", "a", "--", "b"])), args(&["a", "--", "b"]));
    assert_eq!(extract_post_dash(&args(&["run", "--release"])), args(&[]));
    assert_eq!(extract_post_dash(&args(&["run", "--"])), args(&[]));
    assert_eq!(extract_post_dash(&args(&[])), args(&[]));
}

#[test]
fn run_command() {
    assert!(is_run(&args(&["run", "--bin", "x"])));
    assert!(!is_run(&args(&["build", "run"])));
    assert!(!is_run(&args(&[])));
}

#[test]
fn dispatch() {
    assert_eq!(dispatch_abrasive_command(None), Command::Help);
    for c in [Command::Setup, Command::Auth, Command::Version, Command::Help, Command::Splash] {
        assert_eq!(dispatch_abrasive_command(Some(c)), c);
    }
}

#[test]
fn routes() {
    assert_eq!(route_command(None, true, false), Route::Abrasive);
    assert_eq!(route_command(Some("auth"), true, true), Route::Abrasive);
    assert_eq!(route_command(Some("build"), false, false), Route::LocalCargo);
    assert_eq!(route_command(Some("build"), true, false), Route::Broker);
    assert_eq!(route_command(Some("splash"), false, true), Route::Abrasive);
    assert_eq!(route_command(Some("-s"), true, true), Route::Abrasive);
    assert_eq!(route_command(Some("tip"), false, false), Route::LocalCargo);
}

#[test]
fn broker_plans() {
    assert_eq!(broker_plan(&args(&["fmt"])), BrokerPlan::Local);
    assert_eq!(broker_plan(&args(&[])), BrokerPlan::Local);
    assert_eq!(
        broker_plan(&args(&["run", "--", "x"])),
        BrokerPlan::Remote { post_dash: args(&["x"]), run: true }
    );
    assert_eq!(broker_plan(&args(&["test"])), BrokerPlan::Remote { post_dash: args(&[]), run: false });
}

fn bin() -> Bin {
    Bin { name: "hello".to_string(), contents: vec![0x7f, b'E', b'L', b'F'] }
}

#[test]
fn after_build_actions() {
    assert_eq!(after_build(true, 101, Some(bin())), BuildAction::Exit(101));
    assert_eq!(after_build(true, 0, Some(bin())), BuildAction::RunBin(bin()));
    assert_eq!(after_build(false, 0, Some(bin())), BuildAction::Exit(0));
    assert_eq!(after_build(true, 0, None), BuildAction::Exit(0));
}

#[test]
fn poll_steps() {
    assert_eq!(RETRY_DELAY_SECS, 2);
    match poll_step(BuildOutcome::SlotsBusy) {
        PollStep::Retry => {}
        other => panic!("{other:?}"),
    }
    match poll_step(BuildOutcome::Done(3, Some(bin()))) {
        PollStep::Finished(3, Some(b)) => assert_eq!(b, bin()),
        other => panic!("{other:?}"),
    }
}

#[test]
fn temp_name_and_exit_bytes() {
    assert_eq!(temp_executable_name("hello"), "abrasive-run-hello");
    assert_eq!(exit_code_byte(Some(0)), 0);
    assert_eq!(exit_code_byte(Some(101)), 101);
    assert_eq!(exit_code_byte(Some(256 + 7)), 7);
    assert_eq!(exit_code_byte(Some(-1)), 255);
    assert_eq!(exit_code_byte(None), 1);
}

#[test]
fn login_tokens() {
    assert_eq!(login("rargo_abc123\n"), Ok("rargo_abc123".to_string()));
    assert_eq!(login("  \trargo_x \u{3000}"), Ok("rargo_x".to_string()));
    assert_eq!(login("rargo_"), Ok("rargo_".to_string()));
    assert_eq!(login(""), Err(CliError::EmptyToken));
    assert_eq!(login(" \n\t"), Err(CliError::EmptyToken));
    assert_eq!(login("abc"), Err(CliError::InvalidToken));
    assert_eq!(login("rargo"), Err(CliError::InvalidToken));
    assert_eq!(login("Rargo_abc"), Err(CliError::InvalidToken));
    assert_eq!(login("x rargo_abc"), Err(CliError::InvalidToken));
}

#[test]
fn login_accepts_its_own_token_again() {
    let t = login(" rargo_tok \n").unwrap();
    assert_eq!(login(&t), Ok(t.clone()));
}

// ---- auth ----

#[test]
fn saved_tokens() {
    let with = |token: Option<&str>| {
        Some(Credentials { abrasive: Some(CredentialsTable { token: token.map(|t| t.to_string()) }) })
    };
    assert_eq!(saved_token(with(Some("rargo_t"))), Some("rargo_t".to_string()));
    assert_eq!(saved_token(with(None)), None);
    assert_eq!(saved_token(Some(Credentials { abrasive: None })), None);
    assert_eq!(saved_token(None), None);
}

#[test]
fn credentials_paths() {
    assert_eq!(
        credentials_path(Some("/home/u".to_string()), Some("C:/Users/u".to_string())),
        Some("/home/u/.abrasive/credentials.toml".to_string())
    );
    assert_eq!(
        credentials_path(None, Some("/profile".to_string())),
        Some("/profile/.abrasive/credentials.toml".to_string())
    );
    assert_eq!(credentials_path(None, None), None);
}

// ---- client ----

#[test]
fn command_request_carries_the_context() {
    let ctx = rargoContext {
        subdir: "crates/crep".to_string(),
        rargo_config: config(),
        environment_variables: vec![
            EnvironmentVariable { name: "RUST_LOG".to_string(), value: "debug".to_string() },
            EnvironmentVariable { name: "CARGO_TERM_COLOR".to_string(), value: "always".to_string() },
        ],
    };
    let host = PlatformTriple { arch: Arch::X86_64, os: Os::Linux, abi: Abi::Gnu };
    let cmd = command_request(&ctx, args(&["build", "--lib", "-p", "crep"]), host);
    assert_eq!(cmd.args(), &args(&["build", "--lib", "-p", "crep"]));
    assert_eq!(cmd.host_platform(), host);
    assert_eq!(cmd.working_directory(), "crates/crep");
    let names: Vec<&str> = cmd.environment_variables().iter().map(|e| e.name.as_str()).collect();
    assert_eq!(names, vec!["CARGO_TERM_COLOR", "RUST_LOG"]);
    // The context itself is left as it was.
    assert_eq!(ctx.environment_variables[0].name, "RUST_LOG");
}

#[test]
fn request_runs_where_rargo_was_called() {
    let ctx = rargoContext::from_paths("/ws/Cargo.toml", "/ws/crates/crep", Ok(manifest_with_config()))
        .unwrap();
    let host = PlatformTriple { arch: Arch::Aarch64, os: Os::Mac, abi: Abi::Gnu };
    let cmd = command_request(&ctx, args(&["test"]), host);
    assert_eq!(cmd.working_directory(), "crates/crep");
    assert!(cmd.environment_variables().is_empty());
    assert_eq!(cmd.args(), &args(&["test"]));
}
