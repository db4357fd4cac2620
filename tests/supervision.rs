use tendermint_node::command::{init_args, reset_args, rollback_args, start_args, TendermintMode, ValidatorState};
use tendermint_node::error::Error;
use tendermint_node::supervisor::{decide, from_env_or_default, log_stdout_enabled, EnvValue, RaceOutcome};

#[test]
fn child_success_returns_ok() {
    let d = decide(RaceOutcome::ChildExited { success: true, status: "exit status: 0".to_string() });
    assert!(d.result.is_ok());
    assert!(!d.kill_child);
    assert!(!d.send_reply);
}

#[test]
fn child_failure_returns_runtime_error() {
    let d = decide(RaceOutcome::ChildExited { success: false, status: "exit status: 1".to_string() });
    assert!(matches!(d.result, Err(Error::Runtime(ref s)) if s == "exit status: 1"));
    assert!(!d.kill_child);
    let w = decide(RaceOutcome::WaitFailed("broken".to_string()));
    assert!(matches!(w.result, Err(Error::Runtime(ref s)) if s == "broken"));
}

#[test]
fn abort_kills_and_replies_once() {
    let d = decide(RaceOutcome::AbortRequested);
    assert!(d.kill_child);
    assert!(d.send_reply);
    assert!(d.result.is_ok());
}

#[test]
fn dropped_sender_kills_without_reply() {
    let d = decide(RaceOutcome::AbortSenderDropped);
    assert!(d.kill_child);
    assert!(!d.send_reply);
    assert!(d.result.is_ok());
}

#[test]
fn engine_binary_location() {
    assert!(matches!(from_env_or_default(EnvValue::NotPresent), Ok(ref s) if s == "cometbft"));
    assert!(matches!(from_env_or_default(EnvValue::Present("/opt/cmt".to_string())), Ok(ref s) if s == "/opt/cmt"));
    assert!(matches!(
        from_env_or_default(EnvValue::NotUnicode("\u{fffd}x".to_string())),
        Err(Error::TendermintPath(ref s)) if s == "\u{fffd}x"
    ));
}

#[test]
fn stdout_toggle_values() {
    assert!(!log_stdout_enabled(None));
    assert!(log_stdout_enabled(Some("true")));
    assert!(log_stdout_enabled(Some("  TrUe\n")));
    assert!(log_stdout_enabled(Some("\u{3000}TRUE\t")));
    assert!(!log_stdout_enabled(Some("false")));
    assert!(!log_stdout_enabled(Some("t rue")));
    assert!(!log_stdout_enabled(Some("")));
    assert!(!log_stdout_enabled(Some("truee")));
}

#[test]
fn command_lines() {
    assert_eq!(init_args(TendermintMode::Validator, "/h"), vec!["init", "validator", "--home", "/h"]);
    assert_eq!(init_args(TendermintMode::Full, "/h")[1], "full");
    assert_eq!(TendermintMode::Seed.to_str(), "seed");
    assert_eq!(
        start_args("tcp://127.0.0.1:26658", "/h"),
        vec!["start", "--proxy_app", "tcp://127.0.0.1:26658", "--home", "/h"]
    );
    assert_eq!(reset_args("/h"), vec!["reset-state", "unsafe-all", "--home", "/h"]);
    assert_eq!(rollback_args("/h"), vec!["rollback", "unsafe-all", "--home", "/h"]);
}

#[test]
fn initial_validator_state() {
    let s = ValidatorState::initial();
    assert_eq!((s.height, s.round, s.step), (0, 0, 0));
}

use tendermint_node::error::GenesisError;
use tendermint_node::supervisor::{Command, Event, Phase, Supervisor};

#[test]
fn startup_runs_in_order() {
    let mut s = Supervisor::new();
    assert_eq!(s.phase, Phase::Initializing);
    assert!(matches!(s.on_event(Event::InitFinished(Ok(true))), Command::PatchGenesis));
    assert!(matches!(s.on_event(Event::GenesisPatched(Ok(()))), Command::PatchConfig));
    assert!(matches!(s.on_event(Event::ConfigPatched(Ok(()))), Command::Spawn));
    assert!(!s.accepts(&Event::RaceEnded(RaceOutcome::AbortRequested)));
    assert!(matches!(s.on_event(Event::Spawned(Ok(()))), Command::AwaitRace));
    assert_eq!(s.phase, Phase::Running);
    match s.on_event(Event::RaceEnded(RaceOutcome::AbortRequested)) {
        Command::Finish(d) => assert!(d.kill_child && d.send_reply && d.result.is_ok()),
        other => panic!("unexpected {:?}", other),
    }
    assert_eq!(s.phase, Phase::Stopped);
}

#[test]
fn startup_stops_at_first_failure() {
    let mut s = Supervisor::new();
    match s.on_event(Event::InitFinished(Ok(false))) {
        Command::Finish(d) => assert!(!d.kill_child && matches!(d.result, Err(Error::Init(_)))),
        other => panic!("unexpected {:?}", other),
    }
    let mut s = Supervisor::new();
    match s.on_event(Event::InitFinished(Err("not found".to_string()))) {
        Command::Finish(d) => assert!(matches!(d.result, Err(Error::Init(ref m)) if m == "not found")),
        other => panic!("unexpected {:?}", other),
    }
    let mut s = Supervisor::new();
    s.on_event(Event::InitFinished(Ok(true)));
    match s.on_event(Event::GenesisPatched(Err(Error::Genesis(GenesisError::InvalidChainId)))) {
        Command::Finish(d) => assert!(matches!(d.result, Err(Error::Genesis(GenesisError::InvalidChainId)))),
        other => panic!("unexpected {:?}", other),
    }
    assert_eq!(s.phase, Phase::Stopped);
    let mut s = Supervisor::new();
    s.on_event(Event::InitFinished(Ok(true)));
    s.on_event(Event::GenesisPatched(Ok(())));
    s.on_event(Event::ConfigPatched(Ok(())));
    match s.on_event(Event::Spawned(Err("no such file".to_string()))) {
        Command::Finish(d) => assert!(matches!(d.result, Err(Error::StartUp(ref m)) if m == "no such file")),
        other => panic!("unexpected {:?}", other),
    }
}

#[test]
fn running_child_failure_is_reported() {
    let mut s = Supervisor::new();
    s.on_event(Event::InitFinished(Ok(true)));
    s.on_event(Event::GenesisPatched(Ok(())));
    s.on_event(Event::ConfigPatched(Ok(())));
    s.on_event(Event::Spawned(Ok(())));
    match s.on_event(Event::RaceEnded(RaceOutcome::ChildExited { success: false, status: "signal: 9".to_string() })) {
        Command::Finish(d) => {
            assert!(!d.kill_child && !d.send_reply);
            assert!(matches!(d.result, Err(Error::Runtime(ref m)) if m == "signal: 9"));
        }
        other => panic!("unexpected {:?}", other),
    }
}
