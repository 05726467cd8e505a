use upgrade_dryrun::error::PipelineError;
use upgrade_dryrun::identity::Identity;
use upgrade_dryrun::pipeline::{entry_point, Action, Event, ExecutionMode, Phase, Pipeline};
use upgrade_dryrun::source::{OnRuntimeUpgradeCmd, State};

fn ident(name: &str, version: u32) -> Identity {
    Identity { name: String::from(name), version, raw: Vec::new() }
}

fn base() -> Vec<(Vec<u8>, Vec<u8>)> {
    vec![(b"alpha".to_vec(), b"one".to_vec()), (b"beta".to_vec(), b"two".to_vec())]
}

fn injected() -> Vec<(Vec<u8>, Vec<u8>)> {
    vec![(b":code".to_vec(), b"payload".to_vec())]
}

fn encode(consumed: (u64, u64), total: (u64, u64)) -> Vec<u8> {
    let mut raw = Vec::new();
    raw.extend_from_slice(&consumed.0.to_le_bytes());
    raw.extend_from_slice(&consumed.1.to_le_bytes());
    raw.extend_from_slice(&total.0.to_le_bytes());
    raw.extend_from_slice(&total.1.to_le_bytes());
    raw
}

#[test]
fn snapshot_source_skips_identity_check() {
    let p = Pipeline::new(
        State::Snap { path: String::from("state.dump") },
        injected(),
        true,
        1,
        ExecutionMode::Wasm,
    );
    let (p, a) = p.step(Event::Start);
    assert!(matches!(a, Action::FetchBase { state_version: 1 }));
    let (p, a) = p.step(Event::BaseReady { pairs: base() });
    // straight to invocation: the check is never requested
    assert!(matches!(a, Action::Invoke { warn_mismatch: false, mode: ExecutionMode::Wasm }));
    assert_eq!(p.phase, Phase::AwaitInvoke);
}

#[test]
fn live_strict_mismatch_aborts_before_invoke() {
    let p = Pipeline::new(
        State::Live { uri: String::from("ws://localhost:9944"), at: None },
        injected(),
        true,
        1,
        ExecutionMode::Wasm,
    );
    let mut invokes = 0;
    let (p, a) = p.step(Event::Start);
    if matches!(a, Action::Invoke { .. }) {
        invokes += 1;
    }
    let (p, a) = p.step(Event::BaseReady { pairs: base() });
    if matches!(a, Action::Invoke { .. }) {
        invokes += 1;
    }
    assert!(matches!(a, Action::QueryIdentity));
    let (p, a) = p.step(Event::IdentityReady {
        expected: ident("demo", 5),
        actual: ident("demo", 6),
    });
    if matches!(a, Action::Invoke { .. }) {
        invokes += 1;
    }
    assert!(matches!(a, Action::Halt { error: PipelineError::Consistency }));
    assert_eq!(p.phase, Phase::Failed);
    assert_eq!(p.error, Some(PipelineError::Consistency));
    // the entry-point invoker was never called
    assert_eq!(invokes, 0);
}

#[test]
fn live_lenient_mismatch_warns_and_proceeds() {
    let p = Pipeline::new(
        State::Live { uri: String::from("ws://localhost:9944"), at: None },
        injected(),
        false,
        1,
        ExecutionMode::Native,
    );
    let (p, _) = p.step(Event::Start);
    let (p, _) = p.step(Event::BaseReady { pairs: base() });
    let (p, a) = p.step(Event::IdentityReady {
        expected: ident("demo", 5),
        actual: ident("demo", 6),
    });
    assert!(matches!(a, Action::Invoke { warn_mismatch: true, mode: ExecutionMode::Native }));
    assert_eq!(p.phase, Phase::AwaitInvoke);
}

#[test]
fn live_matching_identities_run_to_report() {
    let p = Pipeline::new(
        State::Live { uri: String::from("ws://localhost:9944"), at: Some(String::from("0xabc")) },
        injected(),
        true,
        1,
        ExecutionMode::Wasm,
    );
    let (p, _) = p.step(Event::Start);
    let (p, a) = p.step(Event::BaseReady { pairs: base() });
    assert!(matches!(a, Action::QueryIdentity));
    let (p, a) = p.step(Event::IdentityReady {
        expected: ident("demo", 5),
        actual: ident("demo", 5),
    });
    assert!(matches!(a, Action::Invoke { warn_mismatch: false, .. }));
    let (p, a) = p.step(Event::InvokeDone { raw: encode((100, 50), (1000, 1000)) });
    assert_eq!(p.phase, Phase::Done);
    match a {
        Action::Report { report } => {
            assert_eq!(report.consumed.computation, 100);
            assert_eq!(report.consumed.footprint, 50);
            assert_eq!(report.ratio_computation, 1000);
            assert_eq!(report.ratio_footprint, 500);
        },
        other => panic!("expected a report, got {:?}", other),
    }
}

#[test]
fn overlay_holds_injected_code_after_base_ready() {
    let p = Pipeline::new(
        State::Snap { path: String::from("state.dump") },
        injected(),
        true,
        1,
        ExecutionMode::Both,
    );
    let (p, _) = p.step(Event::Start);
    let (p, _) = p.step(Event::BaseReady { pairs: base() });
    let overlay = p.overlay.as_ref().unwrap();
    assert_eq!(overlay.get(&b":code".to_vec()), Some(&b"payload".to_vec()));
    assert_eq!(overlay.get(&b"alpha".to_vec()), Some(&b"one".to_vec()));
    assert_eq!(overlay.len(), 3);
}

#[test]
fn fetch_failure_halts_the_run() {
    let p = Pipeline::new(
        State::Live { uri: String::from("ws://localhost:9944"), at: None },
        injected(),
        true,
        1,
        ExecutionMode::Wasm,
    );
    let (p, _) = p.step(Event::Start);
    let (p, a) = p.step(Event::BaseFailed { error: PipelineError::Fetch });
    assert!(matches!(a, Action::Halt { error: PipelineError::Fetch }));
    assert_eq!(p.phase, Phase::Failed);
    assert_eq!(p.error, Some(PipelineError::Fetch));
}

#[test]
fn malformed_invoke_result_is_a_decode_error() {
    let p = Pipeline::new(
        State::Snap { path: String::from("state.dump") },
        injected(),
        true,
        1,
        ExecutionMode::Wasm,
    );
    let (p, _) = p.step(Event::Start);
    let (p, _) = p.step(Event::BaseReady { pairs: base() });
    let (p, a) = p.step(Event::InvokeDone { raw: vec![1, 2, 3] });
    assert!(matches!(a, Action::Halt { error: PipelineError::Decode }));
    assert_eq!(p.phase, Phase::Failed);
    assert_eq!(p.error, Some(PipelineError::Decode));
}

#[test]
fn execution_failure_halts_the_run() {
    let p = Pipeline::new(
        State::Snap { path: String::from("state.dump") },
        injected(),
        true,
        1,
        ExecutionMode::NativeElseWasm,
    );
    let (p, _) = p.step(Event::Start);
    let (p, _) = p.step(Event::BaseReady { pairs: base() });
    let (p, a) = p.step(Event::InvokeFailed { error: PipelineError::Execution });
    assert!(matches!(a, Action::Halt { error: PipelineError::Execution }));
    assert_eq!(p.phase, Phase::Failed);
}

#[test]
fn entry_point_name_is_fixed() {
    assert_eq!(entry_point(), "TryRuntime_on_runtime_upgrade");
}

#[test]
fn command_carries_the_chosen_state() {
    let cmd = OnRuntimeUpgradeCmd { state: State::Snap { path: String::from("state.dump") } };
    assert_eq!(cmd.state.live_uri(), None);
    let p = Pipeline::new(cmd.state, injected(), true, 1, ExecutionMode::Wasm);
    let (_, a) = p.step(Event::Start);
    assert!(matches!(a, Action::FetchBase { state_version: 1 }));
}

#[test]
fn live_uri_is_present_only_for_live_sources() {
    let live = State::Live { uri: String::from("ws://localhost:9944"), at: None };
    assert_eq!(live.live_uri(), Some(&String::from("ws://localhost:9944")));
    let snap = State::Snap { path: String::from("state.dump") };
    assert_eq!(snap.live_uri(), None);
}
