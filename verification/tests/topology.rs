//! Driving the single-tier topology session as the process driver would.

use launcher::{
    ChildStdio, CoreSet, EnvReport, LaunchError, LaunchOutcome, Launcher, Phase, Role,
    SpawnStrategy, StatePersistence, StreamTargets,
};

fn cores(ids: &[usize]) -> CoreSet {
    CoreSet::from_ids(&ids.to_vec())
}

fn plain_env() -> EnvReport {
    EnvReport { debug_output: false, client_marker: None }
}

#[test]
fn core_set_sorts_and_deduplicates() {
    let cs = cores(&[3, 1, 3, 2, 1]);
    assert_eq!(cs.len(), 3);
    assert_eq!(cs.get(0), 1);
    assert_eq!(cs.get(1), 2);
    assert_eq!(cs.get(2), 3);
    assert!(!cs.is_empty());
    assert!(cores(&[]).is_empty());
}

#[test]
fn launcher_defaults() {
    let l: Launcher<i32> = Launcher::new(cores(&[0]), Some(1));
    assert_eq!(l.broker_port, 1337);
    assert_eq!(l.launch_delay, 10);
    assert!(l.spawn_broker);
    assert!(l.stdout_file.is_none());
    assert!(l.stderr_file.is_none());
    assert!(l.remote_broker_addr.is_none());
    assert_eq!(l.serialize_state, StatePersistence::OnRestart);
    // The configuration can be printed for operator diagnostics.
    assert!(format!("{l:?}").contains("broker_port"));
}

#[test]
fn empty_core_set_fails_before_any_process() {
    let mut l: Launcher<i32> = Launcher::new(cores(&[]), Some(1));
    match l.launch(SpawnStrategy::NativeDuplication, plain_env()) {
        Err(e) => assert_eq!(e, LaunchError::EmptyCoreSet),
        Ok(_) => panic!("an empty core set must not launch"),
    }
    // The configuration is untouched: the callback was not consumed.
    assert!(l.run_client.is_some());
}

#[test]
fn missing_callback_fails_before_any_process() {
    let mut l: Launcher<i32> = Launcher::new(cores(&[0, 1]), None);
    match l.launch(SpawnStrategy::NativeDuplication, plain_env()) {
        Err(e) => assert_eq!(e, LaunchError::MissingClientCallback),
        Ok(_) => panic!("a launch without a callback must fail"),
    }
    assert_eq!(
        l.launch(SpawnStrategy::ReExec, plain_env()).err(),
        Some(LaunchError::MissingClientCallback)
    );
}

#[test]
fn error_messages_name_the_cause() {
    assert_eq!(
        LaunchError::EmptyCoreSet.message(),
        "no cores to spawn on given, cannot launch anything"
    );
    assert_eq!(LaunchError::MissingClientCallback.message(), "no client callback provided");
    assert_eq!(
        LaunchError::MalformedEnvMarker.message(),
        "environment marker present but not a valid core index"
    );
}

#[test]
fn broker_run_spawns_all_then_signals_each_handle_once() {
    let mut l: Launcher<&'static str> = Launcher::new(cores(&[0, 1, 2]), Some("cb"));
    let mut s = match l.launch(SpawnStrategy::NativeDuplication, plain_env()) {
        Ok(LaunchOutcome::Parent(s)) => s,
        _ => panic!("expected a parent session"),
    };
    assert!(l.run_client.is_none());
    assert_eq!(s.phase, Phase::Spawning);

    let mut handles = Vec::new();
    for k in 0..3u64 {
        let st = s.spawn_step();
        assert_eq!(st.core, k as usize);
        assert_eq!(st.stagger_index, k as usize + 1);
        assert_eq!(st.delay_ms, (k + 1) * 10);
        assert!(st.marker_value.is_none());
        let handle = 100 + k;
        s.record_spawned(handle);
        handles.push(handle);
    }
    assert_eq!(s.spawned, 3);
    assert_eq!(s.phase, Phase::Brokering);

    let b = s.broker_step();
    assert_eq!(b.endpoint.role, Role::Broker);
    assert_eq!(b.endpoint.port, 1337);
    assert_eq!(b.endpoint.exit_after_clients, Some(3));
    assert!(b.endpoint.remote_broker_addr.is_none());

    s.broker_finished();
    assert_eq!(s.phase, Phase::Signaling);

    let mut signaled = Vec::new();
    while !s.is_done() {
        signaled.push(s.signal_step());
        s.record_signaled();
    }
    assert_eq!(signaled, handles);
    assert_eq!(s.signaled, 3);
    assert_eq!(s.phase, Phase::Done);
}

#[test]
fn opted_out_broker_waits_for_every_handle() {
    let mut l: Launcher<u8> = Launcher::new(cores(&[4, 9]), Some(0));
    l.spawn_broker = false;
    let mut s = match l.launch(SpawnStrategy::NativeDuplication, plain_env()) {
        Ok(LaunchOutcome::Parent(s)) => s,
        _ => panic!("expected a parent session"),
    };
    let st = s.spawn_step();
    assert_eq!(st.core, 4);
    s.record_spawned(11);
    let st = s.spawn_step();
    assert_eq!(st.core, 9);
    s.record_spawned(12);
    assert_eq!(s.phase, Phase::Waiting);

    assert_eq!(s.wait_step(), 11);
    // A non-zero exit status is reported, not fatal: the session advances.
    assert!(s.record_waited(7));
    assert_eq!(s.wait_step(), 12);
    assert!(!s.record_waited(0));
    assert_eq!(s.phase, Phase::Done);
    assert_eq!(s.waited, 2);
}

#[test]
fn duplicated_child_becomes_the_worker_for_the_current_core() {
    let mut l: Launcher<&'static str> = Launcher::new(cores(&[2, 5]), Some("the-callback"));
    let mut s = match l.launch(SpawnStrategy::NativeDuplication, plain_env()) {
        Ok(LaunchOutcome::Parent(s)) => s,
        _ => panic!("expected a parent session"),
    };
    s.record_spawned(31);
    // In the duplicated process, the second spawn resolves into the worker.
    let w = s.into_worker();
    assert_eq!(w.core, 5);
    assert_eq!(w.stagger_index, 2);
    assert_eq!(w.delay_ms, 20);
    assert_eq!(w.callback, "the-callback");
    assert_eq!(w.endpoint.role, Role::Client { core: 5 });
    assert_eq!(w.endpoint.port, 1337);
    assert!(w.endpoint.exit_after_clients.is_none());
    assert!(matches!(w.redirect, StreamTargets::Untouched));
}

#[test]
fn worker_redirection_follows_the_configured_files() {
    let mut l: Launcher<u8> = Launcher::new(cores(&[0]), Some(0));
    l.stdout_file = Some("all-output.log".to_string());
    let s = match l.launch(SpawnStrategy::NativeDuplication, plain_env()) {
        Ok(LaunchOutcome::Parent(s)) => s,
        _ => panic!("expected a parent session"),
    };
    let w = s.into_worker();
    match w.redirect {
        StreamTargets::Files { stdout_path, stderr_path } => {
            assert_eq!(stdout_path, "all-output.log");
            assert_eq!(stderr_path, "all-output.log");
        },
        StreamTargets::Untouched => panic!("a configured file must be applied"),
    }
}

#[test]
fn debug_override_disables_worker_redirection() {
    let mut l: Launcher<u8> = Launcher::new(cores(&[0]), Some(0));
    l.stdout_file = Some("all-output.log".to_string());
    l.stderr_file = Some("errors.log".to_string());
    let env = EnvReport { debug_output: true, client_marker: None };
    let s = match l.launch(SpawnStrategy::NativeDuplication, env) {
        Ok(LaunchOutcome::Parent(s)) => s,
        _ => panic!("expected a parent session"),
    };
    let w = s.into_worker();
    assert!(matches!(w.redirect, StreamTargets::Untouched));
}

#[test]
fn hooks_reach_broker_and_worker() {
    let mut l: Launcher<u8> = Launcher::new(cores(&[0, 1]), Some(9));
    let mut s = match l.launch_with_hooks(77u16, SpawnStrategy::NativeDuplication, plain_env()) {
        Ok(LaunchOutcome::Parent(s)) => s,
        _ => panic!("expected a parent session"),
    };
    s.record_spawned(1);
    let b_hooks = {
        let mut probe: Launcher<u8> = Launcher::new(cores(&[0, 1]), Some(9));
        let s2 = match probe.launch_with_hooks(77u16, SpawnStrategy::NativeDuplication, plain_env())
        {
            Ok(LaunchOutcome::Parent(s2)) => s2,
            _ => panic!("expected a parent session"),
        };
        let w = s2.into_worker();
        w.hooks
    };
    assert_eq!(b_hooks, 77);
    s.record_spawned(2);
    let b = s.broker_step();
    assert_eq!(b.hooks, 77);
}

#[test]
fn reexec_marker_resolves_this_process_into_a_worker() {
    let mut l: Launcher<&'static str> = Launcher::new(cores(&[0, 1, 2]), Some("cb"));
    let env = EnvReport { debug_output: false, client_marker: Some("2".to_string()) };
    let w = match l.launch(SpawnStrategy::ReExec, env) {
        Ok(LaunchOutcome::Worker(w)) => w,
        _ => panic!("a present marker must resolve into a worker"),
    };
    assert_eq!(w.core, 2);
    assert_eq!(w.delay_ms, 0);
    assert_eq!(w.callback, "cb");
    assert_eq!(w.endpoint.role, Role::Client { core: 2 });
    assert!(matches!(w.redirect, StreamTargets::Untouched));
    assert!(l.run_client.is_none());
}

#[test]
fn reexec_malformed_marker_is_fatal_not_a_default() {
    for bad in ["zero", "1x", "", " 3"] {
        let mut l: Launcher<u8> = Launcher::new(cores(&[0, 1]), Some(0));
        let env = EnvReport { debug_output: false, client_marker: Some(bad.to_string()) };
        match l.launch(SpawnStrategy::ReExec, env) {
            Err(e) => assert_eq!(e, LaunchError::MalformedEnvMarker),
            Ok(_) => panic!("a malformed marker must not resolve to any core"),
        }
        // Nothing was consumed and nothing was spawned.
        assert!(l.run_client.is_some());
    }
}

#[test]
fn reexec_parent_redirects_itself_then_spawns_with_markers() {
    let mut l: Launcher<u8> = Launcher::new(cores(&[0, 3]), Some(0));
    l.stdout_file = Some("workers.log".to_string());
    let mut s = match l.launch(SpawnStrategy::ReExec, plain_env()) {
        Ok(LaunchOutcome::Parent(s)) => s,
        _ => panic!("expected a parent session"),
    };
    assert_eq!(s.phase, Phase::ParentRedirect);
    match s.parent_redirect() {
        StreamTargets::Files { stdout_path, stderr_path } => {
            assert_eq!(stdout_path, "workers.log");
            assert_eq!(stderr_path, "workers.log");
        },
        StreamTargets::Untouched => panic!("the parent must redirect its own streams"),
    }
    assert_eq!(s.phase, Phase::Spawning);

    let st = s.spawn_step();
    assert_eq!(st.core, 0);
    assert_eq!(st.marker_value.as_deref(), Some("0"));
    assert_eq!(st.child_stdio, ChildStdio::Inherit);
    s.record_spawned(51);

    let st = s.spawn_step();
    assert_eq!(st.core, 3);
    assert_eq!(st.marker_value.as_deref(), Some("3"));
    assert_eq!(st.delay_ms, 20);
    s.record_spawned(52);
    assert_eq!(s.phase, Phase::Brokering);
}

#[test]
fn reexec_children_are_silenced_without_files_and_without_debug() {
    let mut l: Launcher<u8> = Launcher::new(cores(&[1]), Some(0));
    let mut s = match l.launch(SpawnStrategy::ReExec, plain_env()) {
        Ok(LaunchOutcome::Parent(s)) => s,
        _ => panic!("expected a parent session"),
    };
    assert!(matches!(s.parent_redirect(), StreamTargets::Untouched));
    let st = s.spawn_step();
    assert_eq!(st.child_stdio, ChildStdio::Null);
}
