//! Driving the two-tier (centralized) topology session.

use launcher::{
    CentralDuty, CentralPhase, CentralizedLauncher, CoreSet, LaunchError, Role, StreamTargets,
};

fn cores(ids: &[usize]) -> CoreSet {
    CoreSet::from_ids(&ids.to_vec())
}

#[test]
fn two_tier_validation_fails_before_any_process() {
    let mut l: CentralizedLauncher<u8, u8> = CentralizedLauncher::new(cores(&[]), Some(1), Some(2));
    assert_eq!(l.launch(false).err(), Some(LaunchError::EmptyCoreSet));

    let mut l: CentralizedLauncher<u8, u8> =
        CentralizedLauncher::new(cores(&[0]), None, Some(2));
    assert_eq!(l.launch(false).err(), Some(LaunchError::MissingClientCallback));

    let mut l: CentralizedLauncher<u8, u8> =
        CentralizedLauncher::new(cores(&[0]), Some(1), None);
    assert_eq!(l.launch(false).err(), Some(LaunchError::MissingClientCallback));
    assert!(l.secondary_run_client.is_some());
}

#[test]
fn two_tier_defaults() {
    let l: CentralizedLauncher<u8, u8> = CentralizedLauncher::new(cores(&[0]), Some(1), Some(2));
    assert_eq!(l.broker_port, 1337);
    assert_eq!(l.centralized_broker_port, 1338);
    assert_eq!(l.launch_delay, 10);
    assert!(l.spawn_broker);
    assert!(!l.always_interesting);
}

#[test]
fn centralized_broker_child_runs_the_aggregation_endpoint() {
    let mut l: CentralizedLauncher<u8, u8> = CentralizedLauncher::new(cores(&[0]), Some(1), Some(2));
    l.centralized_broker_port = 4242;
    let s = l.launch_generic(false).expect("a valid two-tier launch");
    assert_eq!(s.phase, CentralPhase::SpawnCentral);
    let t = s.into_central_broker();
    assert_eq!(t.port, 4242);
    assert_eq!(t.loop_interval_secs, 30);
    assert_eq!(t.poll_timeout_ms, 5);
}

#[test]
fn first_worker_is_main_all_others_secondary() {
    // The worker bound to the first core in order is classified main.
    let mut l: CentralizedLauncher<&'static str, &'static str> =
        CentralizedLauncher::new(cores(&[11, 12, 13]), Some("secondary"), Some("main"));
    let mut s = l.launch_generic(false).expect("a valid two-tier launch");
    s.record_central_spawned(900);
    assert_eq!(s.pause_step(), 10);
    s.record_paused();
    let w = s.into_worker();
    assert!(w.is_main);
    assert_eq!(w.core, 11);
    assert_eq!(w.stagger_index, 1);
    assert_eq!(w.role, Role::MainClient { core: 11 });
    match w.duty {
        CentralDuty::Main(cb) => assert_eq!(cb, "main"),
        CentralDuty::Secondary(_) => panic!("the first worker must be main"),
    }

    let mut l: CentralizedLauncher<&'static str, &'static str> =
        CentralizedLauncher::new(cores(&[11, 12, 13]), Some("secondary"), Some("main"));
    let mut s = l.launch_generic(false).expect("a valid two-tier launch");
    s.record_central_spawned(900);
    s.record_paused();
    s.record_spawned(901);
    let w = s.into_worker();
    assert!(!w.is_main);
    assert_eq!(w.core, 12);
    assert_eq!(w.role, Role::SecondaryClient { core: 12 });
    match w.duty {
        CentralDuty::Secondary(cb) => assert_eq!(cb, "secondary"),
        CentralDuty::Main(_) => panic!("later workers must be secondary"),
    }
}

#[test]
fn two_tier_run_signals_workers_and_centralized_broker() {
    let mut l: CentralizedLauncher<u8, u8> =
        CentralizedLauncher::new(cores(&[1, 2, 3]), Some(1), Some(2));
    let mut s = l.launch_generic(false).expect("a valid two-tier launch");
    s.record_central_spawned(700);
    s.record_paused();
    for k in 0..3u64 {
        let st = s.spawn_step();
        assert_eq!(st.core, k as usize + 1);
        assert_eq!(st.delay_ms, (k + 1) * 10);
        s.record_spawned(701 + k);
    }
    assert_eq!(s.phase, CentralPhase::Brokering);

    let b = s.broker_step();
    assert_eq!(b.endpoint.role, Role::Broker);
    // The first-tier quota counts workers only, not the centralized broker.
    assert_eq!(b.endpoint.exit_after_clients, Some(3));

    s.broker_finished();
    let mut signaled = Vec::new();
    while !s.is_done() {
        signaled.push(s.signal_step());
        s.record_signaled();
    }
    // Four handles: the centralized broker first, then the three workers.
    assert_eq!(signaled, vec![700, 701, 702, 703]);
    assert_eq!(s.phase, CentralPhase::Done);
}

#[test]
fn two_tier_without_broker_waits_for_all_handles() {
    let mut l: CentralizedLauncher<u8, u8> = CentralizedLauncher::new(cores(&[5]), Some(1), Some(2));
    l.spawn_broker = false;
    let mut s = l.launch_generic(false).expect("a valid two-tier launch");
    s.record_central_spawned(60);
    s.record_paused();
    s.record_spawned(61);
    assert_eq!(s.phase, CentralPhase::Waiting);
    assert_eq!(s.wait_step(), 60);
    assert!(!s.record_waited(0));
    assert_eq!(s.wait_step(), 61);
    assert!(s.record_waited(9));
    assert_eq!(s.phase, CentralPhase::Done);
}

#[test]
fn two_tier_worker_redirection_and_ports() {
    let mut l: CentralizedLauncher<u8, u8> = CentralizedLauncher::new(cores(&[8]), Some(1), Some(2));
    l.stdout_file = Some("out.log".to_string());
    l.stderr_file = Some("err.log".to_string());
    l.always_interesting = true;
    let mut s = l.launch_generic(false).expect("a valid two-tier launch");
    s.record_central_spawned(1);
    s.record_paused();
    let w = s.into_worker();
    assert_eq!(w.inner_endpoint.role, Role::Client { core: 8 });
    assert_eq!(w.inner_endpoint.port, 1337);
    assert_eq!(w.centralized_port, 1338);
    assert!(w.always_interesting);
    match w.redirect {
        StreamTargets::Files { stdout_path, stderr_path } => {
            assert_eq!(stdout_path, "out.log");
            assert_eq!(stderr_path, "err.log");
        },
        StreamTargets::Untouched => panic!("configured files must be applied"),
    }
}
