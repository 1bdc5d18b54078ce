//! Scenario tests for the supervision and shutdown logic: readiness
//! scanning, the drain-then-terminate order, and the orchestrator's
//! aggregation of concurrent start outcomes.
use kubernix::config::Config;
use kubernix::crio::{Crio, DrainPhase, Toolchain};
use kubernix::errors::Error;
use kubernix::etcd::Etcd;
use kubernix::readiness::{scan_for_marker, wait_ready_outcome, ProcessState};
use kubernix::{Kubernix, ShutdownPhase, StopTarget};

fn test_config() -> Config {
    Config {
        root: String::from("/tmp/kx"),
        log_dir: String::from("/tmp/kx/log"),
        crio_dir: String::from("crio"),
        crio_cidr: String::from("10.100.0.0/16"),
        kube_dir: String::from("kube"),
    }
}

fn test_tools() -> Toolchain {
    Toolchain {
        conmon: String::from("/usr/bin/conmon"),
        bridge: String::from("/opt/cni/bridge"),
        cni_plugin_dir: String::from("/opt/cni"),
        runc: String::from("/usr/bin/runc"),
    }
}

#[test]
fn readiness_marker_line_is_found() {
    let lines = vec![
        String::from("level=debug msg=starting"),
        String::from("level=info msg=sandboxes: []"),
    ];
    assert_eq!(scan_for_marker(&lines, "sandboxes:"), Some(1));
}

#[test]
fn readiness_marker_absent_is_none() {
    let lines = vec![String::from("level=debug msg=starting"), String::from("shutting down")];
    assert_eq!(scan_for_marker(&lines, "sandboxes:"), None);
}

#[test]
fn wait_ready_succeeds_on_marker() {
    let lines = vec![String::from("a"), String::from("xx sandboxes: yy"), String::from("b")];
    let r = wait_ready_outcome(&lines, false, true, "sandboxes:", "");
    assert_eq!(r, Ok(1));
}

#[test]
fn wait_ready_closed_stream_without_marker_fails_with_stream_closed() {
    let lines = vec![String::from("level=debug nothing"), String::from("exit")];
    let r = wait_ready_outcome(&lines, true, false, "sandboxes:", "boom");
    assert_eq!(r, Err(Error::ReadinessStreamClosed { stderr: String::from("boom") }));
}

#[test]
fn wait_ready_closed_stream_wins_over_timeout() {
    let lines: Vec<String> = Vec::new();
    let r = wait_ready_outcome(&lines, true, true, "sandboxes:", "se");
    assert_eq!(r, Err(Error::ReadinessStreamClosed { stderr: String::from("se") }));
}

#[test]
fn wait_ready_times_out_without_marker_or_close() {
    let lines = vec![String::from("still starting")];
    let r = wait_ready_outcome(&lines, false, true, "sandboxes:", "");
    assert_eq!(r, Err(Error::ReadinessTimeout));
}

#[test]
fn drain_lists_before_removing_and_removes_in_listed_order() {
    let crio = Crio::started("/run/crio.sock");
    let mut drain = crio.stop();
    let list = drain.list_command();
    assert_eq!(list.program, "crictl");
    assert_eq!(list.args, vec![String::from("pods"), String::from("-q")]);
    assert_eq!(
        list.env,
        vec![(String::from("CONTAINER_RUNTIME_ENDPOINT"), String::from("unix:///run/crio.sock"))]
    );

    drain.on_list_result(0, "pod-a\npod-b\n", "").unwrap();
    let first = drain.next_remove().expect("first removal owed");
    assert_eq!(first.args, vec![String::from("rmp"), String::from("-f"), String::from("pod-a")]);
    assert_eq!(
        first.env,
        vec![(String::from("CONTAINER_RUNTIME_ENDPOINT"), String::from("unix:///run/crio.sock"))]
    );
    drain.on_remove_result(0, "", "").unwrap();
    let second = drain.next_remove().expect("second removal owed");
    assert_eq!(second.args, vec![String::from("rmp"), String::from("-f"), String::from("pod-b")]);
    drain.on_remove_result(0, "", "").unwrap();
    assert!(drain.next_remove().is_none());
    assert!(drain.ready_to_stop());
}

#[test]
fn drain_with_zero_workloads_issues_no_removal() {
    let crio = Crio::started("/s");
    let mut drain = crio.stop();
    let _ = drain.list_command();
    drain.on_list_result(0, "", "").unwrap();
    assert!(drain.next_remove().is_none());
    assert!(drain.ready_to_stop());
}

#[test]
fn drain_fails_fast_when_listing_fails() {
    let mut crio = Crio::started("/s");
    let mut drain = crio.stop();
    let _ = drain.list_command();
    let err = drain.on_list_result(1, "partial", "denied").unwrap_err();
    assert_eq!(
        err,
        Error::DrainFailure {
            command: String::from("crictl pods -q"),
            exit_code: 1,
            stdout: String::from("partial"),
            stderr: String::from("denied"),
        }
    );
    assert_eq!(drain.phase, DrainPhase::Failed);
    assert!(!drain.ready_to_stop());
    // The process is not stopped after a failed drain.
    assert!(!crio.confirm_drained(&drain));
    assert_eq!(crio.state, ProcessState::Ready);
}

#[test]
fn drain_fails_fast_when_removal_fails() {
    let crio = Crio::started("/s");
    let mut drain = crio.stop();
    let _ = drain.list_command();
    drain.on_list_result(0, "p1\np2\n", "").unwrap();
    let _ = drain.next_remove().unwrap();
    let err = drain.on_remove_result(2, "out", "err").unwrap_err();
    assert_eq!(
        err,
        Error::DrainFailure {
            command: String::from("crictl rmp -f"),
            exit_code: 2,
            stdout: String::from("out"),
            stderr: String::from("err"),
        }
    );
    assert_eq!(drain.phase, DrainPhase::Failed);
    assert!(!drain.ready_to_stop());
}

#[test]
fn full_stop_sequence_terminates_process_after_drain() {
    // A fake environment: the runtime emitted the readiness marker,
    // the listing reports no workloads, and the process exits within
    // the grace period.
    let lines = vec![String::from("level=info msg=sandboxes: ...")];
    let ready = wait_ready_outcome(&lines, false, false, "sandboxes:", "");
    assert_eq!(ready, Ok(0));

    let mut crio = Crio::started("/run/crio.sock");
    assert_eq!(crio.state, ProcessState::Ready);
    let mut drain = crio.stop();
    let _ = drain.list_command();
    drain.on_list_result(0, "", "").unwrap();
    assert!(drain.next_remove().is_none());
    assert!(crio.confirm_drained(&drain));
    assert_eq!(crio.state, ProcessState::Stopping);
    crio.on_stop_result(true).unwrap();
    assert_eq!(crio.state, ProcessState::Stopped);
}

#[test]
fn stop_failure_is_reported_when_grace_period_is_exceeded() {
    let mut crio = Crio::started("/s");
    let mut drain = crio.stop();
    let _ = drain.list_command();
    drain.on_list_result(0, "", "").unwrap();
    assert!(drain.next_remove().is_none());
    assert!(crio.confirm_drained(&drain));
    let err = crio.on_stop_result(false).unwrap_err();
    assert_eq!(err, Error::StopFailure { name: String::from("crio") });
    assert_eq!(crio.state, ProcessState::Failed);
}

#[test]
fn services_can_be_stopped_from_the_running_state() {
    let mut crio = Crio::started("/s");
    crio.mark_running();
    assert_eq!(crio.state, ProcessState::Running);
    let mut drain = crio.stop();
    let _ = drain.list_command();
    drain.on_list_result(0, "", "").unwrap();
    assert!(drain.next_remove().is_none());
    assert!(crio.confirm_drained(&drain));
    crio.on_stop_result(true).unwrap();
    assert_eq!(crio.state, ProcessState::Stopped);

    let mut e = Etcd::started();
    e.mark_running();
    assert_eq!(e.state, ProcessState::Running);
    e.begin_stop();
    e.on_stop_result(true).unwrap();
    assert_eq!(e.state, ProcessState::Stopped);
}

#[test]
fn orchestrator_holds_both_ready_services() {
    let r = Kubernix::new(Ok(Crio::started("/s")), Ok(Etcd::started()));
    let k = r.ok().expect("both services started");
    assert_eq!(k.crio.state, ProcessState::Ready);
    assert_eq!(k.etcd.state, ProcessState::Ready);
}

#[test]
fn orchestrator_hands_back_surviving_sibling_when_one_start_fails() {
    let err = Error::ExecutableNotFound { name: String::from("conmon") };
    let f = Kubernix::new(Err(err.clone()), Ok(Etcd::started())).err().unwrap();
    assert_eq!(f.error, err);
    assert!(f.stop_crio.is_none());
    assert!(f.stop_etcd.is_some());

    let err2 = Error::ReadinessTimeout;
    let f2 = Kubernix::new(Ok(Crio::started("/s")), Err(err2.clone())).err().unwrap();
    assert_eq!(f2.error, err2);
    assert!(f2.stop_crio.is_some());
    assert!(f2.stop_etcd.is_none());
}

#[test]
fn orchestrator_reports_runtime_error_first_when_both_fail() {
    let ce = Error::ExecutableNotFound { name: String::from("conmon") };
    let ee = Error::ReadinessTimeout;
    let f = Kubernix::new(Err(ce.clone()), Err(ee)).err().unwrap();
    assert_eq!(f.error, ce);
    assert!(f.stop_crio.is_none());
    assert!(f.stop_etcd.is_none());
}

#[test]
fn shutdown_stops_runtime_before_store_and_short_circuits() {
    let k = Kubernix::new(Ok(Crio::started("/s")), Ok(Etcd::started())).ok().unwrap();
    let mut s = k.stop();
    assert_eq!(s.next_target(), Some(StopTarget::CrioService));
    s.on_target_result(true);
    assert_eq!(s.next_target(), Some(StopTarget::EtcdService));
    s.on_target_result(true);
    assert_eq!(s.phase, ShutdownPhase::Done);
    assert_eq!(s.next_target(), None);

    // A failed runtime stop aborts before the store is attempted.
    let mut s2 = k.stop();
    assert_eq!(s2.next_target(), Some(StopTarget::CrioService));
    s2.on_target_result(false);
    assert_eq!(s2.phase, ShutdownPhase::Failed);
    assert_eq!(s2.next_target(), None);
}

#[test]
fn etcd_follows_the_shared_lifecycle_contract() {
    let mut e = Etcd::started();
    assert_eq!(e.state, ProcessState::Ready);
    e.begin_stop();
    assert_eq!(e.state, ProcessState::Stopping);
    e.on_stop_result(true).unwrap();
    assert_eq!(e.state, ProcessState::Stopped);

    let mut e2 = Etcd::started();
    e2.begin_stop();
    let err = e2.on_stop_result(false).unwrap_err();
    assert_eq!(err, Error::StopFailure { name: String::from("etcd") });
    assert_eq!(e2.state, ProcessState::Failed);
}

#[test]
fn start_plan_uses_configured_layout() {
    let config = test_config();
    let tools = test_tools();
    let plan = Crio::start(&config, &tools, "/tmp/kx/crio/crio.sock");
    assert_eq!(plan.dirs, vec![String::from("/tmp/kx/crio"), String::from("/tmp/kx/crio/cni")]);
    assert_eq!(plan.files.len(), 2);
    assert_eq!(plan.files[0].0, "/tmp/kx/crio/cni/bridge.json");
    assert_eq!(plan.files[1].0, "/tmp/kx/crio/policy.json");
    assert_eq!(plan.ready_marker, "sandboxes:");
    let argv: Vec<&str> = plan.argv.iter().map(|a| a.as_str()).collect();
    assert_eq!(
        argv,
        vec![
            "crio",
            "--log-level=debug",
            "--storage-driver=overlay",
            "--conmon=/usr/bin/conmon",
            "--listen=/tmp/kx/crio/crio.sock",
            "--root=/tmp/kx/crio/storage",
            "--runroot=/tmp/kx/crio/run",
            "--cni-config-dir=/tmp/kx/crio/cni",
            "--cni-plugin-dir=/opt/cni",
            "--registry=docker.io",
            "--signature-policy=/tmp/kx/crio/policy.json",
            "--runtimes=local-runc:/usr/bin/runc:/tmp/kx/crio/runc",
            "--default-runtime=local-runc",
        ]
    );
}
