use verge_core::cmd::get_running_mode;
use verge_core::manager::{ChildHandle, ClashLogs, CoreManager, StartRoute, StopAction};
use verge_core::mode::RunningMode;
use verge_core::planner::ServiceStatus;
use verge_core::pump::{PumpStep, SidecarEvent};

fn running_sidecar(pid: u32) -> CoreManager {
    let mut m = CoreManager::new();
    let plan = m.start_core(ServiceStatus::NotReady);
    assert_eq!(plan.route, StartRoute::BySidecar);
    assert!(plan.released.is_none());
    assert!(m.set_running_child_sidecar(ChildHandle { pid }).is_none());
    m
}

#[test]
fn new_manager_is_not_running() {
    let m = CoreManager::new();
    assert_eq!(m.get_running_mode(), RunningMode::NotRunning);
    assert_eq!(m.child_pid(), None);
    assert_eq!(m.get_last_update(), None);
    let d = CoreManager::default();
    assert_eq!(d.get_running_mode(), RunningMode::NotRunning);
}

#[test]
fn start_without_service_goes_sidecar() {
    let m = running_sidecar(41);
    assert_eq!(m.get_running_mode(), RunningMode::Sidecar);
    assert_eq!(m.child_pid(), Some(41));
}

#[test]
fn start_with_ready_service_goes_service_and_releases_child() {
    let mut m = running_sidecar(5);
    let plan = m.start_core(ServiceStatus::Ready);
    assert_eq!(plan.route, StartRoute::ByService);
    assert_eq!(plan.released.map(|c| c.pid), Some(5));
    assert_eq!(m.get_running_mode(), RunningMode::Service);
    assert_eq!(m.child_pid(), None);
    assert!(m.set_running_mode(RunningMode::Service).is_none());
    match m.stop_core() {
        StopAction::StopService => {}
        other => panic!("unexpected {:?}", other),
    }
    assert_eq!(m.get_running_mode(), RunningMode::NotRunning);
}

#[test]
fn unknown_service_status_goes_sidecar() {
    let mut m = CoreManager::new();
    assert_eq!(m.start_core(ServiceStatus::Unknown).route, StartRoute::BySidecar);
    assert_eq!(m.get_running_mode(), RunningMode::Sidecar);
}

#[test]
fn stop_when_not_running_does_nothing() {
    let mut m = CoreManager::new();
    m.set_last_update(99);
    match m.stop_core() {
        StopAction::Nothing => {}
        other => panic!("unexpected {:?}", other),
    }
    assert_eq!(m.get_running_mode(), RunningMode::NotRunning);
    assert_eq!(m.get_last_update(), Some(99));
}

#[test]
fn double_stop_ends_the_child_once() {
    let mut m = running_sidecar(7);
    match m.stop_core() {
        StopAction::EndSidecar(Some(h)) => assert_eq!(h.pid, 7),
        other => panic!("unexpected {:?}", other),
    }
    match m.stop_core() {
        StopAction::Nothing => {}
        other => panic!("unexpected {:?}", other),
    }
    assert_eq!(m.get_running_mode(), RunningMode::NotRunning);
    assert_eq!(m.child_pid(), None);
}

#[test]
fn stop_after_child_taken_still_finalizes() {
    let mut m = running_sidecar(8);
    assert_eq!(m.take_child_sidecar().map(|c| c.pid), Some(8));
    assert!(m.take_child_sidecar().is_none());
    match m.stop_core() {
        StopAction::EndSidecar(None) => {}
        other => panic!("unexpected {:?}", other),
    }
    assert_eq!(m.get_running_mode(), RunningMode::NotRunning);
}

#[test]
fn stop_clears_the_log_buffer() {
    let mut m = running_sidecar(9);
    m.append_log("a line".to_string());
    let _ = m.stop_core();
    match m.get_clash_logs() {
        ClashLogs::Lines(v) => assert!(v.is_empty()),
        ClashLogs::FromService => panic!("wrong source"),
    }
}

#[test]
fn new_child_displaces_the_old_one() {
    let mut m = running_sidecar(1);
    let old = m.set_running_child_sidecar(ChildHandle { pid: 2 });
    assert_eq!(old.map(|c| c.pid), Some(1));
    assert_eq!(m.child_pid(), Some(2));
}

#[test]
fn leaving_sidecar_mode_releases_the_child() {
    let mut m = running_sidecar(3);
    let released = m.set_running_mode(RunningMode::NotRunning);
    assert_eq!(released.map(|c| c.pid), Some(3));
    assert_eq!(m.child_pid(), None);
    let mut k = running_sidecar(4);
    assert!(k.set_running_mode(RunningMode::Sidecar).is_none());
    assert_eq!(k.child_pid(), Some(4));
}

#[test]
fn restart_is_stop_then_start() {
    let mut m = running_sidecar(10);
    match m.stop_core() {
        StopAction::EndSidecar(Some(h)) => assert_eq!(h.pid, 10),
        other => panic!("unexpected {:?}", other),
    }
    let plan = m.start_core(ServiceStatus::NotReady);
    assert_eq!(plan.route, StartRoute::BySidecar);
    assert!(m.set_running_child_sidecar(ChildHandle { pid: 11 }).is_none());
    assert_eq!(m.child_pid(), Some(11));
    assert_eq!(m.get_running_mode(), RunningMode::Sidecar);
}

#[test]
fn mode_is_always_whole_over_a_call_sequence() {
    let mut m = CoreManager::new();
    let statuses = [
        ServiceStatus::NotReady,
        ServiceStatus::Ready,
        ServiceStatus::Unknown,
        ServiceStatus::Ready,
        ServiceStatus::NotReady,
    ];
    let mut pid: u32 = 100;
    for (i, s) in statuses.iter().enumerate() {
        let plan = m.start_core(*s);
        if plan.route == StartRoute::BySidecar {
            pid += 1;
            let _ = m.set_running_child_sidecar(ChildHandle { pid });
        } else {
            let _ = m.set_running_mode(RunningMode::Service);
        }
        check_whole(&m);
        if i % 2 == 0 {
            let _ = m.stop_core();
            check_whole(&m);
        }
    }
}

fn check_whole(m: &CoreManager) {
    let mode = m.get_running_mode();
    assert!(matches!(
        mode,
        RunningMode::Service | RunningMode::Sidecar | RunningMode::NotRunning
    ));
    if m.child_pid().is_some() {
        assert_eq!(mode, RunningMode::Sidecar);
    }
}

#[test]
fn self_healing_reads_sidecar_and_keeps_it() {
    let mut m = CoreManager::new();
    assert_eq!(get_running_mode(&mut m, true), "Sidecar");
    assert_eq!(m.get_running_mode(), RunningMode::Sidecar);
    assert_eq!(get_running_mode(&mut m, false), "Sidecar");
}

#[test]
fn no_socket_reads_not_running() {
    let mut m = CoreManager::new();
    assert_eq!(get_running_mode(&mut m, false), "NotRunning");
    assert_eq!(m.get_running_mode(), RunningMode::NotRunning);
}

#[test]
fn service_mode_is_not_healed() {
    let mut m = CoreManager::new();
    let _ = m.start_core(ServiceStatus::Ready);
    assert_eq!(get_running_mode(&mut m, true), "Service");
    assert_eq!(m.get_mode(true), RunningMode::Service);
}

#[test]
fn termination_resets_whatever_the_mode() {
    let mut m = running_sidecar(12);
    m.append_log("x".to_string());
    match m.handle_sidecar_event(SidecarEvent::Terminated { code: Some(1), signal: None }) {
        PumpStep::Finished { record, released } => {
            assert_eq!(record.message, "Process terminated with code: 1");
            assert_eq!(released.map(|c| c.pid), Some(12));
        }
        other => panic!("unexpected {:?}", other),
    }
    assert_eq!(m.get_running_mode(), RunningMode::NotRunning);
    assert_eq!(m.child_pid(), None);
    let mut s = CoreManager::new();
    let _ = s.start_core(ServiceStatus::Ready);
    let _ = s.handle_sidecar_event(SidecarEvent::Terminated { code: None, signal: Some(9) });
    assert_eq!(s.get_running_mode(), RunningMode::NotRunning);
    match s.get_clash_logs() {
        ClashLogs::Lines(v) => assert!(v.is_empty()),
        ClashLogs::FromService => panic!("wrong source"),
    }
}

#[test]
fn termination_then_stop_is_harmless() {
    let mut m = running_sidecar(13);
    let _ = m.on_terminated();
    match m.stop_core() {
        StopAction::Nothing => {}
        other => panic!("unexpected {:?}", other),
    }
}

#[test]
fn clash_logs_by_mode() {
    let mut m = CoreManager::new();
    m.append_log("stale".to_string());
    match m.get_clash_logs() {
        ClashLogs::Lines(v) => assert!(v.is_empty()),
        ClashLogs::FromService => panic!("wrong source"),
    }
    let mut m = running_sidecar(14);
    m.append_log("one".to_string());
    m.append_log("two".to_string());
    match m.get_clash_logs() {
        ClashLogs::Lines(v) => assert_eq!(v, vec!["one".to_string(), "two".to_string()]),
        ClashLogs::FromService => panic!("wrong source"),
    }
    let _ = m.start_core(ServiceStatus::Ready);
    assert!(matches!(m.get_clash_logs(), ClashLogs::FromService));
}

#[test]
fn start_scenario_without_service() {
    let mut m = CoreManager::new();
    let plan = m.start_core(ServiceStatus::NotReady);
    assert_eq!(plan.route, StartRoute::BySidecar);
    let _ = m.set_running_child_sidecar(ChildHandle { pid: 300 });
    assert_eq!(
        m.readiness_step(300, 400, true),
        verge_core::sidecar::ReadinessStep::Ready
    );
    assert_eq!(get_running_mode(&mut m, true), "Sidecar");
    assert_eq!(m.get_running_mode(), RunningMode::Sidecar);
    assert_eq!(m.child_pid(), Some(300));
}
