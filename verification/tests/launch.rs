use clash_tui::launch::{launch_step, pending_signal, LaunchEvent, LaunchPhase, LaunchStep};

#[test]
fn launch_runs_through_its_steps() {
    let (p, s) = launch_step(LaunchPhase::Start, LaunchEvent::Begin);
    assert_eq!(s, LaunchStep::Wait(500));
    let (p, s) = launch_step(p, LaunchEvent::Waited);
    assert_eq!(s, LaunchStep::Install);
    let (p, s) = launch_step(p, LaunchEvent::Installed(true));
    assert_eq!(s, LaunchStep::Configure);
    let (p, s) = launch_step(p, LaunchEvent::Configured(false));
    assert_eq!(s, LaunchStep::Spawn);
    let (p, s) = launch_step(p, LaunchEvent::Spawned(true));
    assert_eq!(s, LaunchStep::Wait(500));
    let (p, s) = launch_step(p, LaunchEvent::Waited);
    assert_eq!(s, LaunchStep::Probe);
    let (p, s) = launch_step(p, LaunchEvent::Probed(true));
    assert_eq!(s, LaunchStep::Announce);
    assert_eq!(p, LaunchPhase::Ready);
}

#[test]
fn launch_gives_up_after_forty_probes() {
    let mut p = LaunchPhase::Probing { tries: 0, asked: false };
    let mut probes = 0;
    loop {
        let (q, s) = launch_step(p, LaunchEvent::Waited);
        assert_eq!(s, LaunchStep::Probe);
        probes += 1;
        // a second wait while a probe is out asks nothing more
        let (q, idle) = launch_step(q, LaunchEvent::Waited);
        assert_eq!(idle, LaunchStep::Idle);
        let (q, s) = launch_step(q, LaunchEvent::Probed(false));
        p = q;
        if s == LaunchStep::GiveUp {
            break;
        }
        assert_eq!(s, LaunchStep::Wait(500));
    }
    assert_eq!(probes, 40);
    assert_eq!(p, LaunchPhase::Stopped);
}

#[test]
fn failed_install_or_spawn_stops() {
    assert_eq!(launch_step(LaunchPhase::Installing, LaunchEvent::Installed(false)), (LaunchPhase::Stopped, LaunchStep::GiveUp));
    assert_eq!(launch_step(LaunchPhase::Spawning, LaunchEvent::Spawned(false)), (LaunchPhase::Stopped, LaunchStep::GiveUp));
    assert_eq!(launch_step(LaunchPhase::Ready, LaunchEvent::Begin), (LaunchPhase::Ready, LaunchStep::Idle));
}

#[test]
fn pending_signal_marks_reachable() {
    let s = pending_signal();
    assert_eq!(s.core_version, "pending");
    assert!(s.api_reachable);
    assert_eq!(s.proxy_groups.len(), 0);
}
