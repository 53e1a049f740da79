use bubbles::launcher::HostMode;
use bubbles::lifecycle::{
    cid_of, ExistsCheck, HostProcess, Session, SessionAction, SessionEvent, SessionPhase,
    StartPlan, StatusUpdate, VMStatus,
};
use bubbles::orchestrator::Orchestrator;
use bubbles::image::ImageStatus;
use bubbles::registry::{Registry, Toggle};

fn strings(v: &[&str]) -> Vec<String> {
    v.iter().map(|s| s.to_string()).collect()
}

const RUNNING: StatusUpdate = StatusUpdate { status: VMStatus::Running, failed: false };
const STOPPED: StatusUpdate = StatusUpdate { status: VMStatus::NotRunning, failed: false };
const STOPPED_FAILED: StatusUpdate = StatusUpdate { status: VMStatus::NotRunning, failed: true };

fn plan() -> StartPlan {
    StartPlan::new(HostMode::Direct, "/d", "a", 2, "/run/user/1/wayland-0")
}

#[test]
fn registry_positions_give_cids() {
    let reg = Registry::from_names(&strings(&["a", "b", "c"]));
    assert_eq!(reg.cid(0), 10);
    assert_eq!(reg.cid(1), 11);
    assert_eq!(reg.cid(2), 12);
    assert_eq!(cid_of(0), 10);
}

#[test]
fn start_plan_commands() {
    let p = plan();
    assert_eq!(p.proxy, strings(&["passt", "-f", "--vhost-user", "--socket", "/tmp/passt_socket_a"]));
    assert_eq!(
        p.bridge,
        strings(&["socat", "UNIX-LISTEN:/d/vms/a/vsock,fork", "VSOCK-CONNECT:12:11111"])
    );
    assert_eq!(
        p.hypervisor,
        strings(&[
            "crosvm", "run", "--name", "a", "--cpus", "num-cores=4", "-m", "7000",
            "--rwdisk", "/d/vms/a/disk.img", "--initrd", "/d/vms/a/initrd.img",
            "--socket", "/d/vms/a/crosvm_socket", "--vsock", "12",
            "--gpu", "context-types=cross-domain,displays=[]",
            "--wayland-sock", "/run/user/1/wayland-0",
            "--vhost-user", "net,socket=/tmp/passt_socket_a",
            "-p", "root=/dev/vda2", "/d/vms/a/vmlinuz",
        ])
    );
    assert_eq!(p.control_socket, "/d/vms/a/vsock");
}

#[test]
fn relayed_plan_resolves_host_paths() {
    let mode = HostMode::Relayed { uid: 1000, app_path: Some("/h".to_string()) };
    let p = StartPlan::new(mode, "/d", "a", 0, "/run/user/1000/w");
    assert_eq!(&p.bridge[..4], &strings(&["flatpak-spawn", "--host", "--env=XDG_RUNTIME_DIR=/run/user/1000", "/h/bin/socat"])[..]);
    assert_eq!(p.bridge[5], "VSOCK-CONNECT:10:11111");
    assert_eq!(p.proxy[3], "passt");
    assert_eq!(p.hypervisor[3], "/h/bin/crosvm");
}

#[test]
fn session_runs_in_order() {
    let (mut s, a) = Session::start(plan());
    assert!(matches!(a, SessionAction::Spawn(HostProcess::Proxy)));
    let (p, a) = s.handle(SessionEvent::Spawned(true));
    assert!(p.is_none() && matches!(a, SessionAction::Spawn(HostProcess::Bridge)));
    let (_, a) = s.handle(SessionEvent::Spawned(true));
    assert!(matches!(a, SessionAction::CheckExists(ExistsCheck::Local(ref f)) if f == "/tmp/passt_socket_a"));
    let (_, a) = s.handle(SessionEvent::PathChecked(false));
    assert!(matches!(a, SessionAction::Sleep(500)));
    let (_, a) = s.handle(SessionEvent::Slept);
    assert!(matches!(a, SessionAction::CheckExists(_)));
    let (_, a) = s.handle(SessionEvent::PathChecked(true));
    assert!(matches!(a, SessionAction::Spawn(HostProcess::Hypervisor)));
    let (p, a) = s.handle(SessionEvent::Spawned(true));
    assert!(p.is_none() && matches!(a, SessionAction::ProbeReady));
    let (p, a) = s.handle(SessionEvent::Replied(None));
    assert!(p.is_none() && matches!(a, SessionAction::Sleep(500)));
    let (_, a) = s.handle(SessionEvent::Slept);
    assert!(matches!(a, SessionAction::ProbeReady));
    let (p, a) = s.handle(SessionEvent::Replied(Some("HTTP/1.0 200 OK\r\n\r\n".to_string())));
    assert_eq!(p, Some(RUNNING));
    assert!(matches!(a, SessionAction::AwaitHypervisorExit));
    let (p, a) = s.handle(SessionEvent::HypervisorExited(true));
    assert!(p.is_none());
    assert!(matches!(a, SessionAction::StopHelpers { proxy: true, bridge: true }));
    let (p, a) = s.handle(SessionEvent::HelpersStopped(true));
    assert_eq!(p, Some(STOPPED));
    assert!(matches!(a, SessionAction::Finish));
    assert!(!s.state.failed);
}

#[test]
fn session_never_running_without_ready_reply() {
    let (mut s, _) = Session::start(plan());
    s.handle(SessionEvent::Spawned(true));
    s.handle(SessionEvent::Spawned(true));
    s.handle(SessionEvent::PathChecked(true));
    s.handle(SessionEvent::Spawned(true));
    for _ in 0..100 {
        let (p, _) = s.handle(SessionEvent::Replied(Some("HTTP/1.0 503 Busy\r\n\r\n".to_string())));
        assert!(p.is_none());
        let (p, _) = s.handle(SessionEvent::Replied(None));
        assert!(p.is_none());
        s.handle(SessionEvent::Slept);
    }
    assert_eq!(s.state.phase, SessionPhase::AwaitReady);
}

#[test]
fn spawn_failure_tears_down_and_stops() {
    let (mut s, _) = Session::start(plan());
    s.handle(SessionEvent::Spawned(true));
    let (p, a) = s.handle(SessionEvent::Spawned(false));
    assert!(p.is_none());
    assert!(matches!(a, SessionAction::StopHelpers { proxy: true, bridge: false }));
    let (p, _) = s.handle(SessionEvent::HelpersStopped(true));
    assert_eq!(p, Some(STOPPED_FAILED));
    assert!(s.state.failed);
}

#[test]
fn unexpected_events_are_ignored() {
    let (mut s, _) = Session::start(plan());
    let (p, a) = s.handle(SessionEvent::HypervisorExited(true));
    assert!(p.is_none() && matches!(a, SessionAction::Idle));
    assert_eq!(s.state.phase, SessionPhase::SpawnProxy);
}

#[test]
fn toggle_on_stopped_vm_goes_in_flux_at_once() {
    let mut reg = Registry::from_names(&strings(&["a", "b"]));
    assert_eq!(reg.toggle(1), Some(Toggle::Start));
    assert_eq!(reg.status(1), VMStatus::InFlux);
    assert_eq!(reg.status(0), VMStatus::NotRunning);
    // A second toggle while busy is a stop request, not a second start.
    assert_eq!(reg.toggle(1), Some(Toggle::RequestShutdown));
    assert_eq!(reg.status(1), VMStatus::InFlux);
    assert_eq!(reg.toggle(2), None);
}

#[test]
fn ignored_shutdown_leaves_vm_running() {
    let mut reg = Registry::from_names(&strings(&["a"]));
    reg.toggle(0);
    let (mut s, _) = Session::start(plan());
    s.handle(SessionEvent::Spawned(true));
    s.handle(SessionEvent::Spawned(true));
    s.handle(SessionEvent::PathChecked(true));
    s.handle(SessionEvent::Spawned(true));
    let (p, _) = s.handle(SessionEvent::Replied(Some("200".to_string())));
    assert!(reg.apply_update(0, p.unwrap()));
    assert_eq!(reg.status(0), VMStatus::Running);
    // Stop request: the guest ignores it, so the hypervisor never exits.
    assert_eq!(reg.toggle(0), Some(Toggle::RequestShutdown));
    for e in [SessionEvent::Slept, SessionEvent::PathChecked(true), SessionEvent::Replied(None)] {
        let (p, a) = s.handle(e);
        assert!(p.is_none() && matches!(a, SessionAction::Idle));
    }
    assert_eq!(s.state.phase, SessionPhase::Running);
    assert_eq!(reg.status(0), VMStatus::Running);
}

#[test]
fn registry_updates_and_listing() {
    let mut reg = Registry::from_names(&strings(&["a", "b"]));
    assert_eq!(reg.len(), 2);
    assert_eq!(reg.name(1), "b");
    assert!(reg.apply_update(0, RUNNING));
    assert!(!reg.apply_update(5, RUNNING));
    assert!(reg.any_active());
    // Moving the running VM is refused.
    assert!(!reg.replace_all(&strings(&["b", "a"])));
    assert_eq!(reg.name(0), "a");
    // Appending keeps it in place, with its status.
    assert!(reg.replace_all(&strings(&["a", "b", "c"])));
    assert_eq!(reg.len(), 3);
    assert_eq!(reg.status(0), VMStatus::Running);
    assert_eq!(reg.status(2), VMStatus::NotRunning);
    reg.push("d".to_string());
    assert_eq!(reg.name(3), "d");
    assert!(reg.apply_update(0, STOPPED));
    assert!(!reg.any_active());
    assert!(reg.replace_all(&strings(&["z"])));
    assert_eq!(reg.len(), 1);
}

#[test]
fn orchestrator_gates() {
    let mut o = Orchestrator::new(false, &strings(&["a"]));
    assert_eq!(o.image_status, ImageStatus::NotPresent);
    assert!(!o.can_create());
    assert!(o.begin_download());
    assert!(!o.begin_download());
    assert!(!o.may_close());
    o.finish_download(true);
    assert_eq!(o.image_status, ImageStatus::Present);
    assert!(o.may_close());
    assert!(o.can_create());
    o.begin_create();
    assert!(!o.can_create());
    assert!(!o.may_close());
    assert!(o.finish_create(&strings(&["a", "b"])));
    assert!(!o.creating);
    assert_eq!(o.toggle(0), Some(Toggle::Start));
    assert!(!o.may_close());
    assert!(o.status_update(0, STOPPED));
    assert!(o.may_close());
}

#[test]
fn relayed_session_checks_socket_on_host() {
    let mode = HostMode::Relayed { uid: 7, app_path: None };
    let (mut s, _) = Session::start(StartPlan::new(mode, "/d", "a", 0, "/run/user/7/w"));
    s.handle(SessionEvent::Spawned(true));
    let (_, a) = s.handle(SessionEvent::Spawned(true));
    match a {
        SessionAction::CheckExists(ExistsCheck::OnHost(argv)) => assert_eq!(
            argv,
            strings(&["flatpak-spawn", "--host", "--env=XDG_RUNTIME_DIR=/run/user/7", "test", "-e", "/tmp/passt_socket_a"])
        ),
        _ => panic!("expected a host-side check"),
    }
}

#[test]
fn finishing_creation_defers_listing_that_moves_running_vm() {
    let mut o = Orchestrator::new(true, &strings(&["b"]));
    assert_eq!(o.toggle(0), Some(Toggle::Start));
    o.begin_create();
    assert!(!o.finish_create(&strings(&["a", "b"])));
    assert!(!o.creating);
    assert_eq!(o.registry.name(0), "b");
    assert_eq!(o.registry.status(0), VMStatus::InFlux);
}

#[test]
fn create_request_always_starts_provisioning() {
    let mut o = Orchestrator::new(false, &strings(&[]));
    assert!(!o.can_create());
    o.begin_create();
    assert!(o.creating);
    o.begin_create();
    assert!(o.creating);
}

#[test]
fn failed_wait_is_reported_with_the_stop() {
    let (mut s, _) = Session::start(plan());
    s.handle(SessionEvent::Spawned(true));
    s.handle(SessionEvent::Spawned(true));
    s.handle(SessionEvent::PathChecked(true));
    s.handle(SessionEvent::Spawned(true));
    s.handle(SessionEvent::Replied(Some("200".to_string())));
    let (p, a) = s.handle(SessionEvent::HypervisorExited(false));
    assert!(p.is_none());
    assert!(matches!(a, SessionAction::StopHelpers { proxy: true, bridge: true }));
    let (p, _) = s.handle(SessionEvent::HelpersStopped(true));
    assert_eq!(p, Some(STOPPED_FAILED));

    let (mut t, _) = Session::start(plan());
    t.handle(SessionEvent::Spawned(false));
    let (p, _) = t.handle(SessionEvent::HelpersStopped(false));
    assert_eq!(p, Some(STOPPED_FAILED));
}

#[test]
fn registry_records_failure_and_toggle_clears_it() {
    let mut o = Orchestrator::new(true, &strings(&["a"]));
    assert_eq!(o.toggle(0), Some(Toggle::Start));
    assert!(o.status_update(0, STOPPED_FAILED));
    assert_eq!(o.registry.status(0), VMStatus::NotRunning);
    assert!(o.registry.failed(0));
    // The failure survives a relisting that keeps the VM in place.
    assert!(o.finish_create(&strings(&["a", "b"])));
    assert!(o.registry.failed(0));
    assert!(!o.registry.failed(1));
    assert_eq!(o.toggle(0), Some(Toggle::Start));
    assert!(!o.registry.failed(0));
    assert_eq!(o.registry.status(0), VMStatus::InFlux);
}

#[test]
fn cids_for_large_positions() {
    assert_eq!(cid_of(usize::MAX), usize::MAX as u128 + 10);
    let p = StartPlan::new(HostMode::Direct, "/d", "a", 123, "/w");
    assert_eq!(p.bridge[2], "VSOCK-CONNECT:133:11111");
    assert_eq!(p.hypervisor[15], "133");
}
