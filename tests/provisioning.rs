use bubbles::image::{
    convert_command, expanded_size, probe_status, pull_command, ImageStatus, ProvisionAction,
    ProvisionEvent, ProvisionStep, Provisioning, EXPANSION_BYTES,
};
use bubbles::instance::{InstanceAction, InstanceProvisioning, InstanceStep};
use bubbles::launcher::HostMode;

fn strings(v: &[&str]) -> Vec<String> {
    v.iter().map(|s| s.to_string()).collect()
}

const ARTIFACT: &str = "ghcr.io/gonicus/bubbles/vm-image:e289a3a5479817c3ffad6bb62d8214e4265e8e4b";

#[test]
fn probe_maps_existence() {
    assert_eq!(probe_status(true), ImageStatus::Present);
    assert_eq!(probe_status(false), ImageStatus::NotPresent);
}

#[test]
fn expansion_is_fifteen_gib() {
    assert_eq!(EXPANSION_BYTES, 16_106_127_360);
    assert_eq!(expanded_size(0), Some(15 * 1024 * 1024 * 1024));
    assert_eq!(expanded_size(2_147_483_648), Some(2_147_483_648 + 16_106_127_360));
    assert_eq!(expanded_size(u64::MAX), None);
    assert_eq!(expanded_size(u64::MAX - EXPANSION_BYTES), Some(u64::MAX));
}

#[test]
fn pipeline_commands() {
    assert_eq!(
        pull_command(&HostMode::Direct, "/d/images/debian-13"),
        strings(&["oras", "pull", ARTIFACT, "--output", "/d/images/debian-13"])
    );
    let relayed = HostMode::Relayed { uid: 5, app_path: None };
    assert_eq!(
        convert_command(&relayed, "/t"),
        strings(&["/app/bin/qemu-img", "convert", "-f", "qcow2", "-O", "raw", "/t/disk.qcow2", "/t/disk.img"])
    );
}

#[test]
fn pipeline_success_runs_every_step_in_order() {
    let (mut p, a) = Provisioning::start(HostMode::Direct, "/d");
    assert!(matches!(a, ProvisionAction::CreateDir(ref d) if d == "/d/images/debian-13"));
    let a = p.advance(ProvisionEvent::Completed(true));
    assert!(matches!(a, ProvisionAction::Run(ref c) if c[1] == "pull"));
    let a = p.advance(ProvisionEvent::Completed(true));
    assert!(matches!(a, ProvisionAction::Run(ref c) if c[1] == "convert"));
    let a = p.advance(ProvisionEvent::Completed(true));
    assert!(matches!(a, ProvisionAction::RemoveFile(ref f) if f == "/d/images/debian-13/disk.qcow2"));
    // Removing the intermediate file is best effort.
    let a = p.advance(ProvisionEvent::Completed(false));
    assert!(matches!(a, ProvisionAction::MeasureFile(ref f) if f == "/d/images/debian-13/disk.img"));
    let a = p.advance(ProvisionEvent::Measured(Some(3_000)));
    assert!(matches!(a, ProvisionAction::SetLength(ref f, n)
        if f == "/d/images/debian-13/disk.img" && n == 3_000 + 15 * 1024 * 1024 * 1024));
    let a = p.advance(ProvisionEvent::Completed(true));
    assert!(matches!(a, ProvisionAction::Finish));
    assert_eq!(p.step, ProvisionStep::Done);
    // The directory was created first, so the probe now finds it.
    assert_eq!(probe_status(true), ImageStatus::Present);
}

#[test]
fn pipeline_failure_aborts() {
    let (mut p, _) = Provisioning::start(HostMode::Direct, "/d");
    p.advance(ProvisionEvent::Completed(true));
    let a = p.advance(ProvisionEvent::Completed(false));
    assert!(matches!(a, ProvisionAction::Finish));
    assert_eq!(p.step, ProvisionStep::Failed);
    let a = p.advance(ProvisionEvent::Completed(true));
    assert!(matches!(a, ProvisionAction::Finish));
    assert_eq!(p.step, ProvisionStep::Failed);
}

#[test]
fn pipeline_fails_on_unreadable_or_huge_disk() {
    let (mut p, _) = Provisioning::start(HostMode::Direct, "/d");
    for _ in 0..4 {
        p.advance(ProvisionEvent::Completed(true));
    }
    assert_eq!(p.step, ProvisionStep::MeasureDisk);
    p.advance(ProvisionEvent::Measured(None));
    assert_eq!(p.step, ProvisionStep::Failed);

    let (mut q, _) = Provisioning::start(HostMode::Direct, "/d");
    for _ in 0..4 {
        q.advance(ProvisionEvent::Completed(true));
    }
    q.advance(ProvisionEvent::Measured(Some(u64::MAX)));
    assert_eq!(q.step, ProvisionStep::Failed);
}

#[test]
fn instance_copies_three_files() {
    let (mut p, a) = InstanceProvisioning::start("/d", "a");
    assert!(matches!(a, InstanceAction::CreateDir(ref d) if d == "/d/vms/a"));
    let expected = [
        ("/d/images/debian-13/disk.img", "/d/vms/a/disk.img"),
        ("/d/images/debian-13/vmlinuz", "/d/vms/a/vmlinuz"),
        ("/d/images/debian-13/initrd.img", "/d/vms/a/initrd.img"),
    ];
    for (f, t) in expected {
        match p.advance(true) {
            InstanceAction::Copy { from, to } => {
                assert_eq!(from, f);
                assert_eq!(to, t);
            }
            _ => panic!("expected a copy"),
        }
    }
    assert!(matches!(p.advance(true), InstanceAction::Finish));
    assert!(p.succeeded());
}

#[test]
fn instance_fails_if_any_copy_fails() {
    for failing in 0..4 {
        let (mut p, _) = InstanceProvisioning::start("/d", "a");
        for k in 0..4 {
            p.advance(k != failing);
        }
        assert!(!p.succeeded());
        assert_eq!(p.step, InstanceStep::Failed);
    }
}
