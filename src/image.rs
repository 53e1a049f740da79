//! The template image: its readiness probe and the provisioning pipeline
//! that fetches it, converts it to a raw disk and grows that disk.

use vstd::prelude::*;
use crate::launcher::{argv, bundled_program, bundled_program_spec, owned, HostMode};
use crate::paths::{file_in, join, file_name_spec, template_dir, template_dir_spec, ImageFile};

verus! {

/// Bytes added to the converted disk image: 15 GiB.
pub const EXPANSION_BYTES: u64 = 15 * 1024 * 1024 * 1024;

/// Availability of the template image.
#[derive(Clone, Copy, Debug, PartialEq, Eq, Structural)]
pub enum ImageStatus {
    NotPresent,
    Downloading,
    Present,
}

/// What the probe reports: present exactly when the template directory exists.
pub open spec fn probed_status(template_dir_exists: bool) -> ImageStatus {
    if template_dir_exists {
        ImageStatus::Present
    } else {
        ImageStatus::NotPresent
    }
}

pub fn probe_status(template_dir_exists: bool) -> (r: ImageStatus)
    ensures
        r == probed_status(template_dir_exists),
{
    if template_dir_exists {
        ImageStatus::Present
    } else {
        ImageStatus::NotPresent
    }
}

/// The content-addressed artifact that holds the template image.
pub open spec fn artifact_spec() -> Seq<char> {
    "ghcr.io/gonicus/bubbles/vm-image:e289a3a5479817c3ffad6bb62d8214e4265e8e4b"@
}

pub fn artifact() -> (r: &'static str)
    ensures
        r@ == artifact_spec(),
{
    "ghcr.io/gonicus/bubbles/vm-image:e289a3a5479817c3ffad6bb62d8214e4265e8e4b"
}

/// Fetches the artifact into `dir`.
pub open spec fn pull_command_spec(mode: HostMode, dir: Seq<char>) -> Seq<Seq<char>> {
    seq![bundled_program_spec(mode, "oras"@), "pull"@, artifact_spec(), "--output"@, dir]
}

/// Converts the fetched disk of `dir` to the raw format.
pub open spec fn convert_command_spec(mode: HostMode, dir: Seq<char>) -> Seq<Seq<char>> {
    seq![
        bundled_program_spec(mode, "qemu-img"@),
        "convert"@,
        "-f"@,
        "qcow2"@,
        "-O"@,
        "raw"@,
        join(dir, file_name_spec(ImageFile::Packed)),
        join(dir, file_name_spec(ImageFile::Disk)),
    ]
}

pub fn pull_command(mode: &HostMode, dir: &str) -> (r: Vec<String>)
    ensures
        argv(r@) == pull_command_spec(*mode, dir@),
{
    let v: Vec<String> = vec![
        bundled_program(mode, "oras"),
        owned("pull"),
        owned(artifact()),
        owned("--output"),
        owned(dir),
    ];
    assert(argv(v@) =~= pull_command_spec(*mode, dir@));
    v
}

pub fn convert_command(mode: &HostMode, dir: &str) -> (r: Vec<String>)
    ensures
        argv(r@) == convert_command_spec(*mode, dir@),
{
    let v: Vec<String> = vec![
        bundled_program(mode, "qemu-img"),
        owned("convert"),
        owned("-f"),
        owned("qcow2"),
        owned("-O"),
        owned("raw"),
        file_in(dir, ImageFile::Packed),
        file_in(dir, ImageFile::Disk),
    ];
    assert(argv(v@) =~= convert_command_spec(*mode, dir@));
    v
}

/// The length the raw disk is grown to from `size`, unless that does not
/// fit in 64 bits.
pub fn expanded_size(size: u64) -> (r: Option<u64>)
    ensures
        r == (if size + EXPANSION_BYTES <= u64::MAX {
            Some((size + EXPANSION_BYTES) as u64)
        } else {
            None::<u64>
        }),
{
    size.checked_add(EXPANSION_BYTES)
}


/// Stages of the provisioning pipeline, in order; `Done` and `Failed` are
/// final.
#[derive(Clone, Copy, Debug, PartialEq, Eq, Structural)]
pub enum ProvisionStep {
    /// Creating the template directory.
    CreateDir,
    /// Fetching the artifact.
    Pull,
    /// Converting the disk to the raw format.
    Convert,
    /// Removing the converted-from file (best effort).
    RemovePacked,
    /// Reading the raw disk's length.
    MeasureDisk,
    /// Growing the raw disk.
    Expand,
    Done,
    Failed,
}

/// What the caller reports after carrying out an action.
#[derive(Clone, Copy, Debug, PartialEq, Eq, Structural)]
pub enum ProvisionEvent {
    /// The action finished, successfully or not.
    Completed(bool),
    /// The file's length, or `None` when it could not be read.
    Measured(Option<u64>),
}

/// What the caller is asked to do next.
pub enum ProvisionAction {
    /// Create this directory and its parents.
    CreateDir(String),
    /// Run this command and wait for it.
    Run(Vec<String>),
    /// Remove this file; the outcome does not matter.
    RemoveFile(String),
    /// Read this file's length.
    MeasureFile(String),
    /// Set this file's length, growing it sparsely.
    SetLength(String, u64),
    /// The pipeline is over; probe the image status again.
    Finish,
}

/// The stage that follows `s` when `e` is reported.
pub open spec fn next_step(s: ProvisionStep, e: ProvisionEvent) -> ProvisionStep {
    match (s, e) {
        (ProvisionStep::CreateDir, ProvisionEvent::Completed(true)) => ProvisionStep::Pull,
        (ProvisionStep::Pull, ProvisionEvent::Completed(true)) => ProvisionStep::Convert,
        (ProvisionStep::Convert, ProvisionEvent::Completed(true)) => ProvisionStep::RemovePacked,
        (ProvisionStep::RemovePacked, ProvisionEvent::Completed(_)) => ProvisionStep::MeasureDisk,
        (ProvisionStep::MeasureDisk, ProvisionEvent::Measured(Some(n))) => if n + EXPANSION_BYTES
            <= u64::MAX {
            ProvisionStep::Expand
        } else {
            ProvisionStep::Failed
        },
        (ProvisionStep::Expand, ProvisionEvent::Completed(true)) => ProvisionStep::Done,
        (ProvisionStep::Done, _) => ProvisionStep::Done,
        _ => ProvisionStep::Failed,
    }
}

/// The stage reached from `s` after the events `es`, in order.
pub open spec fn run_steps(s: ProvisionStep, es: Seq<ProvisionEvent>) -> ProvisionStep
    decreases es.len(),
{
    if es.len() == 0 {
        s
    } else {
        run_steps(next_step(s, es[0]), es.drop_first())
    }
}

/// `a` is the action that entering `step` asks for, in the template
/// directory `dir`, after the event `e`.
pub open spec fn action_for(
    a: ProvisionAction,
    step: ProvisionStep,
    mode: HostMode,
    dir: Seq<char>,
    e: ProvisionEvent,
) -> bool {
    match step {
        ProvisionStep::CreateDir => a matches ProvisionAction::CreateDir(p) && p@ == dir,
        ProvisionStep::Pull => a matches ProvisionAction::Run(c) && argv(c@) == pull_command_spec(
            mode,
            dir,
        ),
        ProvisionStep::Convert => a matches ProvisionAction::Run(c) && argv(c@)
            == convert_command_spec(mode, dir),
        ProvisionStep::RemovePacked => a matches ProvisionAction::RemoveFile(p) && p@ == join(
            dir,
            file_name_spec(ImageFile::Packed),
        ),
        ProvisionStep::MeasureDisk => a matches ProvisionAction::MeasureFile(p) && p@ == join(
            dir,
            file_name_spec(ImageFile::Disk),
        ),
        ProvisionStep::Expand => match (a, e) {
            (ProvisionAction::SetLength(p, n), ProvisionEvent::Measured(Some(size))) => p@ == join(
                dir,
                file_name_spec(ImageFile::Disk),
            ) && n == size + EXPANSION_BYTES,
            _ => false,
        },
        _ => a is Finish,
    }
}

/// One run of the provisioning pipeline.
pub struct Provisioning {
    pub mode: HostMode,
    /// The template directory.
    pub dir: String,
    pub step: ProvisionStep,
}

impl Provisioning {
    /// Starts the pipeline for the data root `data`; the first action
    /// creates the template directory.
    pub fn start(mode: HostMode, data: &str) -> (r: (Provisioning, ProvisionAction))
        ensures
            r.0.mode == mode,
            r.0.dir@ == template_dir_spec(data@),
            r.0.step == ProvisionStep::CreateDir,
            r.1 matches ProvisionAction::CreateDir(p) && p@ == template_dir_spec(data@),
    {
        let dir = template_dir(data);
        let first = ProvisionAction::CreateDir(owned(dir.as_str()));
        (Provisioning { mode, dir, step: ProvisionStep::CreateDir }, first)
    }

    /// Takes the outcome of the last action and returns the next one.
    pub fn advance(&mut self, e: ProvisionEvent) -> (a: ProvisionAction)
        ensures
            final(self).mode == old(self).mode,
            final(self).dir == old(self).dir,
            final(self).step == next_step(old(self).step, e),
            action_for(a, final(self).step, old(self).mode, old(self).dir@, e),
            final(self).step != ProvisionStep::CreateDir,
    {
        let next = match (self.step, e) {
            (ProvisionStep::CreateDir, ProvisionEvent::Completed(true)) => ProvisionStep::Pull,
            (ProvisionStep::Pull, ProvisionEvent::Completed(true)) => ProvisionStep::Convert,
            (ProvisionStep::Convert, ProvisionEvent::Completed(true)) => ProvisionStep::RemovePacked,
            (ProvisionStep::RemovePacked, ProvisionEvent::Completed(_)) => ProvisionStep::MeasureDisk,
            (ProvisionStep::MeasureDisk, ProvisionEvent::Measured(Some(n))) => {
                if expanded_size(n).is_some() {
                    ProvisionStep::Expand
                } else {
                    ProvisionStep::Failed
                }
            },
            (ProvisionStep::Expand, ProvisionEvent::Completed(true)) => ProvisionStep::Done,
            (ProvisionStep::Done, _) => ProvisionStep::Done,
            _ => ProvisionStep::Failed,
        };
        self.step = next;
        match next {
            ProvisionStep::Pull => ProvisionAction::Run(pull_command(&self.mode, self.dir.as_str())),
            ProvisionStep::Convert => ProvisionAction::Run(
                convert_command(&self.mode, self.dir.as_str()),
            ),
            ProvisionStep::RemovePacked => ProvisionAction::RemoveFile(
                file_in(self.dir.as_str(), ImageFile::Packed),
            ),
            ProvisionStep::MeasureDisk => ProvisionAction::MeasureFile(
                file_in(self.dir.as_str(), ImageFile::Disk),
            ),
            ProvisionStep::Expand => {
                let size = match e {
                    ProvisionEvent::Measured(Some(n)) => n,
                    _ => 0,
                };
                let target = match expanded_size(size) {
                    Some(t) => t,
                    None => 0,
                };
                ProvisionAction::SetLength(file_in(self.dir.as_str(), ImageFile::Disk), target)
            },
            _ => ProvisionAction::Finish,
        }
    }
}

/// Once failed, the pipeline stays failed.
pub proof fn lemma_failed_is_final(es: Seq<ProvisionEvent>)
    ensures
        run_steps(ProvisionStep::Failed, es) == ProvisionStep::Failed,
    decreases es.len(),
{
    if es.len() > 0 {
        lemma_failed_is_final(es.drop_first());
    }
}

proof fn lemma_step_towards_done(s: ProvisionStep, es: Seq<ProvisionEvent>)
    requires
        run_steps(s, es) == ProvisionStep::Done,
        s != ProvisionStep::Done,
    ensures
        es.len() > 0,
        next_step(s, es[0]) != ProvisionStep::Failed,
        run_steps(next_step(s, es[0]), es.drop_first()) == ProvisionStep::Done,
{
    if es.len() > 0 && next_step(s, es[0]) == ProvisionStep::Failed {
        lemma_failed_is_final(es.drop_first());
    }
}

/// A pipeline that ends in `Done` went through every stage in order: its
/// first step, creating the template directory that the image probe looks
/// for, succeeded; the fetch and the conversion succeeded; the raw disk was
/// measured at a size `S` for which `S` plus 15 GiB fits a file length; and
/// growing it (to that sum, see `action_for`) succeeded.
pub proof fn lemma_done_ran_every_stage(es: Seq<ProvisionEvent>)
    requires
        run_steps(ProvisionStep::CreateDir, es) == ProvisionStep::Done,
    ensures
        es.len() >= 6,
        es[0] == ProvisionEvent::Completed(true),
        es[1] == ProvisionEvent::Completed(true),
        es[2] == ProvisionEvent::Completed(true),
        es[3] is Completed,
        es[4] matches ProvisionEvent::Measured(Some(size)) && size + EXPANSION_BYTES <= u64::MAX,
        es[5] == ProvisionEvent::Completed(true),
{
    let e1 = es.drop_first();
    let e2 = e1.drop_first();
    let e3 = e2.drop_first();
    let e4 = e3.drop_first();
    let e5 = e4.drop_first();
    lemma_step_towards_done(ProvisionStep::CreateDir, es);
    lemma_step_towards_done(ProvisionStep::Pull, e1);
    lemma_step_towards_done(ProvisionStep::Convert, e2);
    lemma_step_towards_done(ProvisionStep::RemovePacked, e3);
    lemma_step_towards_done(ProvisionStep::MeasureDisk, e4);
    lemma_step_towards_done(ProvisionStep::Expand, e5);
    assert(es[1] == e1[0] && es[2] == e2[0] && es[3] == e3[0] && es[4] == e4[0] && es[5] == e5[0]);
}

} // verus!
