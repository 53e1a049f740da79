//! Materialising a new VM's working directory from the template image.

use vstd::prelude::*;
use crate::paths::{file_in, file_name_spec, join, template_dir, template_dir_spec, vm_dir, vm_dir_spec, ImageFile};

verus! {

/// Stages of instance provisioning, in order; `Done` and `Failed` are final.
#[derive(Clone, Copy, Debug, PartialEq, Eq, Structural)]
pub enum InstanceStep {
    CreateDir,
    CopyDisk,
    CopyKernel,
    CopyInitrd,
    Done,
    Failed,
}

/// What the caller is asked to do next.
pub enum InstanceAction {
    /// Create this directory and its parents.
    CreateDir(String),
    /// Copy the file `from` to `to`.
    Copy { from: String, to: String },
    /// Provisioning is over.
    Finish,
}

/// The stage that follows `s` once its action reported `ok`.
pub open spec fn next_instance_step(s: InstanceStep, ok: bool) -> InstanceStep {
    match s {
        InstanceStep::Done => InstanceStep::Done,
        InstanceStep::Failed => InstanceStep::Failed,
        _ => if !ok {
            InstanceStep::Failed
        } else {
            match s {
                InstanceStep::CreateDir => InstanceStep::CopyDisk,
                InstanceStep::CopyDisk => InstanceStep::CopyKernel,
                InstanceStep::CopyKernel => InstanceStep::CopyInitrd,
                _ => InstanceStep::Done,
            }
        },
    }
}

/// The stage reached from `s` after the outcomes `oks`, in order.
pub open spec fn run_instance(s: InstanceStep, oks: Seq<bool>) -> InstanceStep
    decreases oks.len(),
{
    if oks.len() == 0 {
        s
    } else {
        run_instance(next_instance_step(s, oks[0]), oks.drop_first())
    }
}

/// The file a copy stage copies.
pub open spec fn copied_file(s: InstanceStep) -> ImageFile {
    match s {
        InstanceStep::CopyDisk => ImageFile::Disk,
        InstanceStep::CopyKernel => ImageFile::Kernel,
        _ => ImageFile::Initrd,
    }
}

/// `a` is what entering `s` asks for, copying from `template` into `target`.
pub open spec fn instance_action_for(
    a: InstanceAction,
    s: InstanceStep,
    template: Seq<char>,
    target: Seq<char>,
) -> bool {
    match s {
        InstanceStep::CreateDir => a matches InstanceAction::CreateDir(p) && p@ == target,
        InstanceStep::CopyDisk | InstanceStep::CopyKernel | InstanceStep::CopyInitrd => match a {
            InstanceAction::Copy { from, to } => from@ == join(
                template,
                file_name_spec(copied_file(s)),
            ) && to@ == join(target, file_name_spec(copied_file(s))),
            _ => false,
        },
        _ => a is Finish,
    }
}

/// One run of instance provisioning. The template must be present; the
/// caller checks that first, and without it the first copy fails.
pub struct InstanceProvisioning {
    /// The template image directory.
    pub template: String,
    /// The new VM's working directory.
    pub target: String,
    pub step: InstanceStep,
}

impl InstanceProvisioning {
    /// Starts provisioning the VM called `name` under the data root `data`.
    pub fn start(data: &str, name: &str) -> (r: (InstanceProvisioning, InstanceAction))
        ensures
            r.0.template@ == template_dir_spec(data@),
            r.0.target@ == vm_dir_spec(data@, name@),
            r.0.step == InstanceStep::CreateDir,
            instance_action_for(r.1, InstanceStep::CreateDir, r.0.template@, r.0.target@),
    {
        let template = template_dir(data);
        let target = vm_dir(data, name);
        let first = InstanceAction::CreateDir(String::from_str(target.as_str()));
        (InstanceProvisioning { template, target, step: InstanceStep::CreateDir }, first)
    }

    /// Takes whether the last action succeeded and returns the next one.
    pub fn advance(&mut self, ok: bool) -> (a: InstanceAction)
        ensures
            final(self).template == old(self).template,
            final(self).target == old(self).target,
            final(self).step == next_instance_step(old(self).step, ok),
            instance_action_for(a, final(self).step, old(self).template@, old(self).target@),
    {
        let next = match self.step {
            InstanceStep::Done => InstanceStep::Done,
            InstanceStep::Failed => InstanceStep::Failed,
            InstanceStep::CreateDir => if ok {
                InstanceStep::CopyDisk
            } else {
                InstanceStep::Failed
            },
            InstanceStep::CopyDisk => if ok {
                InstanceStep::CopyKernel
            } else {
                InstanceStep::Failed
            },
            InstanceStep::CopyKernel => if ok {
                InstanceStep::CopyInitrd
            } else {
                InstanceStep::Failed
            },
            InstanceStep::CopyInitrd => if ok {
                InstanceStep::Done
            } else {
                InstanceStep::Failed
            },
        };
        self.step = next;
        let file = match next {
            InstanceStep::CopyDisk => ImageFile::Disk,
            InstanceStep::CopyKernel => ImageFile::Kernel,
            InstanceStep::CopyInitrd => ImageFile::Initrd,
            _ => {
                return InstanceAction::Finish;
            },
        };
        InstanceAction::Copy {
            from: file_in(self.template.as_str(), file),
            to: file_in(self.target.as_str(), file),
        }
    }

    /// Whether provisioning finished with every file in place.
    pub fn succeeded(&self) -> (r: bool)
        ensures
            r == (self.step == InstanceStep::Done),
    {
        self.step == InstanceStep::Done
    }
}

proof fn lemma_instance_failed_is_final(oks: Seq<bool>)
    ensures
        run_instance(InstanceStep::Failed, oks) == InstanceStep::Failed,
    decreases oks.len(),
{
    if oks.len() > 0 {
        lemma_instance_failed_is_final(oks.drop_first());
    }
}

proof fn lemma_instance_done_is_final(oks: Seq<bool>)
    ensures
        run_instance(InstanceStep::Done, oks) == InstanceStep::Done,
    decreases oks.len(),
{
    if oks.len() > 0 {
        lemma_instance_done_is_final(oks.drop_first());
    }
}

/// Provisioning is all or nothing: it reports success exactly when the
/// directory was created and all three copies succeeded; one failed copy
/// makes the whole run fail, whatever was copied before it.
pub proof fn lemma_all_or_nothing(oks: Seq<bool>)
    ensures
        (run_instance(InstanceStep::CreateDir, oks) == InstanceStep::Done) <==> (oks.len() >= 4
            && oks[0] && oks[1] && oks[2] && oks[3]),
{
    let s1 = oks.drop_first();
    if oks.len() >= 1 && !oks[0] {
        lemma_instance_failed_is_final(s1);
    } else if oks.len() >= 2 && !oks[1] {
        lemma_instance_failed_is_final(s1.drop_first());
    } else if oks.len() >= 3 && !oks[2] {
        lemma_instance_failed_is_final(s1.drop_first().drop_first());
    } else if oks.len() >= 4 && !oks[3] {
        lemma_instance_failed_is_final(s1.drop_first().drop_first().drop_first());
    } else if oks.len() >= 4 {
        lemma_instance_done_is_final(s1.drop_first().drop_first().drop_first());
    } else {
        assert(oks.len() < 4);
        if oks.len() == 0 {
        } else if oks.len() == 1 {
            assert(run_instance(InstanceStep::CopyDisk, s1) == InstanceStep::CopyDisk);
        } else if oks.len() == 2 {
            assert(run_instance(InstanceStep::CopyKernel, s1.drop_first())
                == InstanceStep::CopyKernel);
        } else {
            assert(run_instance(InstanceStep::CopyInitrd, s1.drop_first().drop_first())
                == InstanceStep::CopyInitrd);
        }
    }
}

} // verus!
