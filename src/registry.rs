//! The ordered registry of known VMs. A VM's position fixes its vsock
//! context id, so positions of VMs that are not stopped never move.

use vstd::prelude::*;
use crate::lifecycle::{cid_of, cid_spec, StatusUpdate, VMStatus};
use crate::launcher::argv;

verus! {

/// A known VM: its name (also its directory's name), its status, and
/// whether its last session failed.
pub struct VM {
    pub name: String,
    pub status: VMStatus,
    pub failed: bool,
}

/// An entry as the registry's contracts see it: name, status, and whether
/// the last session failed.
pub type Entry = (Seq<char>, VMStatus, bool);

/// What a power toggle asks for.
#[derive(Clone, Copy, Debug, PartialEq, Eq, Structural)]
pub enum Toggle {
    /// The VM was stopped and is now `InFlux`: run its start sequence.
    Start,
    /// The VM is running or busy: ask the guest to shut down. Its status
    /// changes only when the running session ends.
    RequestShutdown,
}

/// Whether `status` is anything but stopped.
pub open spec fn is_active(status: VMStatus) -> bool {
    status != VMStatus::NotRunning
}

/// The entries of a fresh listing of `names`, all stopped.
pub open spec fn listed(names: Seq<Seq<char>>) -> Seq<Entry> {
    Seq::new(names.len(), |j: int| (names[j], VMStatus::NotRunning, false))
}

/// Whether replacing `entries` by a listing of `names` keeps every active
/// VM at its position.
pub open spec fn keeps_active(entries: Seq<Entry>, names: Seq<Seq<char>>) -> bool {
    forall|i: int|
        0 <= i < entries.len() && is_active(#[trigger] entries[i].1) ==> i < names.len()
            && names[i] == entries[i].0
}

/// The entries after replacing `entries` by a listing of `names`: a VM
/// listed at the same position keeps its status and failure flag, every
/// other is stopped.
pub open spec fn relisted(entries: Seq<Entry>, names: Seq<Seq<char>>) -> Seq<Entry> {
    Seq::new(
        names.len(),
        |j: int|
            if j < entries.len() && entries[j].0 == names[j] {
                entries[j]
            } else {
                (names[j], VMStatus::NotRunning, false)
            },
    )
}

/// The ordered collection of known VMs.
pub struct Registry {
    vms: Vec<VM>,
}

impl View for Registry {
    type V = Seq<Entry>;

    closed spec fn view(&self) -> Seq<Entry> {
        self.vms@.map_values(|v: VM| (v.name@, v.status, v.failed))
    }
}

impl Registry {
    /// A registry of the VMs called `names`, in that order, all stopped.
    pub fn from_names(names: &Vec<String>) -> (r: Registry)
        ensures
            r@ == listed(argv(names@)),
    {
        let mut vms: Vec<VM> = Vec::new();
        let mut j: usize = 0;
        while j < names.len()
            invariant
                j <= names.len(),
                vms@.len() == j,
                forall|k: int|
                    0 <= k < j ==> (#[trigger] vms@[k]).name@ == names@[k]@ && vms@[k].status
                        == VMStatus::NotRunning && !vms@[k].failed,
            decreases names.len() - j,
        {
            vms.push(VM { name: names[j].clone(), status: VMStatus::NotRunning, failed: false });
            j = j + 1;
        }
        let r = Registry { vms };
        assert(r@ =~= listed(argv(names@)));
        r
    }

    pub fn len(&self) -> (n: usize)
        ensures
            n == self@.len(),
    {
        self.vms.len()
    }

    /// Name of the VM at `i`.
    pub fn name(&self, i: usize) -> (r: &str)
        requires
            i < self@.len(),
        ensures
            r@ == self@[i as int].0,
    {
        self.vms[i].name.as_str()
    }

    /// Status of the VM at `i`.
    pub fn status(&self, i: usize) -> (r: VMStatus)
        requires
            i < self@.len(),
        ensures
            r == self@[i as int].1,
    {
        self.vms[i].status
    }

    /// The vsock context id of the VM at `i`.
    pub fn cid(&self, i: usize) -> (r: u128)
        requires
            i < self@.len(),
        ensures
            r == cid_spec(i as nat),
    {
        cid_of(i)
    }

    /// Whether the last session of the VM at `i` failed.
    pub fn failed(&self, i: usize) -> (r: bool)
        requires
            i < self@.len(),
        ensures
            r == self@[i as int].2,
    {
        self.vms[i].failed
    }

    /// Appends a stopped VM called `name`.
    pub fn push(&mut self, name: String)
        ensures
            final(self)@ == old(self)@.push((name@, VMStatus::NotRunning, false)),
    {
        self.vms.push(VM { name, status: VMStatus::NotRunning, failed: false });
        assert(self@ =~= old(self)@.push((name@, VMStatus::NotRunning, false)));
    }

    /// Records the update a session published for the VM at `i`; `false`,
    /// changing nothing, when there is no VM at `i`.
    pub fn apply_update(&mut self, i: usize, u: StatusUpdate) -> (r: bool)
        ensures
            r == (i < old(self)@.len()),
            r ==> final(self)@ == old(self)@.update(
                i as int,
                (old(self)@[i as int].0, u.status, u.failed),
            ),
            !r ==> final(self)@ == old(self)@,
    {
        if i >= self.vms.len() {
            return false;
        }
        let name = self.vms[i].name.clone();
        self.vms.set(i, VM { name, status: u.status, failed: u.failed });
        assert(self@ =~= old(self)@.update(i as int, (old(self)@[i as int].0, u.status, u.failed)));
        true
    }

    /// The power toggle of the VM at `i`: a stopped VM turns `InFlux` at
    /// once, its last failure forgotten, and is to be started; any other is asked to shut down and keeps
    /// its status. `None`, changing nothing, when there is no VM at `i`.
    pub fn toggle(&mut self, i: usize) -> (r: Option<Toggle>)
        ensures
            i >= old(self)@.len() ==> r is None && final(self)@ == old(self)@,
            i < old(self)@.len() && old(self)@[i as int].1 == VMStatus::NotRunning ==> r == Some(
                Toggle::Start,
            ) && final(self)@ == old(self)@.update(
                i as int,
                (old(self)@[i as int].0, VMStatus::InFlux, false),
            ),
            i < old(self)@.len() && old(self)@[i as int].1 != VMStatus::NotRunning ==> r == Some(
                Toggle::RequestShutdown,
            ) && final(self)@ == old(self)@,
    {
        if i >= self.vms.len() {
            return None;
        }
        match self.vms[i].status {
            VMStatus::NotRunning => {
                self.apply_update(i, StatusUpdate { status: VMStatus::InFlux, failed: false });
                Some(Toggle::Start)
            },
            _ => Some(Toggle::RequestShutdown),
        }
    }

    /// Whether any VM is not stopped.
    pub fn any_active(&self) -> (r: bool)
        ensures
            r == exists|i: int| 0 <= i < self@.len() && is_active(#[trigger] self@[i].1),
    {
        let mut j: usize = 0;
        while j < self.vms.len()
            invariant
                j <= self.vms@.len(),
                forall|k: int| 0 <= k < j ==> !is_active(#[trigger] self@[k].1),
            decreases self.vms@.len() - j,
        {
            if self.vms[j].status != VMStatus::NotRunning {
                assert(is_active(self@[j as int].1));
                return true;
            }
            j = j + 1;
        }
        false
    }

    /// Replaces the registry by a fresh listing of `names`, unless that
    /// would move a VM that is not stopped (its context id is in use); then
    /// nothing changes and the result is `false`.
    pub fn replace_all(&mut self, names: &Vec<String>) -> (r: bool)
        ensures
            r == keeps_active(old(self)@, argv(names@)),
            r ==> final(self)@ == relisted(old(self)@, argv(names@)),
            !r ==> final(self)@ == old(self)@,
    {
        let ghost old_view = self@;
        let mut i: usize = 0;
        while i < self.vms.len()
            invariant
                self@ == old_view,
                i <= self.vms@.len(),
                forall|k: int|
                    0 <= k < i && is_active(#[trigger] old_view[k].1) ==> k < names@.len()
                        && names@[k]@ == old_view[k].0,
            decreases self.vms@.len() - i,
        {
            if self.vms[i].status != VMStatus::NotRunning {
                if i >= names.len() || self.vms[i].name != names[i] {
                    assert(is_active(old_view[i as int].1));
                    assert(!keeps_active(old_view, argv(names@)));
                    return false;
                }
            }
            i = i + 1;
        }
        assert(keeps_active(old_view, argv(names@)));
        let mut vms: Vec<VM> = Vec::new();
        let mut j: usize = 0;
        while j < names.len()
            invariant
                self@ == old_view,
                j <= names@.len(),
                vms@.len() == j,
                forall|k: int|
                    0 <= k < j ==> ((#[trigger] vms@[k]).name@, vms@[k].status, vms@[k].failed)
                        == relisted(
                        old_view,
                        argv(names@),
                    )[k],
            decreases names.len() - j,
        {
            let (status, failed) = if j < self.vms.len() && self.vms[j].name == names[j] {
                (self.vms[j].status, self.vms[j].failed)
            } else {
                (VMStatus::NotRunning, false)
            };
            vms.push(VM { name: names[j].clone(), status, failed });
            j = j + 1;
        }
        self.vms = vms;
        assert(self@ =~= relisted(old_view, argv(names@)));
        true
    }
}

} // verus!
