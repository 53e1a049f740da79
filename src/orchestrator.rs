//! The orchestrator's own state: the registry, the template image's status
//! and whether an instance is being created. Every change goes through one
//! owner, which takes the messages below in turn.

use vstd::prelude::*;
use crate::image::{probe_status, probed_status, ImageStatus};
use crate::launcher::argv;
use crate::lifecycle::{StatusUpdate, VMStatus};
use crate::registry::{is_active, keeps_active, listed, relisted, Registry, Toggle};

verus! {

pub struct Orchestrator {
    pub registry: Registry,
    pub image_status: ImageStatus,
    /// An instance is being provisioned.
    pub creating: bool,
}

impl Orchestrator {
    /// The state at start-up, from the template probe and the listing of VM
    /// directories.
    pub fn new(template_exists: bool, names: &Vec<String>) -> (r: Orchestrator)
        ensures
            r.registry@ == listed(argv(names@)),
            r.image_status == probed_status(template_exists),
            !r.creating,
    {
        Orchestrator {
            registry: Registry::from_names(names),
            image_status: probe_status(template_exists),
            creating: false,
        }
    }

    /// Whether a new instance may be created now: none is being created
    /// and the template is present.
    pub fn can_create(&self) -> (r: bool)
        ensures
            r == (!self.creating && self.image_status == ImageStatus::Present),
    {
        !self.creating && self.image_status == ImageStatus::Present
    }

    /// An instance is being created. The caller decides when to offer
    /// creation (see `can_create`); a run without a present template fails
    /// at its first copy.
    pub fn begin_create(&mut self)
        ensures
            final(self).creating,
            final(self).image_status == old(self).image_status,
            final(self).registry@ == old(self).registry@,
    {
        self.creating = true;
    }

    /// Instance creation is over; the VM directories now are `names`.
    /// Returns whether the registry took the new listing (see
    /// `Registry::replace_all`).
    pub fn finish_create(&mut self, names: &Vec<String>) -> (r: bool)
        ensures
            !final(self).creating,
            final(self).image_status == old(self).image_status,
            r == keeps_active(old(self).registry@, argv(names@)),
            r ==> final(self).registry@ == relisted(old(self).registry@, argv(names@)),
            !r ==> final(self).registry@ == old(self).registry@,
    {
        self.creating = false;
        self.registry.replace_all(names)
    }

    /// Starts provisioning the template unless that is under way already.
    pub fn begin_download(&mut self) -> (r: bool)
        ensures
            r == (old(self).image_status != ImageStatus::Downloading),
            final(self).image_status == ImageStatus::Downloading,
            final(self).creating == old(self).creating,
            final(self).registry@ == old(self).registry@,
    {
        if self.image_status == ImageStatus::Downloading {
            false
        } else {
            self.image_status = ImageStatus::Downloading;
            true
        }
    }

    /// Template provisioning is over, successfully or not: the status is
    /// whatever the probe finds.
    pub fn finish_download(&mut self, template_exists: bool)
        ensures
            final(self).image_status == probed_status(template_exists),
            final(self).creating == old(self).creating,
            final(self).registry@ == old(self).registry@,
    {
        self.image_status = probe_status(template_exists);
    }

    /// A session published `u` for the VM at position `i`.
    pub fn status_update(&mut self, i: usize, u: StatusUpdate) -> (r: bool)
        ensures
            r == (i < old(self).registry@.len()),
            r ==> final(self).registry@ == old(self).registry@.update(
                i as int,
                (old(self).registry@[i as int].0, u.status, u.failed),
            ),
            !r ==> final(self).registry@ == old(self).registry@,
            final(self).image_status == old(self).image_status,
            final(self).creating == old(self).creating,
    {
        self.registry.apply_update(i, u)
    }

    /// The power toggle of the VM at position `i` (see `Registry::toggle`).
    pub fn toggle(&mut self, i: usize) -> (r: Option<Toggle>)
        ensures
            i >= old(self).registry@.len() ==> r is None
                && final(self).registry@ == old(self).registry@,
            i < old(self).registry@.len() && old(self).registry@[i as int].1 == VMStatus::NotRunning
                ==> r == Some(Toggle::Start) && final(self).registry@ == old(self).registry@.update(
                i as int,
                (old(self).registry@[i as int].0, VMStatus::InFlux, false),
            ),
            i < old(self).registry@.len() && old(self).registry@[i as int].1
                != VMStatus::NotRunning ==> r == Some(Toggle::RequestShutdown)
                && final(self).registry@ == old(self).registry@,
            final(self).image_status == old(self).image_status,
            final(self).creating == old(self).creating,
    {
        self.registry.toggle(i)
    }

    /// Whether the application may quit: no download, no instance creation
    /// and no VM that is not stopped.
    pub fn may_close(&self) -> (r: bool)
        ensures
            r == (self.image_status != ImageStatus::Downloading && !self.creating && !(exists|i: int|
                0 <= i < self.registry@.len() && is_active(#[trigger] self.registry@[i].1))),
    {
        self.image_status != ImageStatus::Downloading && !self.creating
            && !self.registry.any_active()
    }
}

} // verus!
