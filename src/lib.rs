//! Lifecycle orchestration for lightweight virtual machines ("bubbles"):
//! filesystem layout, host command lines, the guest control protocol, the
//! image and instance provisioning pipelines, the per-VM start/stop state
//! machine, and the registry of known VMs.
//!
//! Everything here is pure: the caller performs the I/O each step asks for
//! and feeds the outcome back.

pub mod text;
pub mod paths;
pub mod launcher;
pub mod protocol;
pub mod image;
pub mod instance;
pub mod lifecycle;
pub mod registry;
pub mod orchestrator;
