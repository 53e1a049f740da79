//! Resolution of host command lines. Run directly, a command's argument
//! vector is used as given; run from inside the application sandbox, every
//! host-bound command is relayed into the host, and helper programs that
//! ship with the application are addressed by their host-side path.

use vstd::prelude::*;
use crate::paths::{host_bin, host_bin_spec};
use crate::text::{decimal, push_decimal};

verus! {

/// How commands reach the host. Chosen once at start-up.
#[derive(Clone, Debug)]
pub enum HostMode {
    /// Not confined: commands run as given.
    Direct,
    /// Confined to the sandbox: commands are relayed into the host.
    Relayed {
        /// The user's numeric id, for the host's runtime directory.
        uid: u32,
        /// Host path of the installation, from the sandbox manifest.
        app_path: Option<String>,
    },
}

impl HostMode {
    pub open spec fn is_relayed(&self) -> bool {
        self is Relayed
    }

    pub open spec fn app_path_view(&self) -> Option<Seq<char>> {
        match self {
            HostMode::Relayed { app_path: Some(p), .. } => Some(p@),
            _ => None,
        }
    }
}

/// The character sequences of an argument vector.
pub open spec fn argv(v: Seq<String>) -> Seq<Seq<char>> {
    v.map_values(|s: String| s@)
}

/// The words put in front of a relayed command.
pub open spec fn relay_prefix(uid: nat) -> Seq<Seq<char>> {
    seq![
        "flatpak-spawn"@,
        "--host"@,
        "--env=XDG_RUNTIME_DIR=/run/user/"@ + decimal(uid),
    ]
}

/// The argument vector that runs `args` on the host.
pub open spec fn host_argv(mode: HostMode, args: Seq<Seq<char>>) -> Seq<Seq<char>> {
    match mode {
        HostMode::Direct => args,
        HostMode::Relayed { uid, .. } => relay_prefix(uid as nat) + args,
    }
}

/// An owned copy of `s`.
pub fn owned(s: &str) -> (r: String)
    ensures
        r@ == s@,
{
    String::from_str(s)
}

/// Wraps `args` so that it runs on the host.
pub fn host_args(mode: &HostMode, args: Vec<String>) -> (r: Vec<String>)
    ensures
        argv(r@) == host_argv(*mode, argv(args@)),
{
    match mode {
        HostMode::Direct => args,
        HostMode::Relayed { uid, .. } => {
            let mut env = owned("--env=XDG_RUNTIME_DIR=/run/user/");
            push_decimal(&mut env, *uid as u128);
            let mut v: Vec<String> = vec![owned("flatpak-spawn"), owned("--host"), env];
            let mut rest = args;
            let ghost prefix = v@;
            let ghost tail = rest@;
            v.append(&mut rest);
            assert(v@ == prefix + tail);
            assert(argv(v@) =~= relay_prefix(*uid as nat) + argv(tail));
            v
        },
    }
}

/// Host path of a helper program installed with the application.
pub open spec fn host_program_spec(mode: HostMode, name: Seq<char>) -> Seq<char> {
    if mode.is_relayed() {
        host_bin_spec(mode.app_path_view(), name)
    } else {
        name
    }
}

pub fn host_program(mode: &HostMode, name: &str) -> (r: String)
    ensures
        r@ == host_program_spec(*mode, name@),
{
    match mode {
        HostMode::Direct => owned(name),
        HostMode::Relayed { app_path, .. } => match app_path {
            Some(p) => host_bin(Some(p.as_str()), name),
            None => host_bin(None, name),
        },
    }
}

/// Path of a program that runs inside the sandbox itself: bundled under
/// `/app/bin` when confined, found through the search path otherwise.
pub open spec fn bundled_program_spec(mode: HostMode, name: Seq<char>) -> Seq<char> {
    if mode.is_relayed() {
        "/app/bin/"@ + name
    } else {
        name
    }
}

pub fn bundled_program(mode: &HostMode, name: &str) -> (r: String)
    ensures
        r@ == bundled_program_spec(*mode, name@),
{
    match mode {
        HostMode::Direct => owned(name),
        HostMode::Relayed { .. } => owned("/app/bin/").concat(name),
    }
}

/// The host command whose success tells that `path` exists on the host.
pub open spec fn exists_check_spec(mode: HostMode, path: Seq<char>) -> Seq<Seq<char>> {
    host_argv(mode, seq!["test"@, "-e"@, path])
}

pub fn exists_check_command(mode: &HostMode, path: &str) -> (r: Vec<String>)
    ensures
        argv(r@) == exists_check_spec(*mode, path@),
{
    let v: Vec<String> = vec![owned("test"), owned("-e"), owned(path)];
    assert(argv(v@) =~= seq!["test"@, "-e"@, path@]);
    host_args(mode, v)
}

} // verus!
