//! The per-VM lifecycle: status values, the command lines of the three host
//! processes a running VM needs, and the start/stop session that drives
//! them in order.

use vstd::prelude::*;
use crate::launcher::{
    argv, exists_check_command, exists_check_spec, host_args, host_argv, host_program,
    host_program_spec, owned, HostMode,
};
use crate::paths::{
    file_in, file_name_spec, join, proxy_socket_path, proxy_socket_spec, vm_dir, vm_dir_spec,
    ImageFile,
};
use crate::protocol::{reply_is_ready, reply_is_ready_spec, RETRY_DELAY_MS};
use crate::text::{decimal, lemma_decimal_injective, push_decimal};

verus! {

/// Status of one VM as shown to its owner.
#[derive(Clone, Copy, Debug, PartialEq, Eq, Structural)]
pub enum VMStatus {
    NotRunning,
    /// A start or stop sequence is in progress.
    InFlux,
    Running,
}

/// Vsock port the guest's control endpoint listens on.
pub const CONTROL_PORT: u64 = 11111;

/// Offset between a registry position and the guest's vsock context id.
pub const CID_OFFSET: u128 = 10;

/// The vsock context id of the VM at registry position `position`.
pub open spec fn cid_spec(position: nat) -> nat {
    (position + CID_OFFSET) as nat
}

pub fn cid_of(position: usize) -> (r: u128)
    ensures
        r == cid_spec(position as nat),
{
    position as u128 + CID_OFFSET
}

/// The network proxy, serving the VM's network over `socket`.
pub open spec fn proxy_command_spec(mode: HostMode, socket: Seq<char>) -> Seq<Seq<char>> {
    host_argv(mode, seq!["passt"@, "-f"@, "--vhost-user"@, "--socket"@, socket])
}

/// The bridge from the local socket `control` to the guest's control port.
pub open spec fn bridge_command_spec(mode: HostMode, control: Seq<char>, cid: nat) -> Seq<
    Seq<char>,
> {
    host_argv(
        mode,
        seq![
            host_program_spec(mode, "socat"@),
            "UNIX-LISTEN:"@ + control + ",fork"@,
            "VSOCK-CONNECT:"@ + decimal(cid) + ":11111"@,
        ],
    )
}

/// The hypervisor running the VM `name` from its directory `dir`.
pub open spec fn hypervisor_command_spec(
    mode: HostMode,
    name: Seq<char>,
    dir: Seq<char>,
    cid: nat,
    display: Seq<char>,
    proxy_socket: Seq<char>,
) -> Seq<Seq<char>> {
    host_argv(
        mode,
        seq![
            host_program_spec(mode, "crosvm"@),
            "run"@,
            "--name"@,
            name,
            "--cpus"@,
            "num-cores=4"@,
            "-m"@,
            "7000"@,
            "--rwdisk"@,
            join(dir, file_name_spec(ImageFile::Disk)),
            "--initrd"@,
            join(dir, file_name_spec(ImageFile::Initrd)),
            "--socket"@,
            join(dir, file_name_spec(ImageFile::Management)),
            "--vsock"@,
            decimal(cid),
            "--gpu"@,
            "context-types=cross-domain,displays=[]"@,
            "--wayland-sock"@,
            display,
            "--vhost-user"@,
            "net,socket="@ + proxy_socket,
            "-p"@,
            "root=/dev/vda2"@,
            join(dir, file_name_spec(ImageFile::Kernel)),
        ],
    )
}

pub fn proxy_command(mode: &HostMode, socket: &str) -> (r: Vec<String>)
    ensures
        argv(r@) == proxy_command_spec(*mode, socket@),
{
    let v: Vec<String> = vec![
        owned("passt"),
        owned("-f"),
        owned("--vhost-user"),
        owned("--socket"),
        owned(socket),
    ];
    assert(argv(v@) =~= seq!["passt"@, "-f"@, "--vhost-user"@, "--socket"@, socket@]);
    host_args(mode, v)
}

pub fn bridge_command(mode: &HostMode, control: &str, cid: u128) -> (r: Vec<String>)
    ensures
        argv(r@) == bridge_command_spec(*mode, control@, cid as nat),
{
    let listen = owned("UNIX-LISTEN:").concat(control).concat(",fork");
    let mut connect = owned("VSOCK-CONNECT:");
    push_decimal(&mut connect, cid);
    connect.append(":11111");
    let v: Vec<String> = vec![host_program(mode, "socat"), listen, connect];
    assert(argv(v@) =~= seq![
        host_program_spec(*mode, "socat"@),
        "UNIX-LISTEN:"@ + control@ + ",fork"@,
        "VSOCK-CONNECT:"@ + decimal(cid as nat) + ":11111"@,
    ]);
    host_args(mode, v)
}

pub fn hypervisor_command(
    mode: &HostMode,
    name: &str,
    dir: &str,
    cid: u128,
    display: &str,
    proxy_socket: &str,
) -> (r: Vec<String>)
    ensures
        argv(r@) == hypervisor_command_spec(
            *mode,
            name@,
            dir@,
            cid as nat,
            display@,
            proxy_socket@,
        ),
{
    let mut cid_text = String::new();
    push_decimal(&mut cid_text, cid);
    assert(cid_text@ =~= decimal(cid as nat));
    let v: Vec<String> = vec![
        host_program(mode, "crosvm"),
        owned("run"),
        owned("--name"),
        owned(name),
        owned("--cpus"),
        owned("num-cores=4"),
        owned("-m"),
        owned("7000"),
        owned("--rwdisk"),
        file_in(dir, ImageFile::Disk),
        owned("--initrd"),
        file_in(dir, ImageFile::Initrd),
        owned("--socket"),
        file_in(dir, ImageFile::Management),
        owned("--vsock"),
        cid_text,
        owned("--gpu"),
        owned("context-types=cross-domain,displays=[]"),
        owned("--wayland-sock"),
        owned(display),
        owned("--vhost-user"),
        owned("net,socket=").concat(proxy_socket),
        owned("-p"),
        owned("root=/dev/vda2"),
        file_in(dir, ImageFile::Kernel),
    ];
    assert(argv(v@) =~= seq![
        host_program_spec(*mode, "crosvm"@),
        "run"@,
        "--name"@,
        name@,
        "--cpus"@,
        "num-cores=4"@,
        "-m"@,
        "7000"@,
        "--rwdisk"@,
        join(dir@, file_name_spec(ImageFile::Disk)),
        "--initrd"@,
        join(dir@, file_name_spec(ImageFile::Initrd)),
        "--socket"@,
        join(dir@, file_name_spec(ImageFile::Management)),
        "--vsock"@,
        decimal(cid as nat),
        "--gpu"@,
        "context-types=cross-domain,displays=[]"@,
        "--wayland-sock"@,
        display@,
        "--vhost-user"@,
        "net,socket="@ + proxy_socket@,
        "-p"@,
        "root=/dev/vda2"@,
        join(dir@, file_name_spec(ImageFile::Kernel)),
    ]);
    host_args(mode, v)
}


/// Everything a start sequence needs, resolved once before it begins.
pub struct StartPlan {
    pub mode: HostMode,
    /// Network proxy command.
    pub proxy: Vec<String>,
    /// Guest-socket bridge command.
    pub bridge: Vec<String>,
    /// Hypervisor command.
    pub hypervisor: Vec<String>,
    /// The network proxy's socket; the hypervisor may start once it exists.
    pub proxy_socket: String,
    /// The local end of the guest's control channel.
    pub control_socket: String,
}

impl StartPlan {
    /// The plan for the VM `name` at registry position `position`, under the
    /// data root `data`, showing its windows through the compositor socket
    /// `display`.
    pub fn new(mode: HostMode, data: &str, name: &str, position: usize, display: &str) -> (r:
        StartPlan)
        ensures
            r.mode == mode,
            r.proxy_socket@ == proxy_socket_spec(name@),
            r.control_socket@ == join(vm_dir_spec(data@, name@), file_name_spec(ImageFile::Control)),
            argv(r.proxy@) == proxy_command_spec(mode, proxy_socket_spec(name@)),
            argv(r.bridge@) == bridge_command_spec(
                mode,
                join(vm_dir_spec(data@, name@), file_name_spec(ImageFile::Control)),
                cid_spec(position as nat),
            ),
            argv(r.hypervisor@) == hypervisor_command_spec(
                mode,
                name@,
                vm_dir_spec(data@, name@),
                cid_spec(position as nat),
                display@,
                proxy_socket_spec(name@),
            ),
    {
        let dir = vm_dir(data, name);
        let cid = cid_of(position);
        let proxy_socket = proxy_socket_path(name);
        let control_socket = file_in(dir.as_str(), ImageFile::Control);
        let proxy = proxy_command(&mode, proxy_socket.as_str());
        let bridge = bridge_command(&mode, control_socket.as_str(), cid);
        let hypervisor = hypervisor_command(
            &mode,
            name,
            dir.as_str(),
            cid,
            display,
            proxy_socket.as_str(),
        );
        StartPlan { mode, proxy, bridge, hypervisor, proxy_socket, control_socket }
    }
}

/// The host processes of a running VM.
#[derive(Clone, Copy, Debug, PartialEq, Eq, Structural)]
pub enum HostProcess {
    Proxy,
    Bridge,
    Hypervisor,
}

/// Stages of a VM session, in order; `Finished` is final.
#[derive(Clone, Copy, Debug, PartialEq, Eq, Structural)]
pub enum SessionPhase {
    SpawnProxy,
    SpawnBridge,
    /// Waiting for the network proxy's socket to appear.
    AwaitProxySocket,
    SpawnHypervisor,
    /// Polling the guest's control channel until it reports ready.
    AwaitReady,
    /// The guest is up; waiting for the hypervisor to exit.
    Running,
    /// Terminating the helper processes and waiting for them.
    StopHelpers,
    Finished,
}

/// Where a session stands.
#[derive(Clone, Copy, Debug, PartialEq, Eq, Structural)]
pub struct SessionState {
    pub phase: SessionPhase,
    pub proxy_started: bool,
    pub bridge_started: bool,
    /// A process could not be started or waited for.
    pub failed: bool,
}

/// A status change a session publishes for its VM.
#[derive(Clone, Copy, Debug, PartialEq, Eq, Structural)]
pub struct StatusUpdate {
    pub status: VMStatus,
    /// The session failed: a host process could not be started or waited
    /// for. Only set together with `NotRunning`.
    pub failed: bool,
}

/// What the caller reports after carrying out an action.
pub enum SessionEvent {
    /// The process was started, or could not be.
    Spawned(bool),
    /// Whether the awaited path exists.
    PathChecked(bool),
    /// The readiness exchange's reply, or `None` if the exchange failed.
    Replied(Option<String>),
    /// The requested delay is over.
    Slept,
    /// The hypervisor process has exited; `false` when waiting for it
    /// failed.
    HypervisorExited(bool),
    /// The helper processes have exited; `false` when waiting for one of
    /// them failed.
    HelpersStopped(bool),
}

/// How to tell whether a path exists.
pub enum ExistsCheck {
    /// Look at the local filesystem.
    Local(String),
    /// Run this host command; it succeeds when the path exists.
    OnHost(Vec<String>),
}

/// What the caller is asked to do next.
pub enum SessionAction {
    /// Start this process with its command from the plan.
    Spawn(HostProcess),
    /// Check whether the network proxy's socket exists.
    CheckExists(ExistsCheck),
    /// Send the readiness request over the control socket.
    ProbeReady,
    /// Wait this many milliseconds.
    Sleep(u64),
    /// Wait for the hypervisor process to exit.
    AwaitHypervisorExit,
    /// Send a termination signal to the helpers started so far, then wait
    /// for them to exit.
    StopHelpers { proxy: bool, bridge: bool },
    /// The session is over.
    Finish,
    /// The event did not belong to this stage; nothing to do.
    Idle,
}

pub open spec fn with_phase(st: SessionState, phase: SessionPhase) -> SessionState {
    SessionState { phase, ..st }
}

/// The check that tells whether `path` exists, in `mode`.
pub open spec fn exists_check_for(c: ExistsCheck, mode: HostMode, path: Seq<char>) -> bool {
    match c {
        ExistsCheck::Local(p) => !mode.is_relayed() && p@ == path,
        ExistsCheck::OnHost(v) => mode.is_relayed() && argv(v@) == exists_check_spec(mode, path),
    }
}

/// Whether `e` is an outcome that stage `phase` waits for.
pub open spec fn expected(phase: SessionPhase, e: SessionEvent) -> bool {
    match phase {
        SessionPhase::SpawnProxy | SessionPhase::SpawnBridge | SessionPhase::SpawnHypervisor => e is Spawned,
        SessionPhase::AwaitProxySocket => e is PathChecked || e is Slept,
        SessionPhase::AwaitReady => e is Replied || e is Slept,
        SessionPhase::Running => e is HypervisorExited,
        SessionPhase::StopHelpers => e is HelpersStopped,
        SessionPhase::Finished => false,
    }
}

/// Whether `e` is a readiness reply that reports the guest ready.
pub open spec fn ready_reply(e: SessionEvent) -> bool {
    match e {
        SessionEvent::Replied(Some(t)) => reply_is_ready_spec(t@),
        _ => false,
    }
}

/// The state that follows `st` when `e` is reported.
pub open spec fn next_session(st: SessionState, e: SessionEvent) -> SessionState {
    if !expected(st.phase, e) {
        st
    } else {
        match st.phase {
            SessionPhase::SpawnProxy => if e == SessionEvent::Spawned(true) {
                SessionState { phase: SessionPhase::SpawnBridge, proxy_started: true, ..st }
            } else {
                SessionState { phase: SessionPhase::StopHelpers, failed: true, ..st }
            },
            SessionPhase::SpawnBridge => if e == SessionEvent::Spawned(true) {
                SessionState { phase: SessionPhase::AwaitProxySocket, bridge_started: true, ..st }
            } else {
                SessionState { phase: SessionPhase::StopHelpers, failed: true, ..st }
            },
            SessionPhase::AwaitProxySocket => if e == SessionEvent::PathChecked(true) {
                with_phase(st, SessionPhase::SpawnHypervisor)
            } else {
                st
            },
            SessionPhase::SpawnHypervisor => if e == SessionEvent::Spawned(true) {
                with_phase(st, SessionPhase::AwaitReady)
            } else {
                SessionState { phase: SessionPhase::StopHelpers, failed: true, ..st }
            },
            SessionPhase::AwaitReady => if ready_reply(e) {
                with_phase(st, SessionPhase::Running)
            } else {
                st
            },
            SessionPhase::Running => SessionState {
                phase: SessionPhase::StopHelpers,
                failed: st.failed || e == SessionEvent::HypervisorExited(false),
                ..st
            },
            _ => SessionState {
                phase: SessionPhase::Finished,
                failed: st.failed || e == SessionEvent::HelpersStopped(false),
                ..st
            },
        }
    }
}

/// The update published when `st` moves on by `e`: `Running` on entering
/// `Running`; `NotRunning` on entering `Finished`, carrying whether the
/// session failed.
pub open spec fn published(st: SessionState, e: SessionEvent) -> Option<StatusUpdate> {
    let n = next_session(st, e);
    if n.phase != st.phase && n.phase == SessionPhase::Running {
        Some(StatusUpdate { status: VMStatus::Running, failed: false })
    } else if n.phase != st.phase && n.phase == SessionPhase::Finished {
        Some(StatusUpdate { status: VMStatus::NotRunning, failed: n.failed })
    } else {
        None
    }
}

/// `a` is the action asked for when `st` moves on by `e`, in `mode`, where
/// the network proxy's socket is `proxy_socket`.
pub open spec fn session_action_for(
    a: SessionAction,
    st: SessionState,
    e: SessionEvent,
    mode: HostMode,
    proxy_socket: Seq<char>,
) -> bool {
    let n = next_session(st, e);
    if !expected(st.phase, e) {
        a is Idle
    } else {
        match n.phase {
            SessionPhase::SpawnProxy => a == SessionAction::Spawn(HostProcess::Proxy),
            SessionPhase::SpawnBridge => a == SessionAction::Spawn(HostProcess::Bridge),
            SessionPhase::AwaitProxySocket => if e is PathChecked {
                a == SessionAction::Sleep(RETRY_DELAY_MS)
            } else {
                a matches SessionAction::CheckExists(c) && exists_check_for(c, mode, proxy_socket)
            },
            SessionPhase::SpawnHypervisor => a == SessionAction::Spawn(HostProcess::Hypervisor),
            SessionPhase::AwaitReady => if e is Replied {
                a == SessionAction::Sleep(RETRY_DELAY_MS)
            } else {
                a is ProbeReady
            },
            SessionPhase::Running => a is AwaitHypervisorExit,
            SessionPhase::StopHelpers => a == SessionAction::StopHelpers {
                proxy: n.proxy_started,
                bridge: n.bridge_started,
            },
            SessionPhase::Finished => a is Finish,
        }
    }
}

/// The start/stop sequence of one VM, from the first process start to the
/// last process exit.
pub struct Session {
    pub plan: StartPlan,
    pub state: SessionState,
}

/// The state a session starts in.
pub open spec fn initial_session() -> SessionState {
    SessionState {
        phase: SessionPhase::SpawnProxy,
        proxy_started: false,
        bridge_started: false,
        failed: false,
    }
}

impl Session {
    /// Begins the start sequence; the first action starts the network proxy.
    pub fn start(plan: StartPlan) -> (r: (Session, SessionAction))
        ensures
            r.0.plan == plan,
            r.0.state == initial_session(),
            r.1 == SessionAction::Spawn(HostProcess::Proxy),
    {
        let state = SessionState {
            phase: SessionPhase::SpawnProxy,
            proxy_started: false,
            bridge_started: false,
            failed: false,
        };
        (Session { plan, state }, SessionAction::Spawn(HostProcess::Proxy))
    }

    /// The check for the network proxy's socket.
    fn proxy_socket_check(&self) -> (c: ExistsCheck)
        ensures
            exists_check_for(c, self.plan.mode, self.plan.proxy_socket@),
    {
        match &self.plan.mode {
            HostMode::Direct => ExistsCheck::Local(owned(self.plan.proxy_socket.as_str())),
            HostMode::Relayed { .. } => ExistsCheck::OnHost(
                exists_check_command(&self.plan.mode, self.plan.proxy_socket.as_str()),
            ),
        }
    }

    /// Takes the outcome of the last action; returns the status to publish,
    /// if any, and the next action.
    pub fn handle(&mut self, e: SessionEvent) -> (r: (Option<StatusUpdate>, SessionAction))
        ensures
            final(self).plan == old(self).plan,
            final(self).state == next_session(old(self).state, e),
            r.0 == published(old(self).state, e),
            session_action_for(r.1, old(self).state, e, old(self).plan.mode, old(self).plan.proxy_socket@),
    {
        let st = self.state;
        match (st.phase, &e) {
            (SessionPhase::SpawnProxy, SessionEvent::Spawned(true)) => {
                self.state = SessionState { phase: SessionPhase::SpawnBridge, proxy_started: true, ..st };
                (None, SessionAction::Spawn(HostProcess::Bridge))
            },
            (SessionPhase::SpawnBridge, SessionEvent::Spawned(true)) => {
                self.state = SessionState { phase: SessionPhase::AwaitProxySocket, bridge_started: true, ..st };
                (None, SessionAction::CheckExists(self.proxy_socket_check()))
            },
            (SessionPhase::SpawnHypervisor, SessionEvent::Spawned(true)) => {
                self.state = SessionState { phase: SessionPhase::AwaitReady, ..st };
                (None, SessionAction::ProbeReady)
            },
            (SessionPhase::SpawnProxy, SessionEvent::Spawned(false))
            | (SessionPhase::SpawnBridge, SessionEvent::Spawned(false))
            | (SessionPhase::SpawnHypervisor, SessionEvent::Spawned(false)) => {
                self.state = SessionState { phase: SessionPhase::StopHelpers, failed: true, ..st };
                (None, SessionAction::StopHelpers { proxy: st.proxy_started, bridge: st.bridge_started })
            },
            (SessionPhase::AwaitProxySocket, SessionEvent::PathChecked(true)) => {
                self.state = SessionState { phase: SessionPhase::SpawnHypervisor, ..st };
                (None, SessionAction::Spawn(HostProcess::Hypervisor))
            },
            (SessionPhase::AwaitProxySocket, SessionEvent::PathChecked(false)) => {
                (None, SessionAction::Sleep(RETRY_DELAY_MS))
            },
            (SessionPhase::AwaitProxySocket, SessionEvent::Slept) => {
                (None, SessionAction::CheckExists(self.proxy_socket_check()))
            },
            (SessionPhase::AwaitReady, SessionEvent::Replied(reply)) => {
                let ready = match reply {
                    Some(t) => reply_is_ready(t.as_str()),
                    None => false,
                };
                if ready {
                    self.state = SessionState { phase: SessionPhase::Running, ..st };
                    (
                        Some(StatusUpdate { status: VMStatus::Running, failed: false }),
                        SessionAction::AwaitHypervisorExit,
                    )
                } else {
                    (None, SessionAction::Sleep(RETRY_DELAY_MS))
                }
            },
            (SessionPhase::AwaitReady, SessionEvent::Slept) => (None, SessionAction::ProbeReady),
            (SessionPhase::Running, SessionEvent::HypervisorExited(ok)) => {
                self.state = SessionState {
                    phase: SessionPhase::StopHelpers,
                    failed: st.failed || !*ok,
                    ..st
                };
                (None, SessionAction::StopHelpers { proxy: st.proxy_started, bridge: st.bridge_started })
            },
            (SessionPhase::StopHelpers, SessionEvent::HelpersStopped(ok)) => {
                let failed = st.failed || !*ok;
                self.state = SessionState { phase: SessionPhase::Finished, failed, ..st };
                (Some(StatusUpdate { status: VMStatus::NotRunning, failed }), SessionAction::Finish)
            },
            _ => (None, SessionAction::Idle),
        }
    }
}


/// The state reached from `st` after the events `es`, in order.
pub open spec fn run_session(st: SessionState, es: Seq<SessionEvent>) -> SessionState
    decreases es.len(),
{
    if es.len() == 0 {
        st
    } else {
        run_session(next_session(st, es[0]), es.drop_first())
    }
}

/// Stages before the guest has been seen ready.
pub open spec fn before_running(phase: SessionPhase) -> bool {
    match phase {
        SessionPhase::Running | SessionPhase::StopHelpers | SessionPhase::Finished => false,
        _ => true,
    }
}

proof fn lemma_winding_down_stays(st: SessionState, es: Seq<SessionEvent>)
    requires
        st.phase == SessionPhase::StopHelpers || st.phase == SessionPhase::Finished,
    ensures
        run_session(st, es).phase != SessionPhase::Running,
    decreases es.len(),
{
    if es.len() > 0 {
        lemma_winding_down_stays(next_session(st, es[0]), es.drop_first());
    }
}

proof fn lemma_running_needs_ready_reply(st: SessionState, es: Seq<SessionEvent>)
    requires
        before_running(st.phase),
        run_session(st, es).phase == SessionPhase::Running,
    ensures
        exists|i: int| 0 <= i < es.len() && ready_reply(#[trigger] es[i]),
    decreases es.len(),
{
    if es.len() == 0 {
    } else if ready_reply(es[0]) {
        assert(ready_reply(es[0]));
    } else {
        let n = next_session(st, es[0]);
        if n.phase == SessionPhase::StopHelpers {
            lemma_winding_down_stays(n, es.drop_first());
        } else {
            lemma_running_needs_ready_reply(n, es.drop_first());
            let i = choose|i: int| 0 <= i < es.drop_first().len() && ready_reply(
                #[trigger] es.drop_first()[i],
            );
            assert(es[i + 1] == es.drop_first()[i]);
        }
    }
}

/// A VM is reported `Running` only once its control channel has answered
/// the readiness request with a reply containing `200`: the one step that
/// publishes `Running` is such a reply, and no run of events from the start
/// of a session reaches `Running` without one.
pub proof fn lemma_running_only_after_ready(
    st: SessionState,
    e: SessionEvent,
    es: Seq<SessionEvent>,
)
    ensures
        published(st, e) matches Some(u) && u.status == VMStatus::Running ==> st.phase == SessionPhase::AwaitReady
            && ready_reply(e),
        run_session(initial_session(), es).phase == SessionPhase::Running ==> exists|i: int|
            0 <= i < es.len() && ready_reply(#[trigger] es[i]),
{
    if run_session(initial_session(), es).phase == SessionPhase::Running {
        lemma_running_needs_ready_reply(initial_session(), es);
    }
}


/// The statuses published by a session in state `st` over the events `es`,
/// in order.
pub open spec fn publications(st: SessionState, es: Seq<SessionEvent>) -> Seq<VMStatus>
    decreases es.len(),
{
    if es.len() == 0 {
        seq![]
    } else {
        let head = match published(st, es[0]) {
            Some(u) => seq![u.status],
            None => seq![],
        };
        head + publications(next_session(st, es[0]), es.drop_first())
    }
}

/// The publication sequences a session can still produce from `phase`.
pub open spec fn allowed_publications(phase: SessionPhase, p: Seq<VMStatus>) -> bool {
    if before_running(phase) {
        p.len() == 0 || p == seq![VMStatus::Running] || p == seq![
            VMStatus::Running,
            VMStatus::NotRunning,
        ] || p == seq![VMStatus::NotRunning]
    } else if phase == SessionPhase::Finished {
        p.len() == 0
    } else {
        p.len() == 0 || p == seq![VMStatus::NotRunning]
    }
}

proof fn lemma_publications_allowed(st: SessionState, es: Seq<SessionEvent>)
    ensures
        allowed_publications(st.phase, publications(st, es)),
    decreases es.len(),
{
    if es.len() > 0 {
        let n = next_session(st, es[0]);
        lemma_publications_allowed(n, es.drop_first());
        let rest = publications(n, es.drop_first());
        match published(st, es[0]) {
            Some(u) => {
                assert(publications(st, es) == seq![u.status] + rest);
                assert(seq![VMStatus::Running] + seq![VMStatus::NotRunning] =~= seq![
                    VMStatus::Running,
                    VMStatus::NotRunning,
                ]);
                assert(seq![u.status] + Seq::<VMStatus>::empty() =~= seq![u.status]);
            },
            None => {
                assert(publications(st, es) =~= rest);
            },
        }
    }
}

/// Over a whole session the published statuses come in lifecycle order:
/// after the `InFlux` that the toggle sets, a session publishes `Running`
/// at most once, then `NotRunning` at most once and last; a start that
/// fails publishes `NotRunning` alone. A session never publishes `InFlux`.
pub proof fn lemma_publication_order(es: Seq<SessionEvent>)
    ensures
        publications(initial_session(), es).len() == 0 || publications(initial_session(), es)
            == seq![VMStatus::Running] || publications(initial_session(), es) == seq![
            VMStatus::Running,
            VMStatus::NotRunning,
        ] || publications(initial_session(), es) == seq![VMStatus::NotRunning],
{
    lemma_publications_allowed(initial_session(), es);
}

/// Context ids depend on the registry position alone: the VM at position
/// `i` gets `i + 10`, and VMs at different positions get different ids,
/// rendered differently on the hypervisor's `--vsock` argument and in the
/// bridge's vsock address.
pub proof fn lemma_cids_distinct(mode: HostMode, control: Seq<char>, i: nat, j: nat)
    ensures
        cid_spec(i) == i + 10,
        bridge_command_spec(mode, control, cid_spec(i)).last() == "VSOCK-CONNECT:"@ + decimal(
            cid_spec(i),
        ) + ":11111"@,
        i != j ==> cid_spec(i) != cid_spec(j),
        i != j ==> decimal(cid_spec(i)) != decimal(cid_spec(j)),
        i != j ==> "VSOCK-CONNECT:"@ + decimal(cid_spec(i)) + ":11111"@ != "VSOCK-CONNECT:"@
            + decimal(cid_spec(j)) + ":11111"@,
{
    let p = "VSOCK-CONNECT:"@;
    let q = ":11111"@;
    let x = decimal(cid_spec(i));
    let y = decimal(cid_spec(j));
    if i != j {
        if x == y {
            lemma_decimal_injective(cid_spec(i), cid_spec(j));
        }
        if p + x + q == p + y + q {
            assert((p + x + q).len() == p.len() + x.len() + q.len());
            assert((p + y + q).len() == p.len() + y.len() + q.len());
            assert(x.len() == y.len());
            assert((p + x + q).subrange(p.len() as int, (p.len() + x.len()) as int) =~= x);
            assert((p + y + q).subrange(p.len() as int, (p.len() + y.len()) as int) =~= y);
            lemma_decimal_injective(cid_spec(i), cid_spec(j));
        }
    }
}

} // verus!
