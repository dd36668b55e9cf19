//! The process supervisor: signalling the external hypervisor, parsing its
//! pid file, verifying that a pid belongs to the expected hypervisor, and
//! computing the control-socket request for each in-guest operation.
//!
//! The supervisor is stateless: a VM's identity at runtime is the pair of
//! pid and control-socket path. Spawning, waiting and polling happen outside
//! the library; this module decides, checks and computes.

use vstd::prelude::*;
use crate::decimal::{all_digits, dec_value, i64_to_string, parse_pid, trimmed};
use crate::error::{ErrorView, HypervisorError};
use crate::qemu_config::{QemuConfig, QemuConfigView};
use crate::qmp::{request_line_spec, QmpCommand, QmpRequest};
use crate::strutil::{contains_seq, str_contains};

verus! {

/// Which signal to deliver to a process.
#[derive(Debug, Clone, Copy, PartialEq, Eq, Structural)]
pub enum SignalKind {
    /// Graceful termination (SIGTERM).
    Term,
    /// Uncatchable termination (SIGKILL).
    Kill,
    /// The null signal: existence probe only, nothing is delivered.
    Probe,
}

/// Relies on `nix::sys::signal::kill` to deliver the chosen signal (or the
/// null probe) to the process. Whether it succeeds depends on the machine's
/// process table and permissions, so nothing is promised of the outcome.
#[verifier::external_body]
fn send_signal(pid: i32, kind: &SignalKind) -> Result<(), String> {
    let sig = match kind {
        SignalKind::Term => Some(nix::sys::signal::Signal::SIGTERM),
        SignalKind::Kill => Some(nix::sys::signal::Signal::SIGKILL),
        SignalKind::Probe => None,
    };
    match nix::sys::signal::kill(nix::unistd::Pid::from_raw(pid), sig) {
        Ok(()) => Ok(()),
        Err(e) => Err(format!("{}", e)),
    }
}

/// Stateless operations on external hypervisor processes.
pub struct VmManager {}

impl VmManager {
    /// A stateless supervisor.
    pub fn new() -> (r: Self) {
        VmManager {  }
    }

    /// Whether the process exists, probed with the null signal. The answer
    /// reflects the machine's process table at the instant of the probe.
    pub fn is_process_running(&self, pid: i32) -> bool {
        send_signal(pid, &SignalKind::Probe).is_ok()
    }

    /// Deliver the graceful-termination signal. A refusal by the operating
    /// system surfaces as `SignalFailed`.
    pub fn signal_terminate(&self, pid: i32) -> (r: Result<(), HypervisorError>)
        ensures
            r matches Err(e) ==> e@ matches ErrorView::SignalFailed(_),
    {
        proof {
            reveal_strlit("Failed to send SIGTERM: ");
        }
        match send_signal(pid, &SignalKind::Term) {
            Ok(()) => Ok(()),
            Err(e) => {
                let mut m = String::from_str("Failed to send SIGTERM: ");
                m.append(e.as_str());
                Err(HypervisorError::SignalFailed(m))
            },
        }
    }

    /// Deliver the uncatchable-termination signal. A refusal by the
    /// operating system surfaces as `SignalFailed`.
    pub fn signal_kill(&self, pid: i32) -> (r: Result<(), HypervisorError>)
        ensures
            r matches Err(e) ==> e@ matches ErrorView::SignalFailed(_),
    {
        proof {
            reveal_strlit("Failed to send SIGKILL: ");
        }
        match send_signal(pid, &SignalKind::Kill) {
            Ok(()) => Ok(()),
            Err(e) => {
                let mut m = String::from_str("Failed to send SIGKILL: ");
                m.append(e.as_str());
                Err(HypervisorError::SignalFailed(m))
            },
        }
    }

    /// Parse the contents of a hypervisor pid file: a decimal pid with
    /// optional surrounding whitespace. Anything else is a launch failure.
    pub fn parse_pid_file(&self, contents: &str) -> (r: Result<i32, HypervisorError>)
        ensures
            r matches Ok(v) ==> v >= 0 && all_digits(trimmed(contents@)) && dec_value(
                trimmed(contents@),
            ) == v as int,
            r matches Err(e) ==> e@ matches ErrorView::HypervisorLaunchFailed(_),
            r is Err <==> trimmed(contents@).len() == 0 || !all_digits(trimmed(contents@))
                || dec_value(trimmed(contents@)) > i32::MAX,
    {
        match parse_pid(contents) {
            Some(v) => Ok(v),
            None => Err(
                HypervisorError::HypervisorLaunchFailed(
                    String::from_str("Invalid PID in file"),
                ),
            ),
        }
    }

    /// The control-socket request that pauses a VM (freezes vcpus).
    pub fn pause_vm(&self, qmp_socket: &str) -> (r: QmpRequest)
        ensures
            r.socket@ == qmp_socket@,
            r.command is Stop,
            r.line@ == request_line_spec(QmpCommand::Stop),
    {
        make_request(qmp_socket, QmpCommand::Stop)
    }

    /// The control-socket request that resumes a paused VM.
    pub fn resume_vm(&self, qmp_socket: &str) -> (r: QmpRequest)
        ensures
            r.socket@ == qmp_socket@,
            r.command is Cont,
            r.line@ == request_line_spec(QmpCommand::Cont),
    {
        make_request(qmp_socket, QmpCommand::Cont)
    }

    /// The control-socket request that suspends a VM to RAM
    /// (guest-cooperative).
    pub fn suspend_vm(&self, qmp_socket: &str) -> (r: QmpRequest)
        ensures
            r.socket@ == qmp_socket@,
            r.command is SystemSuspend,
            r.line@ == request_line_spec(QmpCommand::SystemSuspend),
    {
        make_request(qmp_socket, QmpCommand::SystemSuspend)
    }

    /// The control-socket request that wakes a suspended VM.
    pub fn wake_vm(&self, qmp_socket: &str) -> (r: QmpRequest)
        ensures
            r.socket@ == qmp_socket@,
            r.command is SystemWakeup,
            r.line@ == request_line_spec(QmpCommand::SystemWakeup),
    {
        make_request(qmp_socket, QmpCommand::SystemWakeup)
    }

    /// The control-socket request that hard-resets a VM.
    pub fn reset_vm(&self, qmp_socket: &str) -> (r: QmpRequest)
        ensures
            r.socket@ == qmp_socket@,
            r.command is SystemReset,
            r.line@ == request_line_spec(QmpCommand::SystemReset),
    {
        make_request(qmp_socket, QmpCommand::SystemReset)
    }
}

/// A request against the given socket.
fn make_request(qmp_socket: &str, command: QmpCommand) -> (r: QmpRequest)
    ensures
        r.socket@ == qmp_socket@,
        r.command == command,
        r.line@ == request_line_spec(command),
{
    QmpRequest { socket: String::from_str(qmp_socket), line: command.request_line(), command }
}

/// The executable token of a null-separated command line: the characters
/// before the first NUL.
pub open spec fn first_token(s: Seq<char>) -> Seq<char>
    decreases s.len(),
{
    if s.len() == 0 || s[0] == '\u{0}' {
        Seq::empty()
    } else {
        seq![s[0]] + first_token(s.drop_first())
    }
}

/// A command line (as read from the process table, null-separated) belongs
/// to the expected hypervisor serving the expected control socket: its
/// executable names the hypervisor and its arguments reference the socket.
pub open spec fn cmdline_matches(cmdline: Seq<char>, qmp_socket: Seq<char>) -> bool {
    &&& first_token(cmdline).len() > 0
    &&& contains_seq(first_token(cmdline), "qemu-system"@)
    &&& contains_seq(cmdline, "unix:"@ + qmp_socket)
}

/// The executable token of a null-separated command line.
pub fn cmdline_executable(cmdline: &str) -> (r: &str)
    ensures
        r@ == first_token(cmdline@),
{
    let len = cmdline.unicode_len();
    let mut i: usize = 0;
    while i < len && cmdline.get_char(i) != '\u{0}'
        invariant
            0 <= i <= len,
            len == cmdline@.len(),
            forall|j: int| 0 <= j < i ==> cmdline@[j] != '\u{0}',
        decreases len - i,
    {
        i = i + 1;
    }
    let r = cmdline.substring_char(0, i);
    proof {
        lemma_first_token_chop(cmdline@, i as int);
    }
    r
}

/// The prefix before the first NUL computes `first_token`.
proof fn lemma_first_token_chop(s: Seq<char>, k: int)
    requires
        0 <= k <= s.len(),
        forall|j: int| 0 <= j < k ==> s[j] != '\u{0}',
        k == s.len() || s[k] == '\u{0}',
    ensures
        first_token(s) =~= s.subrange(0, k),
    decreases s.len(),
{
    if s.len() == 0 || s[0] == '\u{0}' {
        assert(k == 0);
    } else {
        let tail = s.drop_first();
        lemma_first_token_chop(tail, k - 1);
        assert(tail.subrange(0, k - 1) =~= s.subrange(1, k));
        assert(first_token(s) =~= seq![s[0]] + s.subrange(1, k));
    }
}

/// Mathematical model of a supervised VM handle.
pub ghost struct VmView {
    pub config: QemuConfigView,
    pub pid: Option<i32>,
}

/// One external hypervisor process: its launch configuration and, once
/// launched or attached, its pid.
#[derive(Debug)]
pub struct Vm {
    config: QemuConfig,
    pid: Option<i32>,
}

impl View for Vm {
    type V = VmView;

    closed spec fn view(&self) -> VmView {
        VmView { config: self.config@, pid: self.pid }
    }
}

impl Vm {
    /// A handle for a VM that has not been launched.
    pub fn new(config: QemuConfig) -> (r: Self)
        ensures
            r@.config == config@,
            r@.pid is None,
    {
        Vm { config, pid: None }
    }

    /// A handle re-adopting an already running process by pid.
    pub fn from_running(config: QemuConfig, pid: i32) -> (r: Self)
        ensures
            r@.config == config@,
            r@.pid == Some(pid),
    {
        Vm { config, pid: Some(pid) }
    }

    /// The pid of the running process, absent when not launched.
    pub fn pid(&self) -> (r: Option<i32>)
        ensures
            r == self@.pid,
    {
        self.pid
    }

    /// The launch configuration.
    pub fn config(&self) -> (r: &QemuConfig)
        ensures
            r@ == self@.config,
    {
        &self.config
    }

    /// The control-socket path.
    pub fn qmp_socket(&self) -> (r: &String)
        ensures
            r@ == self@.config.qmp_socket,
    {
        &self.config.qmp_socket
    }

    /// The pid-file path.
    pub fn pid_file(&self) -> (r: &String)
        ensures
            r@ == self@.config.pid_file,
    {
        &self.config.pid_file
    }

    /// The serial-log path.
    pub fn serial_log(&self) -> (r: &String)
        ensures
            r@ == self@.config.serial_log,
    {
        &self.config.serial_log
    }

    /// The pid, or an error when the VM has not been launched or attached.
    pub fn require_pid(&self) -> (r: Result<i32, HypervisorError>)
        ensures
            self@.pid matches Some(p) ==> (r matches Ok(v) && v == p),
            self@.pid is None ==> (r matches Err(e) && e@ == ErrorView::Internal(
                "VM is not running"@,
            )),
    {
        match self.pid {
            Some(pid) => Ok(pid),
            None => Err(HypervisorError::Internal(String::from_str("VM is not running"))),
        }
    }

    /// Record a successful launch.
    pub fn mark_launched(&mut self, pid: i32)
        requires
            old(self)@.pid is None,
        ensures
            final(self)@ == (VmView { pid: Some(pid), ..old(self)@ }),
    {
        self.pid = Some(pid);
    }

    /// Record that the process is gone.
    pub fn mark_stopped(&mut self)
        ensures
            final(self)@ == (VmView { pid: None, ..old(self)@ }),
    {
        self.pid = None;
    }

    /// Whether the process is running now: false without a pid, otherwise a
    /// null-signal probe of the process table.
    pub fn is_running(&self) -> (r: bool)
        ensures
            self@.pid is None ==> !r,
    {
        match self.pid {
            Some(pid) => send_signal(pid, &SignalKind::Probe).is_ok(),
            None => false,
        }
    }

    /// The control-socket request that pauses this VM, once it has a pid.
    pub fn pause(&self) -> (r: Result<QmpRequest, HypervisorError>)
        ensures
            self@.pid is Some ==> (r matches Ok(q) && q.socket@ == self@.config.qmp_socket
                && q.command is Stop && q.line@ == request_line_spec(QmpCommand::Stop)),
            self@.pid is None ==> r is Err,
    {
        self.require_pid()?;
        Ok(make_request(self.config.qmp_socket.as_str(), QmpCommand::Stop))
    }

    /// The control-socket request that resumes this VM, once it has a pid.
    pub fn resume(&self) -> (r: Result<QmpRequest, HypervisorError>)
        ensures
            self@.pid is Some ==> (r matches Ok(q) && q.socket@ == self@.config.qmp_socket
                && q.command is Cont && q.line@ == request_line_spec(QmpCommand::Cont)),
            self@.pid is None ==> r is Err,
    {
        self.require_pid()?;
        Ok(make_request(self.config.qmp_socket.as_str(), QmpCommand::Cont))
    }

    /// The control-socket request that suspends this VM to RAM, once it has
    /// a pid.
    pub fn suspend(&self) -> (r: Result<QmpRequest, HypervisorError>)
        ensures
            self@.pid is Some ==> (r matches Ok(q) && q.socket@ == self@.config.qmp_socket
                && q.command is SystemSuspend && q.line@ == request_line_spec(
                QmpCommand::SystemSuspend,
            )),
            self@.pid is None ==> r is Err,
    {
        self.require_pid()?;
        Ok(make_request(self.config.qmp_socket.as_str(), QmpCommand::SystemSuspend))
    }

    /// The control-socket request that wakes this VM from suspend, once it
    /// has a pid.
    pub fn wake(&self) -> (r: Result<QmpRequest, HypervisorError>)
        ensures
            self@.pid is Some ==> (r matches Ok(q) && q.socket@ == self@.config.qmp_socket
                && q.command is SystemWakeup && q.line@ == request_line_spec(
                QmpCommand::SystemWakeup,
            )),
            self@.pid is None ==> r is Err,
    {
        self.require_pid()?;
        Ok(make_request(self.config.qmp_socket.as_str(), QmpCommand::SystemWakeup))
    }

    /// The control-socket request that hard-resets this VM, once it has a
    /// pid.
    pub fn reset(&self) -> (r: Result<QmpRequest, HypervisorError>)
        ensures
            self@.pid is Some ==> (r matches Ok(q) && q.socket@ == self@.config.qmp_socket
                && q.command is SystemReset && q.line@ == request_line_spec(
                QmpCommand::SystemReset,
            )),
            self@.pid is None ==> r is Err,
    {
        self.require_pid()?;
        Ok(make_request(self.config.qmp_socket.as_str(), QmpCommand::SystemReset))
    }

    /// Attach to an already running process. The caller supplies the
    /// process's command line as read from the process table (`None` when
    /// the process does not exist or cannot be read) and whether the control
    /// socket answered. Succeeds exactly when no pid is held yet, the
    /// command line belongs to the expected hypervisor on this VM's control
    /// socket, and the socket is reachable; only then is the pid adopted.
    pub fn attach(&mut self, pid: i32, cmdline: Option<&str>, qmp_reachable: bool) -> (r: Result<
        (),
        HypervisorError,
    >)
        ensures
            r is Ok <==> old(self)@.pid is None && (cmdline matches Some(c) && cmdline_matches(
                c@,
                old(self)@.config.qmp_socket,
            )) && qmp_reachable,
            r is Ok ==> final(self)@ == (VmView { pid: Some(pid), ..old(self)@ }),
            r is Err ==> *final(self) == *old(self),
            r matches Err(e) ==> (e@ matches ErrorView::Internal(_) || e@
                matches ErrorView::HypervisorProtocolFailed(_)),
    {
        proof {
            reveal_strlit("VM is already running or attached");
            reveal_strlit("Process ");
            reveal_strlit(" not found or not accessible");
            reveal_strlit("Failed to parse process command line");
            reveal_strlit(" is not a QEMU process");
            reveal_strlit(" does not match expected QMP socket");
            reveal_strlit("Failed to connect to QMP socket");
            reveal_strlit("qemu-system");
            reveal_strlit("unix:");
        }
        if self.pid.is_some() {
            return Err(
                HypervisorError::Internal(
                    String::from_str("VM is already running or attached"),
                ),
            );
        }
        let line = match cmdline {
            Some(line) => line,
            None => {
                let mut m = String::from_str("Process ");
                m.append(i64_to_string(pid as i64).as_str());
                m.append(" not found or not accessible");
                return Err(HypervisorError::Internal(m));
            },
        };
        let exe = cmdline_executable(line);
        if exe.unicode_len() == 0 {
            return Err(
                HypervisorError::Internal(
                    String::from_str("Failed to parse process command line"),
                ),
            );
        }
        if !str_contains(exe, "qemu-system") {
            let mut m = String::from_str("Process ");
            m.append(i64_to_string(pid as i64).as_str());
            m.append(" is not a QEMU process");
            return Err(HypervisorError::Internal(m));
        }
        let mut pattern = String::from_str("unix:");
        pattern.append(self.config.qmp_socket.as_str());
        if !str_contains(line, pattern.as_str()) {
            let mut m = String::from_str("Process ");
            m.append(i64_to_string(pid as i64).as_str());
            m.append(" does not match expected QMP socket");
            return Err(HypervisorError::Internal(m));
        }
        if !qmp_reachable {
            return Err(
                HypervisorError::HypervisorProtocolFailed(
                    String::from_str("Failed to connect to QMP socket"),
                ),
            );
        }
        self.pid = Some(pid);
        Ok(())
    }
}

} // verus!
