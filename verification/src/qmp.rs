//! The line-oriented JSON control protocol spoken over the hypervisor's
//! Unix-domain control socket: the command set, the request line for each
//! command, and the classification of reply lines.
//!
//! The socket I/O itself happens outside the library; callers send the
//! request line this module computes and hand the reply line back.

use vstd::prelude::*;
use crate::strutil::occurs_at;

verus! {

/// The commands the controller issues on the control socket.
#[derive(Debug, Clone, Copy, PartialEq, Eq, Structural)]
pub enum QmpCommand {
    /// Query the guest's run state.
    QueryStatus,
    /// Query per-vcpu information.
    QueryCpus,
    /// Query the memory size summary.
    QueryMemory,
    /// Guest-cooperative shutdown via the firmware power button.
    SystemPowerdown,
    /// Terminate the hypervisor immediately.
    Quit,
    /// Freeze vcpus at the hypervisor level; the guest is unaware.
    Stop,
    /// Unfreeze vcpus.
    Cont,
    /// Guest-cooperative suspend to RAM.
    SystemSuspend,
    /// Wake from suspend.
    SystemWakeup,
    /// Hard reboot without guest cooperation.
    SystemReset,
}

/// The wire name of each command.
pub open spec fn command_name_spec(c: QmpCommand) -> Seq<char> {
    match c {
        QmpCommand::QueryStatus => "query-status"@,
        QmpCommand::QueryCpus => "query-cpus-fast"@,
        QmpCommand::QueryMemory => "query-memory-size-summary"@,
        QmpCommand::SystemPowerdown => "system_powerdown"@,
        QmpCommand::Quit => "quit"@,
        QmpCommand::Stop => "stop"@,
        QmpCommand::Cont => "cont"@,
        QmpCommand::SystemSuspend => "system_suspend"@,
        QmpCommand::SystemWakeup => "system_wakeup"@,
        QmpCommand::SystemReset => "system_reset"@,
    }
}

/// The full request line for a command.
pub open spec fn request_line_spec(c: QmpCommand) -> Seq<char> {
    "{\"execute\": \""@ + command_name_spec(c) + "\"}"@
}

impl QmpCommand {
    /// The wire name of the command.
    pub fn command_name(&self) -> (r: String)
        ensures
            r@ == command_name_spec(*self),
    {
        proof {
            reveal_strlit("query-status");
            reveal_strlit("query-cpus-fast");
            reveal_strlit("query-memory-size-summary");
            reveal_strlit("system_powerdown");
            reveal_strlit("quit");
            reveal_strlit("stop");
            reveal_strlit("cont");
            reveal_strlit("system_suspend");
            reveal_strlit("system_wakeup");
            reveal_strlit("system_reset");
        }
        match self {
            QmpCommand::QueryStatus => String::from_str("query-status"),
            QmpCommand::QueryCpus => String::from_str("query-cpus-fast"),
            QmpCommand::QueryMemory => String::from_str("query-memory-size-summary"),
            QmpCommand::SystemPowerdown => String::from_str("system_powerdown"),
            QmpCommand::Quit => String::from_str("quit"),
            QmpCommand::Stop => String::from_str("stop"),
            QmpCommand::Cont => String::from_str("cont"),
            QmpCommand::SystemSuspend => String::from_str("system_suspend"),
            QmpCommand::SystemWakeup => String::from_str("system_wakeup"),
            QmpCommand::SystemReset => String::from_str("system_reset"),
        }
    }

    /// The request line to send for the command.
    pub fn request_line(&self) -> (r: String)
        ensures
            r@ == request_line_spec(*self),
    {
        proof {
            reveal_strlit("{\"execute\": \"");
            reveal_strlit("\"}");
        }
        let mut r = String::from_str("{\"execute\": \"");
        r.append(self.command_name().as_str());
        r.append("\"}");
        r
    }
}

/// One request to perform against a control socket: where to connect and
/// what to send.
#[derive(Debug)]
pub struct QmpRequest {
    pub socket: String,
    pub command: QmpCommand,
    pub line: String,
}

/// A reply line classified by its envelope.
#[derive(Debug, Clone, Copy, PartialEq, Eq, Structural)]
pub enum QmpReplyKind {
    /// The command succeeded: a `return` envelope.
    Return,
    /// The peer rejected the command: an `error` envelope.
    CommandError,
    /// Neither envelope: the reply is unparseable.
    Malformed,
}

/// `s` begins with `p`.
pub open spec fn starts_with(s: Seq<char>, p: Seq<char>) -> bool {
    occurs_at(s, p, 0)
}

/// Prefix test.
pub fn str_starts_with(s: &str, p: &str) -> (r: bool)
    ensures
        r == starts_with(s@, p@),
{
    let slen = s.unicode_len();
    let plen = p.unicode_len();
    if plen > slen {
        return false;
    }
    let mut k: usize = 0;
    while k < plen
        invariant
            0 <= k <= plen,
            plen <= slen,
            slen == s@.len(),
            plen == p@.len(),
            forall|j: int| 0 <= j < k ==> s@[j] == p@[j],
        decreases plen - k,
    {
        if s.get_char(k) != p.get_char(k) {
            proof {
                assert(s@.subrange(0, plen as int)[k as int] == s@[k as int]);
            }
            return false;
        }
        k = k + 1;
    }
    proof {
        assert(s@.subrange(0, plen as int) =~= p@);
    }
    true
}

/// Classify a reply line by its envelope: a `return` object, an `error`
/// object, or neither.
pub fn classify_reply(line: &str) -> (r: QmpReplyKind)
    ensures
        r is Return <==> starts_with(line@, "{\"return\""@),
        r is CommandError <==> !starts_with(line@, "{\"return\""@) && starts_with(
            line@,
            "{\"error\""@,
        ),
        r is Malformed <==> !starts_with(line@, "{\"return\""@) && !starts_with(
            line@,
            "{\"error\""@,
        ),
    {
    if str_starts_with(line, "{\"return\"") {
        QmpReplyKind::Return
    } else if str_starts_with(line, "{\"error\"") {
        QmpReplyKind::CommandError
    } else {
        QmpReplyKind::Malformed
    }
}

/// The guest run state reported by a status query.
#[derive(Debug)]
pub struct VmStatus {
    pub status: String,
    pub running: bool,
}

/// Per-vcpu information reported by a cpu query.
#[derive(Debug)]
pub struct CpuInfo {
    pub cpu_index: u64,
    pub qom_path: Option<String>,
    pub thread_id: u64,
}

/// The memory size summary reported by a memory query.
#[derive(Debug)]
pub struct MemoryInfo {
    pub base_memory: u64,
}

} // verus!
