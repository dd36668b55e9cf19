//! Library-wide laws: the pid/status consistency that every controller
//! operation preserves, and the conformance of each operation's committed
//! status changes to the permitted-transition table.

use vstd::prelude::*;
use crate::boot::BootView;
use crate::controller::{created_record, failed, failed_detached, started, stopped,
    CreateRequestView};
use crate::db::{save_effect, stamped};
use crate::instance::{with_status, InstanceView};
use crate::status::StatusView;

verus! {

/// A record's pid agrees with its status: a pid is present only in an
/// active status, and an active status other than `Starting` holds a pid.
/// (`Starting` is exempt in one direction: the start journal entry is
/// written before a process exists.)
pub open spec fn pid_consistent(r: InstanceView) -> bool {
    &&& r.vm_pid is Some ==> r.status.is_active()
    &&& r.status.is_active() && !(r.status is Starting) ==> r.vm_pid is Some
}

/// Law: a freshly created record is pid-consistent — it is `Created` and
/// holds no pid.
pub proof fn lemma_create_consistent(
    req: CreateRequestView,
    id: Seq<char>,
    boot: BootView,
    base_dir: Seq<char>,
    port: u16,
    now: i64,
)
    ensures
        pid_consistent(created_record(req, id, boot, base_dir, port, now)),
        created_record(req, id, boot, base_dir, port, now).vm_pid is None,
{
}

/// Law: every record the start operation persists is pid-consistent — the
/// `Starting` journal entry, the running record with its new pid, and the
/// failure records (missing boot component, failed launch).
pub proof fn lemma_start_consistent(r: InstanceView, pid: i32, msg: Seq<char>, now: i64)
    requires
        pid_consistent(r),
        r.status is Created || r.status is Stopped,
    ensures
        pid_consistent(with_status(r, StatusView::Starting, now)),
        pid_consistent(failed(r, msg, now)),
        pid_consistent(started(with_status(r, StatusView::Starting, now), pid, now)),
        pid_consistent(failed(with_status(r, StatusView::Starting, now), msg, now)),
{
}

/// Law: every record the pause operation persists is pid-consistent — the
/// `Pausing` journal entry, the paused record, and the rewound record.
pub proof fn lemma_pause_consistent(r: InstanceView, now: i64, later: i64)
    requires
        pid_consistent(r),
        r.status is Running,
    ensures
        pid_consistent(with_status(r, StatusView::Pausing, now)),
        pid_consistent(
            with_status(with_status(r, StatusView::Pausing, now), StatusView::Paused, later),
        ),
        pid_consistent(
            with_status(with_status(r, StatusView::Pausing, now), StatusView::Running, later),
        ),
{
}

/// Law: every record the resume operation persists is pid-consistent — the
/// `Resuming` journal entry, the running record, and the rewound record.
pub proof fn lemma_resume_consistent(r: InstanceView, now: i64, later: i64)
    requires
        pid_consistent(r),
        r.status is Paused || r.status is Suspended,
    ensures
        pid_consistent(with_status(r, StatusView::Resuming, now)),
        pid_consistent(
            with_status(with_status(r, StatusView::Resuming, now), StatusView::Running, later),
        ),
        pid_consistent(with_status(with_status(r, StatusView::Resuming, now), r.status, later)),
{
}

/// Law: every record the suspend operation persists is pid-consistent — the
/// `Suspending` journal entry, the suspended record, and the rewound record.
pub proof fn lemma_suspend_consistent(r: InstanceView, now: i64, later: i64)
    requires
        pid_consistent(r),
        r.status is Running || r.status is Paused,
    ensures
        pid_consistent(with_status(r, StatusView::Suspending, now)),
        pid_consistent(
            with_status(with_status(r, StatusView::Suspending, now), StatusView::Suspended, later),
        ),
        pid_consistent(with_status(with_status(r, StatusView::Suspending, now), r.status, later)),
{
}

/// Law: every record the reset operation persists is pid-consistent — the
/// `Starting` journal entry (which keeps the pid: only the guest restarts),
/// the running record, and the rewound record.
pub proof fn lemma_reset_consistent(r: InstanceView, now: i64, later: i64)
    requires
        pid_consistent(r),
        r.status is Running || r.status is Paused,
    ensures
        pid_consistent(with_status(r, StatusView::Starting, now)),
        with_status(r, StatusView::Starting, now).vm_pid == r.vm_pid,
        pid_consistent(
            with_status(with_status(r, StatusView::Starting, now), StatusView::Running, later),
        ),
        pid_consistent(with_status(with_status(r, StatusView::Starting, now), r.status, later)),
{
}

/// Law: every record the stop operation persists is pid-consistent — the
/// `Stopping` journal entry, the stopped record with its pid cleared, and
/// the rewound record.
pub proof fn lemma_stop_consistent(r: InstanceView, now: i64, later: i64)
    requires
        pid_consistent(r),
        r.status is Running || r.status is Paused || r.status is Suspended,
    ensures
        pid_consistent(with_status(r, StatusView::Stopping, now)),
        pid_consistent(stopped(with_status(r, StatusView::Stopping, now), later)),
        stopped(with_status(r, StatusView::Stopping, now), later).vm_pid is None,
        pid_consistent(with_status(with_status(r, StatusView::Stopping, now), r.status, later)),
{
}

/// Law: a record the attach operation marks failed is pid-consistent — its
/// pid is cleared with the failure.
pub proof fn lemma_attach_consistent(r: InstanceView, msg: Seq<char>, now: i64)
    ensures
        pid_consistent(failed_detached(r, msg, now)),
        failed_detached(r, msg, now).vm_pid is None,
{
}

/// Law: saving one pid-consistent record into a store of pid-consistent
/// records leaves every record pid-consistent.
pub proof fn lemma_store_consistency(s: Seq<InstanceView>, v: InstanceView, now: i64)
    requires
        forall|i: int| 0 <= i < s.len() ==> pid_consistent(#[trigger] s[i]),
        pid_consistent(v),
    ensures
        forall|i: int|
            0 <= i < save_effect(s, v, now).len() ==> pid_consistent(
                #[trigger] save_effect(s, v, now)[i],
            ),
{
    assert(pid_consistent(stamped(v, now)));
}

/// Law: the start operation's committed status changes follow the
/// permitted-transition table — into the `Starting` journal entry, and from
/// it to `Running` on success or `Failed` on a failed launch.
pub proof fn lemma_start_follows_table(from: StatusView, msg: Seq<char>)
    requires
        from is Created || from is Stopped,
    ensures
        StatusView::permits(from, StatusView::Starting),
        StatusView::permits(StatusView::Starting, StatusView::Running),
        StatusView::permits(StatusView::Starting, StatusView::Failed { error: msg }),
{
}

/// Law: the pause operation's committed status changes on its success path
/// follow the permitted-transition table. A failed command instead rewinds
/// to the prior status, which the table does not list as a forward edge.
pub proof fn lemma_pause_follows_table(from: StatusView)
    requires
        from is Running,
    ensures
        StatusView::permits(from, StatusView::Pausing),
        StatusView::permits(StatusView::Pausing, StatusView::Paused),
{
}

/// Law: the resume operation's committed status changes on its success path
/// follow the permitted-transition table. A failed command instead rewinds
/// to the prior status, which the table does not list as a forward edge.
pub proof fn lemma_resume_follows_table(from: StatusView)
    requires
        from is Paused || from is Suspended,
    ensures
        StatusView::permits(from, StatusView::Resuming),
        StatusView::permits(StatusView::Resuming, StatusView::Running),
{
}

/// Law: the suspend operation's committed status changes on its success
/// path follow the permitted-transition table. A failed command instead
/// rewinds to the prior status, which the table does not list as a forward
/// edge.
pub proof fn lemma_suspend_follows_table(from: StatusView)
    requires
        from is Running || from is Paused,
    ensures
        StatusView::permits(from, StatusView::Suspending),
        StatusView::permits(StatusView::Suspending, StatusView::Suspended),
{
}

/// Law: the reset operation's committed status changes on its success path
/// follow the permitted-transition table: back into `Starting` and from
/// there to `Running`, the pid untouched. A failed command instead rewinds
/// to the prior status, which the table does not list as a forward edge.
pub proof fn lemma_reset_follows_table(from: StatusView)
    requires
        from is Running || from is Paused,
    ensures
        StatusView::permits(from, StatusView::Starting),
        StatusView::permits(StatusView::Starting, StatusView::Running),
{
}

/// Law: the stop operation's committed status changes on its success path
/// follow the permitted-transition table. A stop that observes the process
/// already gone still commits `Stopping` to `Stopped`; only a stop whose
/// process survives rewinds, which the table does not list as a forward
/// edge.
pub proof fn lemma_stop_follows_table(from: StatusView)
    requires
        from is Running || from is Paused || from is Suspended,
    ensures
        StatusView::permits(from, StatusView::Stopping),
        StatusView::permits(StatusView::Stopping, StatusView::Stopped),
{
}

} // verus!
