//! The finite set of guest-VM statuses and the predicate table of permitted
//! transitions.
//!
//! Intermediate statuses (`Starting`, `Pausing`, `Resuming`, `Suspending`,
//! `Stopping`) are journal markers: the controller persists them before an
//! external effect begins, and never leaves a record in one after returning.

use vstd::prelude::*;

verus! {

/// Status of a guest VM instance. `Failed` is terminal until the instance is
/// destroyed or re-created; its payload carries the failure reason.
#[derive(Debug)]
pub enum InstanceStatus {
    Created,
    Starting,
    Running,
    Pausing,
    Paused,
    Resuming,
    Suspending,
    Suspended,
    Stopping,
    Stopped,
    Failed { error: String },
}

/// Mathematical model of a status: the same tagged sum with the failure
/// reason as a character sequence.
pub ghost enum StatusView {
    Created,
    Starting,
    Running,
    Pausing,
    Paused,
    Resuming,
    Suspending,
    Suspended,
    Stopping,
    Stopped,
    Failed { error: Seq<char> },
}

impl View for InstanceStatus {
    type V = StatusView;

    open spec fn view(&self) -> StatusView {
        match self {
            InstanceStatus::Created => StatusView::Created,
            InstanceStatus::Starting => StatusView::Starting,
            InstanceStatus::Running => StatusView::Running,
            InstanceStatus::Pausing => StatusView::Pausing,
            InstanceStatus::Paused => StatusView::Paused,
            InstanceStatus::Resuming => StatusView::Resuming,
            InstanceStatus::Suspending => StatusView::Suspending,
            InstanceStatus::Suspended => StatusView::Suspended,
            InstanceStatus::Stopping => StatusView::Stopping,
            InstanceStatus::Stopped => StatusView::Stopped,
            InstanceStatus::Failed { error } => StatusView::Failed { error: error@ },
        }
    }
}

impl DeepView for InstanceStatus {
    type V = StatusView;

    open spec fn deep_view(&self) -> StatusView {
        self.view()
    }
}

impl Clone for InstanceStatus {
    /// Field-for-field copy; the clone models the same status.
    fn clone(&self) -> (r: Self)
        ensures
            r@ == self@,
    {
        match self {
            InstanceStatus::Created => InstanceStatus::Created,
            InstanceStatus::Starting => InstanceStatus::Starting,
            InstanceStatus::Running => InstanceStatus::Running,
            InstanceStatus::Pausing => InstanceStatus::Pausing,
            InstanceStatus::Paused => InstanceStatus::Paused,
            InstanceStatus::Resuming => InstanceStatus::Resuming,
            InstanceStatus::Suspending => InstanceStatus::Suspending,
            InstanceStatus::Suspended => InstanceStatus::Suspended,
            InstanceStatus::Stopping => InstanceStatus::Stopping,
            InstanceStatus::Stopped => InstanceStatus::Stopped,
            InstanceStatus::Failed { error } => InstanceStatus::Failed { error: error.clone() },
        }
    }
}

impl StatusView {
    /// True of the statuses in which the external hypervisor process is
    /// expected to exist, so that `vm_pid` should be present.
    pub open spec fn is_active(self) -> bool {
        match self {
            StatusView::Starting => true,
            StatusView::Running => true,
            StatusView::Pausing => true,
            StatusView::Paused => true,
            StatusView::Resuming => true,
            StatusView::Suspending => true,
            StatusView::Suspended => true,
            StatusView::Stopping => true,
            _ => false,
        }
    }

    /// The permitted-transition table. `permits(from, to)` holds exactly when
    /// a record may move from status `from` to status `to` through some
    /// operation; the `Failed` payload is immaterial.
    pub open spec fn permits(from: StatusView, to: StatusView) -> bool {
        match (from, to) {
            (StatusView::Created, StatusView::Starting) => true,
            (StatusView::Starting, StatusView::Running) => true,
            (StatusView::Starting, StatusView::Failed { .. }) => true,
            (StatusView::Running, StatusView::Pausing) => true,
            (StatusView::Running, StatusView::Suspending) => true,
            (StatusView::Running, StatusView::Stopping) => true,
            (StatusView::Running, StatusView::Starting) => true,
            (StatusView::Pausing, StatusView::Paused) => true,
            (StatusView::Pausing, StatusView::Failed { .. }) => true,
            (StatusView::Paused, StatusView::Resuming) => true,
            (StatusView::Paused, StatusView::Suspending) => true,
            (StatusView::Paused, StatusView::Stopping) => true,
            (StatusView::Paused, StatusView::Starting) => true,
            (StatusView::Resuming, StatusView::Running) => true,
            (StatusView::Resuming, StatusView::Failed { .. }) => true,
            (StatusView::Suspending, StatusView::Suspended) => true,
            (StatusView::Suspending, StatusView::Failed { .. }) => true,
            (StatusView::Suspended, StatusView::Resuming) => true,
            (StatusView::Suspended, StatusView::Stopping) => true,
            (StatusView::Stopping, StatusView::Stopped) => true,
            (StatusView::Stopping, StatusView::Failed { .. }) => true,
            (StatusView::Stopped, StatusView::Starting) => true,
            _ => false,
        }
    }
}

impl InstanceStatus {
    /// The instance can be paused: vcpus are running.
    pub fn can_pause(&self) -> (r: bool)
        ensures
            r == self@ matches StatusView::Running,
    {
        matches!(self, InstanceStatus::Running)
    }

    /// The instance can be resumed from a hypervisor-level pause.
    pub fn can_resume_from_pause(&self) -> (r: bool)
        ensures
            r == self@ matches StatusView::Paused,
    {
        matches!(self, InstanceStatus::Paused)
    }

    /// The instance can be suspended to RAM (guest-cooperative).
    pub fn can_suspend(&self) -> (r: bool)
        ensures
            r == (self@ matches StatusView::Running || self@ matches StatusView::Paused),
    {
        matches!(self, InstanceStatus::Running | InstanceStatus::Paused)
    }

    /// The instance can be woken from suspend.
    pub fn can_wake(&self) -> (r: bool)
        ensures
            r == self@ matches StatusView::Suspended,
    {
        matches!(self, InstanceStatus::Suspended)
    }

    /// The instance can be reset (hard reboot without guest cooperation).
    pub fn can_reset(&self) -> (r: bool)
        ensures
            r == (self@ matches StatusView::Running || self@ matches StatusView::Paused),
    {
        matches!(self, InstanceStatus::Running | InstanceStatus::Paused)
    }

    /// The instance can be stopped (graceful-then-forceful termination).
    pub fn can_stop(&self) -> (r: bool)
        ensures
            r == (self@ matches StatusView::Running || self@ matches StatusView::Paused || self@
                matches StatusView::Suspended),
    {
        matches!(
            self,
            InstanceStatus::Running | InstanceStatus::Paused | InstanceStatus::Suspended
        )
    }

    /// Human-readable form of the status, as shown by listings and errors.
    pub fn status_str(&self) -> (r: String)
        ensures
            r@ == status_str_spec(self@),
    {
        proof {
            reveal_strlit("created");
            reveal_strlit("starting");
            reveal_strlit("running");
            reveal_strlit("pausing");
            reveal_strlit("paused");
            reveal_strlit("resuming");
            reveal_strlit("suspending");
            reveal_strlit("suspended");
            reveal_strlit("stopping");
            reveal_strlit("stopped");
            reveal_strlit("failed");
        }
        match self {
            InstanceStatus::Created => String::from_str("created"),
            InstanceStatus::Starting => String::from_str("starting"),
            InstanceStatus::Running => String::from_str("running"),
            InstanceStatus::Pausing => String::from_str("pausing"),
            InstanceStatus::Paused => String::from_str("paused"),
            InstanceStatus::Resuming => String::from_str("resuming"),
            InstanceStatus::Suspending => String::from_str("suspending"),
            InstanceStatus::Suspended => String::from_str("suspended"),
            InstanceStatus::Stopping => String::from_str("stopping"),
            InstanceStatus::Stopped => String::from_str("stopped"),
            InstanceStatus::Failed { error: _ } => String::from_str("failed"),
        }
    }
}

/// The human-readable name of each status.
pub open spec fn status_str_spec(s: StatusView) -> Seq<char> {
    match s {
        StatusView::Created => "created"@,
        StatusView::Starting => "starting"@,
        StatusView::Running => "running"@,
        StatusView::Pausing => "pausing"@,
        StatusView::Paused => "paused"@,
        StatusView::Resuming => "resuming"@,
        StatusView::Suspending => "suspending"@,
        StatusView::Suspended => "suspended"@,
        StatusView::Stopping => "stopping"@,
        StatusView::Stopped => "stopped"@,
        StatusView::Failed { .. } => "failed"@,
    }
}

} // verus!
