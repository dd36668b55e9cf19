//! The persistent record of one guest VM instance.

use vstd::prelude::*;
use crate::config::{clone_opt_string, ConfigView, InstanceConfig};
use crate::status::{InstanceStatus, StatusView};

verus! {

/// The unit of persistence: identity, status, configuration, runtime handles
/// and timestamps of one instance.
#[derive(Debug)]
pub struct InstanceState {
    pub id: String,
    pub name: String,
    pub status: InstanceStatus,
    pub config: InstanceConfig,
    /// Pid of the running external hypervisor, absent when not running.
    pub vm_pid: Option<i32>,
    /// Path of the hypervisor control socket, absent before first launch.
    pub qmp_socket: Option<String>,
    /// Path of the captured guest serial console.
    pub serial_log: Option<String>,
    /// Seconds since epoch.
    pub created_at: i64,
    /// Seconds since epoch; every persisted mutation stamps this.
    pub updated_at: i64,
}

/// Mathematical model of an instance record.
pub ghost struct InstanceView {
    pub id: Seq<char>,
    pub name: Seq<char>,
    pub status: StatusView,
    pub config: ConfigView,
    pub vm_pid: Option<i32>,
    pub qmp_socket: Option<Seq<char>>,
    pub serial_log: Option<Seq<char>>,
    pub created_at: i64,
    pub updated_at: i64,
}

impl View for InstanceState {
    type V = InstanceView;

    open spec fn view(&self) -> InstanceView {
        InstanceView {
            id: self.id@,
            name: self.name@,
            status: self.status@,
            config: self.config@,
            vm_pid: self.vm_pid,
            qmp_socket: self.qmp_socket.deep_view(),
            serial_log: self.serial_log.deep_view(),
            created_at: self.created_at,
            updated_at: self.updated_at,
        }
    }
}

impl DeepView for InstanceState {
    type V = InstanceView;

    open spec fn deep_view(&self) -> InstanceView {
        self.view()
    }
}

/// Relies on `chrono::Utc::now` (via `timestamp`) for the wall-clock time in
/// seconds since the epoch. Nothing is promised of the value: the clock may
/// move arbitrarily between calls.
#[verifier::external_body]
pub(crate) fn now_ts() -> i64 {
    chrono::Utc::now().timestamp()
}

/// The wall-clock time in seconds since the epoch, for callers outside the
/// library that drive the timestamped operations. Nothing is known of the
/// value.
pub fn current_timestamp() -> i64 {
    now_ts()
}

/// The record `r` with its status replaced and `updated_at` stamped.
pub open spec fn with_status(r: InstanceView, status: StatusView, now: i64) -> InstanceView {
    InstanceView { status, updated_at: now, ..r }
}

impl InstanceState {
    /// A fresh record in `Created` status with no runtime handles. Both
    /// timestamps are stamped with the current wall-clock time.
    pub fn new(id: String, name: String, config: InstanceConfig) -> (r: Self)
        ensures
            r@.id == id@,
            r@.name == name@,
            r@.status is Created,
            r@.config == config@,
            r@.vm_pid is None,
            r@.qmp_socket is None,
            r@.serial_log is None,
            r@.created_at == r@.updated_at,
    {
        let now = now_ts();
        InstanceState {
            id,
            name,
            status: InstanceStatus::Created,
            config,
            vm_pid: None,
            qmp_socket: None,
            serial_log: None,
            created_at: now,
            updated_at: now,
        }
    }

    /// Replace the status and stamp `updated_at` with the given time.
    pub fn update_status_at(&mut self, status: InstanceStatus, now: i64)
        ensures
            final(self)@ == with_status(old(self)@, status@, now),
    {
        self.status = status;
        self.updated_at = now;
    }

    /// Replace the status and stamp `updated_at` with the current wall-clock
    /// time, of which nothing is known.
    pub fn update_status(&mut self, status: InstanceStatus)
        ensures
            final(self)@ == with_status(old(self)@, status@, final(self)@.updated_at),
    {
        let now = now_ts();
        self.update_status_at(status, now);
    }
}

impl Clone for InstanceState {
    /// Field-for-field copy; the clone models the same record.
    fn clone(&self) -> (r: Self)
        ensures
            r@ == self@,
    {
        InstanceState {
            id: self.id.clone(),
            name: self.name.clone(),
            status: self.status.clone(),
            config: self.config.clone(),
            vm_pid: self.vm_pid,
            qmp_socket: clone_opt_string(&self.qmp_socket),
            serial_log: clone_opt_string(&self.serial_log),
            created_at: self.created_at,
            updated_at: self.updated_at,
        }
    }
}

} // verus!
