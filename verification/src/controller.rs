//! The controller: the single entry point for every operation on an
//! instance.
//!
//! Each operation validates the request against the current status, journals
//! the intermediate status, and hands the caller a plan describing the
//! external effect (a process to spawn or signal, a control-socket request
//! to send). The caller performs the effect and reports the outcome to the
//! matching `finish_*` function, which commits the terminal status or
//! rewinds. Every mutation of the store happens here or in the store itself.

use vstd::prelude::*;
use crate::boot::BootComponents;
use crate::config::{clone_opt_string, clone_string_vec, katana_args_spec, ConfigView,
    InstanceConfig};
use crate::db::{has_id, has_name, idx_of_id, idx_of_name, port_taken, save_admissible,
    save_effect, stamped, PortView, StateDatabase};
use crate::error::{ErrorView, HypervisorError};
use crate::instance::{with_status, InstanceState, InstanceView};
use crate::qemu_config::{joined_with_spaces, QemuConfig, QemuConfigView, SevSnpConfig,
    SevSnpView};
use crate::qmp::{request_line_spec, QmpCommand, QmpRequest};
use crate::status::{InstanceStatus, StatusView};
use crate::vm::cmdline_matches;
use crate::storage::{instance_dir_spec, StorageManager, MIN_STORAGE_SIZE};
use crate::strutil::path_join;

verus! {

/// What a client supplies to create an instance.
#[derive(Debug)]
pub struct CreateRequest {
    pub name: String,
    pub vcpus: u32,
    /// Memory budget, human-readable (for instance `"2G"`).
    pub memory: String,
    /// Storage budget, human-readable (for instance `"10G"`).
    pub storage: String,
    /// A specific RPC port, or none to allocate the lowest free one.
    pub port: Option<u16>,
    pub dev: bool,
    pub tee: bool,
    pub vcpu_type: String,
    pub chain_id: Option<String>,
    pub block_time: Option<u64>,
    pub accounts: Option<u16>,
    pub disable_fee: bool,
    pub extra_args: Vec<String>,
}

/// Mathematical model of a creation request.
pub ghost struct CreateRequestView {
    pub name: Seq<char>,
    pub vcpus: u32,
    pub memory: Seq<char>,
    pub storage: Seq<char>,
    pub port: Option<u16>,
    pub dev: bool,
    pub tee: bool,
    pub vcpu_type: Seq<char>,
    pub chain_id: Option<Seq<char>>,
    pub block_time: Option<u64>,
    pub accounts: Option<u16>,
    pub disable_fee: bool,
    pub extra_args: Seq<Seq<char>>,
}

impl View for CreateRequest {
    type V = CreateRequestView;

    open spec fn view(&self) -> CreateRequestView {
        CreateRequestView {
            name: self.name@,
            vcpus: self.vcpus,
            memory: self.memory@,
            storage: self.storage@,
            port: self.port,
            dev: self.dev,
            tee: self.tee,
            vcpu_type: self.vcpu_type@,
            chain_id: self.chain_id.deep_view(),
            block_time: self.block_time,
            accounts: self.accounts,
            disable_fee: self.disable_fee,
            extra_args: self.extra_args.deep_view(),
        }
    }
}

/// What `parse_size` returns for a given size string: the byte count, or
/// nothing when the string is not a size. The result depends on the string
/// alone.
pub uninterp spec fn parsed_size(s: Seq<char>) -> Option<u64>;

/// Relies on `byte_unit::Byte::parse_str` (case-insensitive) to turn a
/// human-readable size such as `"2G"` into a byte count.
#[verifier::external_body]
fn parse_size(s: &str) -> (r: Result<u64, String>)
    ensures
        r matches Ok(v) ==> parsed_size(s@) == Some(v),
        r is Err ==> parsed_size(s@) is None,
{
    match byte_unit::Byte::parse_str(s, true) {
        Ok(b) => Ok(b.as_u64()),
        Err(e) => Err(format!("{}", e)),
    }
}

/// Relies on `uuid::Uuid::new_v4` for a fresh random identifier;
/// `to_string` renders it in the hyphenated form of 36 characters. The value
/// is random: distinctness from existing ids is checked by the caller, never
/// assumed.
#[verifier::external_body]
pub fn new_instance_id() -> (r: String)
    ensures
        r@.len() == 36,
{
    uuid::Uuid::new_v4().to_string()
}

/// The kernel command line derived from a configuration.
pub open spec fn kernel_cmdline_of(c: ConfigView) -> Seq<char> {
    "console=ttyS0 loglevel=4 katana.args="@ + joined_with_spaces(katana_args_spec(c))
}

/// The hypervisor launch configuration derived from a record: the record's
/// resources and boot components, with the runtime artifact paths under its
/// data directory, and the confidential-compute object when enabled.
pub open spec fn qemu_config_of(s: InstanceView) -> QemuConfigView {
    QemuConfigView {
        memory_mb: s.config.memory_mb,
        vcpus: s.config.vcpus,
        cpu_type: s.config.vcpu_type,
        kernel_path: s.config.kernel_path,
        initrd_path: s.config.initrd_path,
        bios_path: s.config.ovmf_path,
        kernel_cmdline: kernel_cmdline_of(s.config),
        rpc_port: s.config.rpc_port,
        disk_image: s.config.disk_image,
        qmp_socket: s.config.data_dir + "/qmp.sock"@,
        serial_log: s.config.data_dir + "/serial.log"@,
        pid_file: s.config.data_dir + "/qemu.pid"@,
        sev_snp: if s.config.tee_mode {
            Some(
                SevSnpView {
                    cbitpos: 51,
                    reduced_phys_bits: 1,
                    vcpu_type: s.config.vcpu_type,
                },
            )
        } else {
            None
        },
        enable_kvm: true,
    }
}

/// Build the hypervisor launch configuration from a record.
pub fn instance_state_to_qemu_config(state: &InstanceState) -> (r: Result<
    QemuConfig,
    HypervisorError,
>)
    ensures
        r matches Ok(c) && c@ == qemu_config_of(state@),
{
    proof {
        reveal_strlit("console=ttyS0 loglevel=4 katana.args=");
        reveal_strlit("/");
        reveal_strlit("qmp.sock");
        reveal_strlit("/qmp.sock");
        reveal_strlit("serial.log");
        reveal_strlit("/serial.log");
        reveal_strlit("qemu.pid");
        reveal_strlit("/qemu.pid");
    }
    let config = &state.config;

    let qmp_socket = path_join(config.data_dir.as_str(), "qmp.sock");
    let serial_log = path_join(config.data_dir.as_str(), "serial.log");
    let pid_file = path_join(config.data_dir.as_str(), "qemu.pid");

    let sev_snp = if config.tee_mode {
        Some(
            SevSnpConfig {
                cbitpos: 51,
                reduced_phys_bits: 1,
                vcpu_type: config.vcpu_type.clone(),
            },
        )
    } else {
        None
    };

    let katana_args = config.build_katana_args();
    let kernel_cmdline = QemuConfig::build_kernel_cmdline(&katana_args);

    let r = QemuConfig {
        memory_mb: config.memory_mb,
        vcpus: config.vcpus,
        cpu_type: config.vcpu_type.clone(),
        kernel_path: config.kernel_path.clone(),
        initrd_path: config.initrd_path.clone(),
        bios_path: clone_opt_string(&config.ovmf_path),
        kernel_cmdline,
        rpc_port: config.rpc_port,
        disk_image: clone_opt_string(&config.disk_image),
        qmp_socket,
        serial_log,
        pid_file,
        sev_snp,
        enable_kvm: true,
    };
    proof {
        assert(r@.qmp_socket =~= state@.config.data_dir + "/qmp.sock"@);
        assert(r@.serial_log =~= state@.config.data_dir + "/serial.log"@);
        assert(r@.pid_file =~= state@.config.data_dir + "/qemu.pid"@);
    }
    Ok(r)
}

/// The port create chooses: the requested port when it is free, otherwise
/// the lowest free port at or above the default base, or nothing when none
/// is free.
pub open spec fn chosen_port(ps: Seq<PortView>, req_port: Option<u16>) -> Option<u16> {
    if req_port is Some {
        if port_taken(ps, req_port->0) {
            None
        } else {
            req_port
        }
    } else {
        if exists|q: u16| 5050 <= q && !port_taken(ps, q) {
            Some(
                choose|q: u16|
                    5050 <= q && !port_taken(ps, q) && forall|p: u16|
                        5050 <= p < q ==> port_taken(ps, p),
            )
        } else {
            None
        }
    }
}

/// The extra guest arguments for a request: the caller's, with the
/// confidential-compute provider flags appended when enabled.
pub open spec fn extra_args_of(req: CreateRequestView) -> Seq<Seq<char>> {
    if req.tee {
        req.extra_args + seq!["--tee.provider"@, "sev-snp"@]
    } else {
        req.extra_args
    }
}

/// The record create persists for a request, given the chosen id and port.
pub open spec fn created_record(
    req: CreateRequestView,
    id: Seq<char>,
    boot: crate::boot::BootView,
    base_dir: Seq<char>,
    port: u16,
    now: i64,
) -> InstanceView {
    let dir = instance_dir_spec(base_dir, id);
    InstanceView {
        id: id,
        name: req.name,
        status: StatusView::Created,
        config: ConfigView {
            vcpus: req.vcpus,
            memory_mb: parsed_size(req.memory)->0 / 1024 / 1024,
            storage_bytes: parsed_size(req.storage)->0,
            quota_project_id: None,
            rpc_port: port,
            metrics_port: None,
            tee_mode: req.tee,
            vcpu_type: if req.tee {
                req.vcpu_type
            } else {
                "host"@
            },
            expected_measurement: None,
            kernel_path: boot.kernel_path,
            initrd_path: boot.initrd_path,
            ovmf_path: Some(boot.ovmf_path),
            data_dir: dir,
            disk_image: Some(dir + "/katana-data.qcow2"@),
            chain_id: req.chain_id,
            dev_mode: req.dev,
            block_time: req.block_time,
            accounts: if req.accounts is Some {
                req.accounts
            } else {
                Some(10u16)
            },
            disable_fee: req.disable_fee,
            extra_args: extra_args_of(req),
        },
        vm_pid: None,
        qmp_socket: Some(dir + "/qmp.sock"@),
        serial_log: Some(dir + "/serial.log"@),
        created_at: now,
        updated_at: now,
    }
}

/// Create an instance under a caller-chosen fresh id: the record enters the
/// store in `Created` status and its RPC port is reserved. Fails with
/// `AlreadyExists` when the name is taken (the store is unchanged), with
/// `BadRequest` when a size does not parse, is under the minimum, or no
/// port is free, and with `Internal` when the id collides.
pub fn create_instance_with_id(
    db: &mut StateDatabase,
    storage: &StorageManager,
    boot: &BootComponents,
    allocator: &crate::ports::PortAllocator,
    req: &CreateRequest,
    id: &str,
    now: i64,
) -> (r: Result<InstanceState, HypervisorError>)
    requires
        old(db).wf(),
    ensures
        final(db).wf(),
        has_name(old(db).instances(), req@.name) ==> (r matches Err(e) && e@
            == ErrorView::AlreadyExists(req@.name) && final(db).instances() == old(db).instances()
            && final(db).port_entries() == old(db).port_entries()),
        r is Err ==> final(db).instances() == old(db).instances() && final(db).port_entries()
            == old(db).port_entries(),
        r matches Err(e) ==> (e@ matches ErrorView::AlreadyExists(_) || e@
            matches ErrorView::BadRequest(_) || e@ matches ErrorView::Internal(_)),
        !has_name(old(db).instances(), req@.name) && has_id(old(db).instances(), id@) ==> (r
            matches Err(e) && e@ matches ErrorView::Internal(_)),
        !has_name(old(db).instances(), req@.name) && !has_id(old(db).instances(), id@) && (
        parsed_size(req@.memory) is None || parsed_size(req@.storage) is None || parsed_size(
            req@.storage,
        )->0 < MIN_STORAGE_SIZE || chosen_port(old(db).port_entries(), req@.port) is None) ==> (r
            matches Err(e) && e@ matches ErrorView::BadRequest(_)),
        r is Ok <==> !has_name(old(db).instances(), req@.name) && !has_id(
            old(db).instances(),
            id@,
        ) && parsed_size(req@.memory) is Some && parsed_size(req@.storage) is Some
            && parsed_size(req@.storage)->0 >= MIN_STORAGE_SIZE && chosen_port(
            old(db).port_entries(),
            req@.port,
        ) is Some,
        r matches Ok(st) ==> ({
            let port = chosen_port(old(db).port_entries(), req@.port)->0;
            let rec = created_record(req@, id@, boot@, storage@, port, now);
            &&& st@ == rec
            &&& final(db).instances() == old(db).instances().push(rec)
            &&& final(db).port_entries() == old(db).port_entries().push(
                (PortView { port, instance_id: id@, port_type: "rpc"@ }),
            )
        }),
{
    proof {
        reveal_strlit("host");
        reveal_strlit("rpc");
        reveal_strlit("Invalid memory size: ");
        reveal_strlit("Invalid storage size: ");
        reveal_strlit("Port is not available");
        reveal_strlit("instance id collision");
        reveal_strlit("--tee.provider");
        reveal_strlit("sev-snp");
        reveal_strlit("/");
        reveal_strlit("katana-data.qcow2");
        reveal_strlit("/katana-data.qcow2");
        reveal_strlit("qmp.sock");
        reveal_strlit("/qmp.sock");
        reveal_strlit("serial.log");
        reveal_strlit("/serial.log");
    }
    let name_taken = match db.instance_exists(req.name.as_str()) {
        Ok(b) => b,
        Err(_) => true,
    };
    if name_taken {
        return Err(HypervisorError::AlreadyExists(req.name.clone()));
    }
    match db.get_instance_by_id(id) {
        Ok(_) => {
            return Err(
                HypervisorError::Internal(String::from_str("instance id collision")),
            );
        },
        Err(_) => {},
    }
    let memory_bytes = match parse_size(req.memory.as_str()) {
        Ok(v) => v,
        Err(e) => {
            let mut m = String::from_str("Invalid memory size: ");
            m.append(e.as_str());
            return Err(HypervisorError::BadRequest(m));
        },
    };
    let memory_mb = memory_bytes / 1024 / 1024;
    let storage_bytes = match parse_size(req.storage.as_str()) {
        Ok(v) => v,
        Err(e) => {
            let mut m = String::from_str("Invalid storage size: ");
            m.append(e.as_str());
            return Err(HypervisorError::BadRequest(m));
        },
    };
    match storage.validate_storage_size(storage_bytes) {
        Ok(()) => {},
        Err(e) => {
            return Err(e);
        },
    }
    let rpc_port = match req.port {
        Some(p) => {
            let available = match allocator.is_port_available(db, p) {
                Ok(b) => b,
                Err(_) => false,
            };
            if !available {
                return Err(
                    HypervisorError::BadRequest(String::from_str("Port is not available")),
                );
            }
            p
        },
        None => {
            match allocator.allocate_port(db, 5050) {
                Ok(p) => p,
                Err(e) => {
                    proof {
                        assert(chosen_port(db.port_entries(), req@.port) is None);
                    }
                    return Err(e);
                },
            }
        },
    };
    proof {
        if req@.port is None {
            let q0 = chosen_port(old(db).port_entries(), req@.port)->0;
            assert(5050 <= rpc_port && !port_taken(db.port_entries(), rpc_port) && forall|
                p: u16,
            | 5050 <= p < rpc_port ==> port_taken(db.port_entries(), p));
            assert(chosen_port(db.port_entries(), req@.port) is Some);
            assert(5050 <= q0 && !port_taken(db.port_entries(), q0) && forall|p: u16|
                5050 <= p < q0 ==> port_taken(db.port_entries(), p));
            if q0 < rpc_port {
                assert(port_taken(db.port_entries(), q0));
                assert(false);
            }
            if rpc_port < q0 {
                assert(port_taken(db.port_entries(), rpc_port));
                assert(false);
            }
        }
    }

    let paths = storage.get_paths(id);

    let mut extra_args = clone_string_vec(&req.extra_args);
    if req.tee {
        extra_args.push(String::from_str("--tee.provider"));
        extra_args.push(String::from_str("sev-snp"));
    }
    proof {
        assert(extra_args.deep_view() =~= extra_args_of(req@));
    }

    let config = InstanceConfig {
        vcpus: req.vcpus,
        memory_mb,
        storage_bytes,
        quota_project_id: None,
        rpc_port,
        metrics_port: None,
        tee_mode: req.tee,
        vcpu_type: if req.tee {
            req.vcpu_type.clone()
        } else {
            String::from_str("host")
        },
        expected_measurement: None,
        kernel_path: boot.kernel_path.clone(),
        initrd_path: boot.initrd_path.clone(),
        ovmf_path: Some(boot.ovmf_path.clone()),
        data_dir: paths.instance_dir,
        disk_image: Some(paths.disk_image),
        chain_id: clone_opt_string(&req.chain_id),
        dev_mode: req.dev,
        block_time: req.block_time,
        accounts: match req.accounts {
            Some(a) => Some(a),
            None => Some(10),
        },
        disable_fee: req.disable_fee,
        extra_args,
    };

    let state = InstanceState {
        id: String::from_str(id),
        name: req.name.clone(),
        status: InstanceStatus::Created,
        config,
        vm_pid: None,
        qmp_socket: Some(paths.qmp_socket),
        serial_log: Some(paths.serial_log),
        created_at: now,
        updated_at: now,
    };
    proof {
        let dir = instance_dir_spec(storage@, id@);
        assert(state@.config.disk_image->0 =~= dir + "/katana-data.qcow2"@);
        assert(state@.qmp_socket->0 =~= dir + "/qmp.sock"@);
        assert(state@.serial_log->0 =~= dir + "/serial.log"@);
        assert(state@ == created_record(
            req@,
            id@,
            boot@,
            storage@,
            rpc_port,
            now,
        ));
    }

    let saved = db.save_instance_at(&state, now);
    proof {
        assert(save_admissible(old(db).instances(), state@));
        assert(stamped(state@, now) == state@);
        assert(save_effect(old(db).instances(), state@, now) =~= old(db).instances().push(
            state@,
        ));
    }
    match saved {
        Ok(()) => {},
        Err(e) => {
            return Err(e);
        },
    }
    proof {
        let news = db.instances();
        assert(news[news.len() - 1].id == id@);
        assert(has_id(news, id@));
    }
    let reserved = db.allocate_port(id, rpc_port, "rpc");
    match reserved {
        Ok(()) => {},
        Err(e) => {
            return Err(e);
        },
    }
    Ok(state)
}

/// Create an instance under a freshly drawn random id.
pub fn create_instance(
    db: &mut StateDatabase,
    storage: &StorageManager,
    boot: &BootComponents,
    allocator: &crate::ports::PortAllocator,
    req: &CreateRequest,
    now: i64,
) -> (r: Result<InstanceState, HypervisorError>)
    requires
        old(db).wf(),
    ensures
        final(db).wf(),
        has_name(old(db).instances(), req@.name) ==> (r matches Err(e) && e@
            == ErrorView::AlreadyExists(req@.name) && final(db).instances() == old(db).instances()
            && final(db).port_entries() == old(db).port_entries()),
        r is Err ==> final(db).instances() == old(db).instances() && final(db).port_entries()
            == old(db).port_entries(),
        r matches Ok(st) ==> ({
            let port = chosen_port(old(db).port_entries(), req@.port)->0;
            let rec = created_record(req@, st@.id, boot@, storage@, port, now);
            &&& st@ == rec
            &&& final(db).instances() == old(db).instances().push(rec)
            &&& final(db).port_entries() == old(db).port_entries().push(
                (PortView { port, instance_id: st@.id, port_type: "rpc"@ }),
            )
        }),
{
    let id = new_instance_id();
    create_instance_with_id(db, storage, boot, allocator, req, id.as_str(), now)
}

/// The record at the given name.
pub open spec fn record_of(s: Seq<InstanceView>, name: Seq<char>) -> InstanceView {
    s[idx_of_name(s, name)]
}

/// The record after a successful launch: running, with the pid recorded.
pub open spec fn started(r: InstanceView, pid: i32, now: i64) -> InstanceView {
    InstanceView { status: StatusView::Running, vm_pid: Some(pid), updated_at: now, ..r }
}

/// The record after a successful stop: stopped, with the pid cleared.
pub open spec fn stopped(r: InstanceView, now: i64) -> InstanceView {
    InstanceView { status: StatusView::Stopped, vm_pid: None, updated_at: now, ..r }
}

/// The record marked failed with a reason.
pub open spec fn failed(r: InstanceView, msg: Seq<char>, now: i64) -> InstanceView {
    with_status(r, StatusView::Failed { error: msg }, now)
}

/// The record marked failed with the pid cleared: the process is no longer
/// trusted to be ours.
pub open spec fn failed_detached(r: InstanceView, msg: Seq<char>, now: i64) -> InstanceView {
    InstanceView {
        status: StatusView::Failed { error: msg },
        vm_pid: None,
        updated_at: now,
        ..r
    }
}

/// Persist a record that replaces an existing one (same id and name),
/// already stamped with the save time.
fn save_existing(db: &mut StateDatabase, rec: &InstanceState, now: i64)
    requires
        old(db).wf(),
        exists|i: int|
            0 <= i < old(db).instances().len() && (#[trigger] old(db).instances()[i]).id
                == rec@.id && old(db).instances()[i].name == rec@.name,
        rec@.updated_at == now,
    ensures
        final(db).wf(),
        final(db).port_entries() == old(db).port_entries(),
        final(db).instances() == old(db).instances().update(
            idx_of_id(old(db).instances(), rec@.id),
            rec@,
        ),
{
    proof {
        let s = old(db).instances();
        let i = choose|i: int| 0 <= i < s.len() && (#[trigger] s[i]).id == rec@.id && s[i].name == rec@.name;
        assert(has_id(s, rec@.id));
        let w = idx_of_id(s, rec@.id);
        assert(0 <= w < s.len() && s[w].id == rec@.id);
        assert(w == i);
        assert forall|j: int| 0 <= j < s.len() && s[j].name == rec@.name implies j == w by {
            if j != i {
                assert(s[j].name != s[i].name);
            }
        }
        assert(save_admissible(s, rec@));
    }
    let r = db.save_instance_at(rec, now);
    proof {
        assert(stamped(rec@, now) == rec@);
    }
    match r {
        Ok(()) => {},
        Err(_) => {
            // Admissibility was established above, so the save cannot fail.
            proof {
                assert(false);
            }
        },
    }
}

/// What the caller must do to start an instance.
pub enum StartAction {
    /// Nothing: the instance is already running.
    AlreadyRunning,
    /// Spawn the hypervisor with this configuration, wait for its pid file,
    /// and report the outcome to `finish_start_instance`.
    Launch(QemuConfig),
}

/// Begin starting an instance. From `Created` or `Stopped` the record is
/// journalled `Starting` and the caller receives the launch configuration;
/// a missing kernel or initrd marks the record `Failed` with the missing
/// path. Starting is idempotent when already running and conflicts with a
/// start in progress.
pub fn start_instance(
    db: &mut StateDatabase,
    name: &str,
    kernel_exists: bool,
    initrd_exists: bool,
    now: i64,
) -> (r: Result<StartAction, HypervisorError>)
    requires
        old(db).wf(),
    ensures
        final(db).wf(),
        final(db).port_entries() == old(db).port_entries(),
        !has_name(old(db).instances(), name@) ==> (r matches Err(e) && e@ == ErrorView::NotFound(
            name@,
        ) && final(db).instances() == old(db).instances()),
        has_name(old(db).instances(), name@) ==> ({
            let s = old(db).instances();
            let i = idx_of_name(s, name@);
            let r0 = record_of(s, name@);
            let kmsg = "Kernel not found at "@ + r0.config.kernel_path;
            let imsg = "Initrd not found at "@ + r0.config.initrd_path;
            &&& r0.status is Running ==> (r matches Ok(a) && a is AlreadyRunning && final(db).instances() == s)
            &&& r0.status is Starting ==> (r matches Err(e) && e@ matches ErrorView::Conflict(_)
                && final(db).instances() == s)
            &&& !(r0.status is Running || r0.status is Starting || r0.status is Created
                || r0.status is Stopped) ==> (r matches Err(e) && e@
                matches ErrorView::InvalidTransition { .. } && final(db).instances() == s)
            &&& (r0.status is Created || r0.status is Stopped) && !kernel_exists ==> (r matches Err(
                e,
            ) && e@ == ErrorView::HypervisorLaunchFailed(kmsg) && final(db).instances()
                == s.update(i, failed(r0, kmsg, now)))
            &&& (r0.status is Created || r0.status is Stopped) && kernel_exists && !initrd_exists
                ==> (r matches Err(e) && e@ == ErrorView::HypervisorLaunchFailed(imsg) && final(db).instances() == s.update(i, failed(r0, imsg, now)))
            &&& (r0.status is Created || r0.status is Stopped) && kernel_exists && initrd_exists
                ==> (r matches Ok(a) && (a matches StartAction::Launch(cfg) && cfg@
                == qemu_config_of(r0)) && final(db).instances() == s.update(
                i,
                with_status(r0, StatusView::Starting, now),
            ))
        }),
{
    proof {
        reveal_strlit("Kernel not found at ");
        reveal_strlit("Initrd not found at ");
        reveal_strlit("already starting");
        reveal_strlit("start");
    }
    let st = match db.get_instance(name) {
        Ok(st) => st,
        Err(e) => {
            return Err(e);
        },
    };
    let ghost s = old(db).instances();
    let ghost i = idx_of_name(s, name@);
    match &st.status {
        InstanceStatus::Running => {
            return Ok(StartAction::AlreadyRunning);
        },
        InstanceStatus::Starting => {
            return Err(HypervisorError::Conflict(String::from_str("already starting")));
        },
        InstanceStatus::Created => {},
        InstanceStatus::Stopped => {},
        _ => {
            return Err(
                HypervisorError::InvalidTransition {
                    from: st.status.status_str(),
                    operation: String::from_str("start"),
                },
            );
        },
    }
    if !kernel_exists {
        let mut msg = String::from_str("Kernel not found at ");
        msg.append(st.config.kernel_path.as_str());
        let mut marked = st;
        let reason = msg.clone();
        marked.update_status_at(InstanceStatus::Failed { error: reason }, now);
        save_existing(db, &marked, now);
        proof {
            lemma_name_id_same_index(s, name@, marked@.id);
        }
        return Err(HypervisorError::HypervisorLaunchFailed(msg));
    }
    if !initrd_exists {
        let mut msg = String::from_str("Initrd not found at ");
        msg.append(st.config.initrd_path.as_str());
        let mut marked = st;
        let reason = msg.clone();
        marked.update_status_at(InstanceStatus::Failed { error: reason }, now);
        save_existing(db, &marked, now);
        proof {
            lemma_name_id_same_index(s, name@, marked@.id);
        }
        return Err(HypervisorError::HypervisorLaunchFailed(msg));
    }
    let cfg = match instance_state_to_qemu_config(&st) {
        Ok(cfg) => cfg,
        Err(e) => {
            return Err(e);
        },
    };
    let mut journalled = st;
    journalled.update_status_at(InstanceStatus::Starting, now);
    save_existing(db, &journalled, now);
    proof {
        lemma_name_id_same_index(s, name@, journalled@.id);
    }
    Ok(StartAction::Launch(cfg))
}

/// In a store with unique ids, the record found by name is the record found
/// by its own id.
proof fn lemma_name_id_same_index(s: Seq<InstanceView>, name: Seq<char>, id: Seq<char>)
    requires
        crate::db::ids_unique(s),
        has_name(s, name),
        record_of(s, name).id == id,
    ensures
        has_id(s, id),
        idx_of_id(s, id) == idx_of_name(s, name),
{
    let i = idx_of_name(s, name);
    assert(0 <= i < s.len() && s[i].name == name);
    assert(s[i].id == id);
    assert(has_id(s, id));
    let w = idx_of_id(s, id);
    assert(0 <= w < s.len() && s[w].id == id);
    if w != i {
        assert(s[if w < i { w } else { i }].id != s[if w < i { i } else { w }].id);
    }
}

/// Commit the outcome of a launch: the pid on success (the record becomes
/// `Running`), or the failure reason (the record becomes `Failed`).
pub fn finish_start_instance(
    db: &mut StateDatabase,
    name: &str,
    outcome: &Result<i32, String>,
    now: i64,
) -> (r: Result<InstanceState, HypervisorError>)
    requires
        old(db).wf(),
    ensures
        final(db).wf(),
        final(db).port_entries() == old(db).port_entries(),
        !has_name(old(db).instances(), name@) ==> (r matches Err(e) && e@ == ErrorView::NotFound(
            name@,
        ) && final(db).instances() == old(db).instances()),
        has_name(old(db).instances(), name@) ==> ({
            let s = old(db).instances();
            let i = idx_of_name(s, name@);
            let r0 = record_of(s, name@);
            &&& outcome matches Ok(pid) ==> (r matches Ok(st) && st@ == started(r0, *pid, now)
                && final(db).instances() == s.update(i, started(r0, *pid, now)))
            &&& outcome matches Err(e) ==> (r matches Err(err) && err@
                == ErrorView::HypervisorLaunchFailed("Failed to launch VM: "@ + e@) && final(db).instances() == s.update(i, failed(r0, "Failed to launch VM: "@ + e@, now)))
        }),
{
    proof {
        reveal_strlit("Failed to launch VM: ");
    }
    let st = match db.get_instance(name) {
        Ok(st) => st,
        Err(e) => {
            return Err(e);
        },
    };
    let ghost s = old(db).instances();
    match outcome {
        Ok(pid) => {
            let mut updated = st;
            updated.vm_pid = Some(*pid);
            updated.update_status_at(InstanceStatus::Running, now);
            let result = updated.clone();
            save_existing(db, &updated, now);
            proof {
                lemma_name_id_same_index(s, name@, updated@.id);
                assert(updated@ == started(record_of(s, name@), *pid, now));
            }
            Ok(result)
        },
        Err(e) => {
            let mut msg = String::from_str("Failed to launch VM: ");
            msg.append(e.as_str());
            let mut marked = st;
            let reason = msg.clone();
            marked.update_status_at(InstanceStatus::Failed { error: reason }, now);
            save_existing(db, &marked, now);
            proof {
                lemma_name_id_same_index(s, name@, marked@.id);
            }
            Err(HypervisorError::HypervisorLaunchFailed(msg))
        },
    }
}

/// What the caller must do to pause an instance.
pub enum PauseAction {
    /// Nothing: the instance is already paused.
    AlreadyPaused,
    /// Send this control-socket request and report the outcome to
    /// `finish_pause_instance`.
    Send(QmpRequest),
}

/// Begin pausing an instance (freeze vcpus at the hypervisor level). Only a
/// running instance can be paused; the record is journalled `Pausing` and
/// the caller receives the control-socket request.
pub fn pause_instance(db: &mut StateDatabase, name: &str, now: i64) -> (r: Result<
    PauseAction,
    HypervisorError,
>)
    requires
        old(db).wf(),
    ensures
        final(db).wf(),
        final(db).port_entries() == old(db).port_entries(),
        !has_name(old(db).instances(), name@) ==> (r matches Err(e) && e@ == ErrorView::NotFound(
            name@,
        ) && final(db).instances() == old(db).instances()),
        has_name(old(db).instances(), name@) ==> ({
            let s = old(db).instances();
            let i = idx_of_name(s, name@);
            let r0 = record_of(s, name@);
            &&& r0.status is Paused ==> (r matches Ok(a) && a is AlreadyPaused && final(
                db).instances() == s)
            &&& r0.status is Pausing ==> (r matches Err(e) && e@ matches ErrorView::Conflict(_)
                && final(db).instances() == s)
            &&& !(r0.status is Paused || r0.status is Pausing || r0.status is Running) ==> (r
                matches Err(e) && e@ matches ErrorView::InvalidTransition { .. } && final(
                db).instances() == s)
            &&& r0.status is Running && r0.qmp_socket is None ==> (r matches Err(e) && e@
                matches ErrorView::Internal(_) && final(db).instances() == s)
            &&& r0.status is Running && r0.qmp_socket is Some ==> (r matches Ok(a) && (a
                matches PauseAction::Send(q) && q.socket@ == r0.qmp_socket->0 && q.command is Stop
                && q.line@ == request_line_spec(QmpCommand::Stop)) && final(db).instances()
                == s.update(i, with_status(r0, StatusView::Pausing, now)))
        }),
{
    proof {
        reveal_strlit("already pausing");
        reveal_strlit("pause");
        reveal_strlit("Instance has no control socket");
    }
    let st = match db.get_instance(name) {
        Ok(st) => st,
        Err(e) => {
            return Err(e);
        },
    };
    let ghost s = old(db).instances();
    match &st.status {
        InstanceStatus::Paused => {
            return Ok(PauseAction::AlreadyPaused);
        },
        InstanceStatus::Pausing => {
            return Err(HypervisorError::Conflict(String::from_str("already pausing")));
        },
        _ => {},
    }
    if !st.status.can_pause() {
        return Err(
            HypervisorError::InvalidTransition {
                from: st.status.status_str(),
                operation: String::from_str("pause"),
            },
        );
    }
    let socket = match &st.qmp_socket {
        Some(sock) => sock.clone(),
        None => {
            return Err(
                HypervisorError::Internal(String::from_str("Instance has no control socket")),
            );
        },
    };
    let cmd = QmpCommand::Stop;
    let request = QmpRequest { socket, line: cmd.request_line(), command: cmd };
    let mut journalled = st;
    journalled.update_status_at(InstanceStatus::Pausing, now);
    save_existing(db, &journalled, now);
    proof {
        lemma_name_id_same_index(s, name@, journalled@.id);
    }
    Ok(PauseAction::Send(request))
}

/// Commit the outcome of a pause: `Paused` on success; on failure the
/// status rewinds to `Running` (a pause begins only there) and the peer's
/// refusal surfaces as a protocol failure.
pub fn finish_pause_instance(
    db: &mut StateDatabase,
    name: &str,
    outcome: &Result<(), String>,
    now: i64,
) -> (r: Result<InstanceState, HypervisorError>)
    requires
        old(db).wf(),
    ensures
        final(db).wf(),
        final(db).port_entries() == old(db).port_entries(),
        !has_name(old(db).instances(), name@) ==> (r matches Err(e) && e@ == ErrorView::NotFound(
            name@,
        ) && final(db).instances() == old(db).instances()),
        has_name(old(db).instances(), name@) ==> ({
            let s = old(db).instances();
            let i = idx_of_name(s, name@);
            let r0 = record_of(s, name@);
            &&& outcome is Ok ==> (r matches Ok(st) && st@ == with_status(
                r0,
                StatusView::Paused,
                now,
            ) && final(db).instances() == s.update(i, with_status(r0, StatusView::Paused, now)))
            &&& outcome matches Err(e) ==> (r matches Err(err) && err@
                == ErrorView::HypervisorProtocolFailed("Failed to pause VM: "@ + e@) && final(
                db).instances() == s.update(i, with_status(r0, StatusView::Running, now)))
        }),
{
    proof {
        reveal_strlit("Failed to pause VM: ");
    }
    let st = match db.get_instance(name) {
        Ok(st) => st,
        Err(e) => {
            return Err(e);
        },
    };
    let ghost s = old(db).instances();
    match outcome {
        Ok(()) => {
            let mut updated = st;
            updated.update_status_at(InstanceStatus::Paused, now);
            let result = updated.clone();
            save_existing(db, &updated, now);
            proof {
                lemma_name_id_same_index(s, name@, updated@.id);
            }
            Ok(result)
        },
        Err(e) => {
            let mut msg = String::from_str("Failed to pause VM: ");
            msg.append(e.as_str());
            let mut rewound = st;
            rewound.update_status_at(InstanceStatus::Running, now);
            save_existing(db, &rewound, now);
            proof {
                lemma_name_id_same_index(s, name@, rewound@.id);
            }
            Err(HypervisorError::HypervisorProtocolFailed(msg))
        },
    }
}

/// The control-socket request of a resume, with the status to rewind to on
/// failure.
pub struct ResumePlan {
    pub request: QmpRequest,
    pub previous_status: InstanceStatus,
}

/// What the caller must do to resume an instance.
pub enum ResumeAction {
    /// Nothing: the instance is already running.
    AlreadyRunning,
    /// Send the request and report the outcome to `finish_resume_instance`,
    /// passing the plan's previous status.
    Send(ResumePlan),
}

/// Begin resuming an instance: from `Paused` by unfreezing vcpus, from
/// `Suspended` by an ACPI wake. The record is journalled `Resuming`.
pub fn resume_instance(db: &mut StateDatabase, name: &str, now: i64) -> (r: Result<
    ResumeAction,
    HypervisorError,
>)
    requires
        old(db).wf(),
    ensures
        final(db).wf(),
        final(db).port_entries() == old(db).port_entries(),
        !has_name(old(db).instances(), name@) ==> (r matches Err(e) && e@ == ErrorView::NotFound(
            name@,
        ) && final(db).instances() == old(db).instances()),
        has_name(old(db).instances(), name@) ==> ({
            let s = old(db).instances();
            let i = idx_of_name(s, name@);
            let r0 = record_of(s, name@);
            &&& r0.status is Running ==> (r matches Ok(a) && a is AlreadyRunning && final(
                db).instances() == s)
            &&& r0.status is Resuming ==> (r matches Err(e) && e@ matches ErrorView::Conflict(_)
                && final(db).instances() == s)
            &&& !(r0.status is Running || r0.status is Resuming || r0.status is Paused
                || r0.status is Suspended) ==> (r matches Err(e) && e@
                matches ErrorView::InvalidTransition { .. } && final(db).instances() == s)
            &&& (r0.status is Paused || r0.status is Suspended) && r0.qmp_socket is None ==> (r
                matches Err(e) && e@ matches ErrorView::Internal(_) && final(db).instances() == s)
            &&& r0.status is Paused && r0.qmp_socket is Some ==> (r matches Ok(a) && (a
                matches ResumeAction::Send(plan) && plan.request.socket@ == r0.qmp_socket->0
                && plan.request.command is Cont && plan.request.line@ == request_line_spec(
                QmpCommand::Cont,
            ) && plan.previous_status@ is Paused) && final(db).instances() == s.update(
                i,
                with_status(r0, StatusView::Resuming, now),
            ))
            &&& r0.status is Suspended && r0.qmp_socket is Some ==> (r matches Ok(a) && (a
                matches ResumeAction::Send(plan) && plan.request.socket@ == r0.qmp_socket->0
                && plan.request.command is SystemWakeup && plan.request.line@ == request_line_spec(
                QmpCommand::SystemWakeup,
            ) && plan.previous_status@ is Suspended) && final(db).instances() == s.update(
                i,
                with_status(r0, StatusView::Resuming, now),
            ))
        }),
{
    proof {
        reveal_strlit("already resuming");
        reveal_strlit("resume");
        reveal_strlit("Instance has no control socket");
    }
    let st = match db.get_instance(name) {
        Ok(st) => st,
        Err(e) => {
            return Err(e);
        },
    };
    let ghost s = old(db).instances();
    match &st.status {
        InstanceStatus::Running => {
            return Ok(ResumeAction::AlreadyRunning);
        },
        InstanceStatus::Resuming => {
            return Err(HypervisorError::Conflict(String::from_str("already resuming")));
        },
        _ => {},
    }
    if !st.status.can_resume_from_pause() && !st.status.can_wake() {
        return Err(
            HypervisorError::InvalidTransition {
                from: st.status.status_str(),
                operation: String::from_str("resume"),
            },
        );
    }
    let socket = match &st.qmp_socket {
        Some(sock) => sock.clone(),
        None => {
            return Err(
                HypervisorError::Internal(String::from_str("Instance has no control socket")),
            );
        },
    };
    let from_suspend = st.status.can_wake();
    let cmd = if from_suspend {
        QmpCommand::SystemWakeup
    } else {
        QmpCommand::Cont
    };
    let previous_status = st.status.clone();
    let request = QmpRequest { socket, line: cmd.request_line(), command: cmd };
    let mut journalled = st;
    journalled.update_status_at(InstanceStatus::Resuming, now);
    save_existing(db, &journalled, now);
    proof {
        lemma_name_id_same_index(s, name@, journalled@.id);
    }
    Ok(ResumeAction::Send(ResumePlan { request, previous_status }))
}

/// Commit the outcome of a resume: `Running` on success; on failure the
/// status rewinds to the one held before the journal entry.
pub fn finish_resume_instance(
    db: &mut StateDatabase,
    name: &str,
    outcome: &Result<(), String>,
    previous: &InstanceStatus,
    now: i64,
) -> (r: Result<InstanceState, HypervisorError>)
    requires
        old(db).wf(),
    ensures
        final(db).wf(),
        final(db).port_entries() == old(db).port_entries(),
        !has_name(old(db).instances(), name@) ==> (r matches Err(e) && e@ == ErrorView::NotFound(
            name@,
        ) && final(db).instances() == old(db).instances()),
        has_name(old(db).instances(), name@) ==> ({
            let s = old(db).instances();
            let i = idx_of_name(s, name@);
            let r0 = record_of(s, name@);
            &&& outcome is Ok ==> (r matches Ok(st) && st@ == with_status(
                r0,
                StatusView::Running,
                now,
            ) && final(db).instances() == s.update(i, with_status(r0, StatusView::Running, now)))
            &&& outcome matches Err(e) ==> (r matches Err(err) && err@
                == ErrorView::HypervisorProtocolFailed("Failed to resume VM: "@ + e@) && final(
                db).instances() == s.update(i, with_status(r0, previous@, now)))
        }),
{
    proof {
        reveal_strlit("Failed to resume VM: ");
    }
    let st = match db.get_instance(name) {
        Ok(st) => st,
        Err(e) => {
            return Err(e);
        },
    };
    let ghost s = old(db).instances();
    match outcome {
        Ok(()) => {
            let mut updated = st;
            updated.update_status_at(InstanceStatus::Running, now);
            let result = updated.clone();
            save_existing(db, &updated, now);
            proof {
                lemma_name_id_same_index(s, name@, updated@.id);
            }
            Ok(result)
        },
        Err(e) => {
            let mut msg = String::from_str("Failed to resume VM: ");
            msg.append(e.as_str());
            let mut rewound = st;
            rewound.update_status_at(previous.clone(), now);
            save_existing(db, &rewound, now);
            proof {
                lemma_name_id_same_index(s, name@, rewound@.id);
            }
            Err(HypervisorError::HypervisorProtocolFailed(msg))
        },
    }
}

/// The control-socket requests of a suspend: an optional unfreeze first
/// (when suspending from `Paused`), then the cooperative suspend itself,
/// with the status to rewind to on failure.
pub struct SuspendPlan {
    pub precede: Option<QmpRequest>,
    pub request: QmpRequest,
    pub previous_status: InstanceStatus,
}

/// What the caller must do to suspend an instance.
pub enum SuspendAction {
    /// Nothing: the instance is already suspended.
    AlreadySuspended,
    /// Send the requests in order and report the outcome to
    /// `finish_suspend_instance`, passing the plan's previous status.
    Send(SuspendPlan),
}

/// Begin suspending an instance to RAM (guest-cooperative ACPI sleep). From
/// `Paused` the vcpus are unfrozen first so the guest can cooperate. The
/// record is journalled `Suspending`.
pub fn suspend_instance(db: &mut StateDatabase, name: &str, now: i64) -> (r: Result<
    SuspendAction,
    HypervisorError,
>)
    requires
        old(db).wf(),
    ensures
        final(db).wf(),
        final(db).port_entries() == old(db).port_entries(),
        !has_name(old(db).instances(), name@) ==> (r matches Err(e) && e@ == ErrorView::NotFound(
            name@,
        ) && final(db).instances() == old(db).instances()),
        has_name(old(db).instances(), name@) ==> ({
            let s = old(db).instances();
            let i = idx_of_name(s, name@);
            let r0 = record_of(s, name@);
            &&& r0.status is Suspended ==> (r matches Ok(a) && a is AlreadySuspended && final(
                db).instances() == s)
            &&& r0.status is Suspending ==> (r matches Err(e) && e@ matches ErrorView::Conflict(_)
                && final(db).instances() == s)
            &&& !(r0.status is Suspended || r0.status is Suspending || r0.status is Running
                || r0.status is Paused) ==> (r matches Err(e) && e@
                matches ErrorView::InvalidTransition { .. } && final(db).instances() == s)
            &&& (r0.status is Running || r0.status is Paused) && r0.qmp_socket is None ==> (r
                matches Err(e) && e@ matches ErrorView::Internal(_) && final(db).instances() == s)
            &&& (r0.status is Running || r0.status is Paused) && r0.qmp_socket is Some ==> (r
                matches Ok(a) && (a matches SuspendAction::Send(plan) && plan.request.socket@
                == r0.qmp_socket->0 && plan.request.command is SystemSuspend && plan.request.line@
                == request_line_spec(QmpCommand::SystemSuspend) && plan.previous_status@
                == r0.status && (r0.status is Paused <==> plan.precede is Some) && (plan.precede
                matches Some(p) ==> p.socket@ == r0.qmp_socket->0 && p.command is Cont && p.line@
                == request_line_spec(QmpCommand::Cont))) && final(db).instances() == s.update(
                i,
                with_status(r0, StatusView::Suspending, now),
            ))
        }),
{
    proof {
        reveal_strlit("already suspending");
        reveal_strlit("suspend");
        reveal_strlit("Instance has no control socket");
    }
    let st = match db.get_instance(name) {
        Ok(st) => st,
        Err(e) => {
            return Err(e);
        },
    };
    let ghost s = old(db).instances();
    match &st.status {
        InstanceStatus::Suspended => {
            return Ok(SuspendAction::AlreadySuspended);
        },
        InstanceStatus::Suspending => {
            return Err(HypervisorError::Conflict(String::from_str("already suspending")));
        },
        _ => {},
    }
    if !st.status.can_suspend() {
        return Err(
            HypervisorError::InvalidTransition {
                from: st.status.status_str(),
                operation: String::from_str("suspend"),
            },
        );
    }
    let socket = match &st.qmp_socket {
        Some(sock) => sock.clone(),
        None => {
            return Err(
                HypervisorError::Internal(String::from_str("Instance has no control socket")),
            );
        },
    };
    let precede = if st.status.can_resume_from_pause() {
        let cont = QmpCommand::Cont;
        Some(QmpRequest { socket: socket.clone(), line: cont.request_line(), command: cont })
    } else {
        None
    };
    let cmd = QmpCommand::SystemSuspend;
    let previous_status = st.status.clone();
    let request = QmpRequest { socket, line: cmd.request_line(), command: cmd };
    let mut journalled = st;
    journalled.update_status_at(InstanceStatus::Suspending, now);
    save_existing(db, &journalled, now);
    proof {
        lemma_name_id_same_index(s, name@, journalled@.id);
    }
    Ok(SuspendAction::Send(SuspendPlan { precede, request, previous_status }))
}

/// Commit the outcome of a suspend: `Suspended` on success (the guest
/// acknowledged the request; quiescing is asynchronous); on failure the
/// status rewinds to the one held before the journal entry.
pub fn finish_suspend_instance(
    db: &mut StateDatabase,
    name: &str,
    outcome: &Result<(), String>,
    previous: &InstanceStatus,
    now: i64,
) -> (r: Result<InstanceState, HypervisorError>)
    requires
        old(db).wf(),
    ensures
        final(db).wf(),
        final(db).port_entries() == old(db).port_entries(),
        !has_name(old(db).instances(), name@) ==> (r matches Err(e) && e@ == ErrorView::NotFound(
            name@,
        ) && final(db).instances() == old(db).instances()),
        has_name(old(db).instances(), name@) ==> ({
            let s = old(db).instances();
            let i = idx_of_name(s, name@);
            let r0 = record_of(s, name@);
            &&& outcome is Ok ==> (r matches Ok(st) && st@ == with_status(
                r0,
                StatusView::Suspended,
                now,
            ) && final(db).instances() == s.update(i, with_status(r0, StatusView::Suspended, now)))
            &&& outcome matches Err(e) ==> (r matches Err(err) && err@
                == ErrorView::HypervisorProtocolFailed("Failed to suspend VM: "@ + e@) && final(
                db).instances() == s.update(i, with_status(r0, previous@, now)))
        }),
{
    proof {
        reveal_strlit("Failed to suspend VM: ");
    }
    let st = match db.get_instance(name) {
        Ok(st) => st,
        Err(e) => {
            return Err(e);
        },
    };
    let ghost s = old(db).instances();
    match outcome {
        Ok(()) => {
            let mut updated = st;
            updated.update_status_at(InstanceStatus::Suspended, now);
            let result = updated.clone();
            save_existing(db, &updated, now);
            proof {
                lemma_name_id_same_index(s, name@, updated@.id);
            }
            Ok(result)
        },
        Err(e) => {
            let mut msg = String::from_str("Failed to suspend VM: ");
            msg.append(e.as_str());
            let mut rewound = st;
            rewound.update_status_at(previous.clone(), now);
            save_existing(db, &rewound, now);
            proof {
                lemma_name_id_same_index(s, name@, rewound@.id);
            }
            Err(HypervisorError::HypervisorProtocolFailed(msg))
        },
    }
}

/// The control-socket requests of a reset: an optional unfreeze first (when
/// resetting from `Paused`), then the hard reset, with the status to rewind
/// to on failure.
pub struct ResetPlan {
    pub precede: Option<QmpRequest>,
    pub request: QmpRequest,
    pub previous_status: InstanceStatus,
}

/// Begin resetting an instance (hard reboot; the hypervisor process stays).
/// Permitted from `Running` or `Paused`; from `Paused` the vcpus are
/// unfrozen first. The record is journalled `Starting` and keeps its pid:
/// only the guest restarts.
pub fn reset_instance(db: &mut StateDatabase, name: &str, now: i64) -> (r: Result<
    ResetPlan,
    HypervisorError,
>)
    requires
        old(db).wf(),
    ensures
        final(db).wf(),
        final(db).port_entries() == old(db).port_entries(),
        !has_name(old(db).instances(), name@) ==> (r matches Err(e) && e@ == ErrorView::NotFound(
            name@,
        ) && final(db).instances() == old(db).instances()),
        has_name(old(db).instances(), name@) ==> ({
            let s = old(db).instances();
            let i = idx_of_name(s, name@);
            let r0 = record_of(s, name@);
            &&& !(r0.status is Running || r0.status is Paused) ==> (r matches Err(e) && e@
                matches ErrorView::InvalidTransition { .. } && final(db).instances() == s)
            &&& (r0.status is Running || r0.status is Paused) && r0.qmp_socket is None ==> (r
                matches Err(e) && e@ matches ErrorView::Internal(_) && final(db).instances() == s)
            &&& (r0.status is Running || r0.status is Paused) && r0.qmp_socket is Some ==> (r
                matches Ok(plan) && (plan.request.socket@ == r0.qmp_socket->0
                && plan.request.command is SystemReset && plan.request.line@ == request_line_spec(
                QmpCommand::SystemReset,
            ) && plan.previous_status@ == r0.status && (r0.status is Paused <==> plan.precede
                is Some) && (plan.precede matches Some(p) ==> p.socket@ == r0.qmp_socket->0
                && p.command is Cont && p.line@ == request_line_spec(QmpCommand::Cont))) && final(
                db).instances() == s.update(i, with_status(r0, StatusView::Starting, now)))
        }),
{
    proof {
        reveal_strlit("reset");
        reveal_strlit("Instance has no control socket");
    }
    let st = match db.get_instance(name) {
        Ok(st) => st,
        Err(e) => {
            return Err(e);
        },
    };
    let ghost s = old(db).instances();
    if !st.status.can_reset() {
        return Err(
            HypervisorError::InvalidTransition {
                from: st.status.status_str(),
                operation: String::from_str("reset"),
            },
        );
    }
    let socket = match &st.qmp_socket {
        Some(sock) => sock.clone(),
        None => {
            return Err(
                HypervisorError::Internal(String::from_str("Instance has no control socket")),
            );
        },
    };
    let precede = if st.status.can_resume_from_pause() {
        let cont = QmpCommand::Cont;
        Some(QmpRequest { socket: socket.clone(), line: cont.request_line(), command: cont })
    } else {
        None
    };
    let cmd = QmpCommand::SystemReset;
    let previous_status = st.status.clone();
    let request = QmpRequest { socket, line: cmd.request_line(), command: cmd };
    let mut journalled = st;
    journalled.update_status_at(InstanceStatus::Starting, now);
    save_existing(db, &journalled, now);
    proof {
        lemma_name_id_same_index(s, name@, journalled@.id);
    }
    Ok(ResetPlan { precede, request, previous_status })
}

/// Commit the outcome of a reset: on success the record returns to
/// `Running` with its pid untouched (the subprocess did not restart, only
/// the guest did); on failure the status rewinds to the one held before.
pub fn finish_reset_instance(
    db: &mut StateDatabase,
    name: &str,
    outcome: &Result<(), String>,
    previous: &InstanceStatus,
    now: i64,
) -> (r: Result<InstanceState, HypervisorError>)
    requires
        old(db).wf(),
    ensures
        final(db).wf(),
        final(db).port_entries() == old(db).port_entries(),
        !has_name(old(db).instances(), name@) ==> (r matches Err(e) && e@ == ErrorView::NotFound(
            name@,
        ) && final(db).instances() == old(db).instances()),
        has_name(old(db).instances(), name@) ==> ({
            let s = old(db).instances();
            let i = idx_of_name(s, name@);
            let r0 = record_of(s, name@);
            &&& outcome is Ok ==> (r matches Ok(st) && st@ == with_status(
                r0,
                StatusView::Running,
                now,
            ) && st@.vm_pid == r0.vm_pid && final(db).instances() == s.update(
                i,
                with_status(r0, StatusView::Running, now),
            ))
            &&& outcome matches Err(e) ==> (r matches Err(err) && err@
                == ErrorView::HypervisorProtocolFailed("Failed to reset VM: "@ + e@) && final(
                db).instances() == s.update(i, with_status(r0, previous@, now)))
        }),
{
    proof {
        reveal_strlit("Failed to reset VM: ");
    }
    let st = match db.get_instance(name) {
        Ok(st) => st,
        Err(e) => {
            return Err(e);
        },
    };
    let ghost s = old(db).instances();
    match outcome {
        Ok(()) => {
            let mut updated = st;
            updated.update_status_at(InstanceStatus::Running, now);
            let result = updated.clone();
            save_existing(db, &updated, now);
            proof {
                lemma_name_id_same_index(s, name@, updated@.id);
            }
            Ok(result)
        },
        Err(e) => {
            let mut msg = String::from_str("Failed to reset VM: ");
            msg.append(e.as_str());
            let mut rewound = st;
            rewound.update_status_at(previous.clone(), now);
            save_existing(db, &rewound, now);
            proof {
                lemma_name_id_same_index(s, name@, rewound@.id);
            }
            Err(HypervisorError::HypervisorProtocolFailed(msg))
        },
    }
}

/// How a stop attempt ended, as the caller observed it.
pub enum StopOutcome {
    /// The process exited within the grace period (or after the forceful
    /// signal).
    Stopped,
    /// Signalling failed but the process is in fact gone: the caller's
    /// intent is satisfied.
    ProcessGone,
    /// Signalling failed and the process is still alive.
    Failed(String),
}

/// The termination work of a stop: an optional control-socket request that
/// makes the guest responsive first, then graceful-then-forceful signalling
/// of the pid, with the status to rewind to on failure.
pub struct StopPlan {
    pub pid: i32,
    pub grace_seconds: u64,
    pub precede: Option<QmpRequest>,
    pub previous_status: InstanceStatus,
}

/// Begin stopping an instance. Permitted from `Running`, `Paused` and
/// `Suspended`; from the latter two the guest is made responsive first
/// (unfreeze or wake) so the termination signal reaches it. The record is
/// journalled `Stopping`. Stopping is idempotent when already stopped,
/// created or failed.
pub fn stop_instance(db: &mut StateDatabase, name: &str, grace_seconds: u64, now: i64) -> (r:
    Result<StopAction, HypervisorError>)
    requires
        old(db).wf(),
    ensures
        final(db).wf(),
        final(db).port_entries() == old(db).port_entries(),
        !has_name(old(db).instances(), name@) ==> (r matches Err(e) && e@ == ErrorView::NotFound(
            name@,
        ) && final(db).instances() == old(db).instances()),
        has_name(old(db).instances(), name@) ==> ({
            let s = old(db).instances();
            let i = idx_of_name(s, name@);
            let r0 = record_of(s, name@);
            &&& (r0.status is Stopped || r0.status is Created || r0.status is Failed) ==> (r
                matches Ok(a) && a is AlreadyStopped && final(db).instances() == s)
            &&& r0.status is Stopping ==> (r matches Err(e) && e@ matches ErrorView::Conflict(_)
                && final(db).instances() == s)
            &&& (r0.status is Starting || r0.status is Pausing || r0.status is Resuming
                || r0.status is Suspending) ==> (r matches Err(e) && e@
                matches ErrorView::InvalidTransition { .. } && final(db).instances() == s)
            &&& (r0.status is Running || r0.status is Paused || r0.status is Suspended)
                && r0.vm_pid is None ==> (r matches Err(e) && e@ matches ErrorView::Internal(_)
                && final(db).instances() == s)
            &&& (r0.status is Paused || r0.status is Suspended) && r0.vm_pid is Some
                && r0.qmp_socket is None ==> (r matches Err(e) && e@
                matches ErrorView::Internal(_) && final(db).instances() == s)
            &&& (r0.status is Running || ((r0.status is Paused || r0.status is Suspended)
                && r0.qmp_socket is Some)) && r0.vm_pid is Some ==> (r matches Ok(a) && (a
                matches StopAction::Stop(plan) && plan.pid == r0.vm_pid->0 && plan.grace_seconds
                == grace_seconds && plan.previous_status@ == r0.status && (r0.status is Running
                ==> plan.precede is None) && (r0.status is Paused ==> (plan.precede
                matches Some(p) && p.socket@ == r0.qmp_socket->0 && p.command is Cont)) && (
            r0.status is Suspended ==> (plan.precede matches Some(p) && p.socket@
                == r0.qmp_socket->0 && p.command is SystemWakeup))) && final(db).instances() == s.update(
                i,
                with_status(r0, StatusView::Stopping, now),
            ))
        }),
{
    proof {
        reveal_strlit("already stopping");
        reveal_strlit("stop");
        reveal_strlit("Instance has no PID");
        reveal_strlit("Instance has no control socket");
    }
    let st = match db.get_instance(name) {
        Ok(st) => st,
        Err(e) => {
            return Err(e);
        },
    };
    let ghost s = old(db).instances();
    match &st.status {
        InstanceStatus::Stopped => {
            return Ok(StopAction::AlreadyStopped);
        },
        InstanceStatus::Created => {
            return Ok(StopAction::AlreadyStopped);
        },
        InstanceStatus::Failed { error: _ } => {
            return Ok(StopAction::AlreadyStopped);
        },
        InstanceStatus::Stopping => {
            return Err(HypervisorError::Conflict(String::from_str("already stopping")));
        },
        _ => {},
    }
    if !st.status.can_stop() {
        return Err(
            HypervisorError::InvalidTransition {
                from: st.status.status_str(),
                operation: String::from_str("stop"),
            },
        );
    }
    let pid = match st.vm_pid {
        Some(pid) => pid,
        None => {
            return Err(HypervisorError::Internal(String::from_str("Instance has no PID")));
        },
    };
    let precede = if st.status.can_pause() {
        // Running: the guest is already responsive.
        None
    } else {
        let socket = match &st.qmp_socket {
            Some(sock) => sock.clone(),
            None => {
                return Err(
                    HypervisorError::Internal(
                        String::from_str("Instance has no control socket"),
                    ),
                );
            },
        };
        let cmd = if st.status.can_wake() {
            QmpCommand::SystemWakeup
        } else {
            QmpCommand::Cont
        };
        Some(QmpRequest { socket, line: cmd.request_line(), command: cmd })
    };
    let previous_status = st.status.clone();
    let mut journalled = st;
    journalled.update_status_at(InstanceStatus::Stopping, now);
    save_existing(db, &journalled, now);
    proof {
        lemma_name_id_same_index(s, name@, journalled@.id);
    }
    Ok(StopAction::Stop(StopPlan { pid, grace_seconds, precede, previous_status }))
}

/// What the caller must do to stop an instance.
pub enum StopAction {
    /// Nothing: the instance holds no process.
    AlreadyStopped,
    /// Perform the plan's termination work and report the outcome to
    /// `finish_stop_instance`, passing the plan's previous status.
    Stop(StopPlan),
}

/// Commit the outcome of a stop. A process that is gone — even when
/// signalling failed — satisfies the caller's intent: the record becomes
/// `Stopped` with its pid cleared. Only when the process survives does the
/// status rewind to the one held before.
pub fn finish_stop_instance(
    db: &mut StateDatabase,
    name: &str,
    outcome: &StopOutcome,
    previous: &InstanceStatus,
    now: i64,
) -> (r: Result<InstanceState, HypervisorError>)
    requires
        old(db).wf(),
    ensures
        final(db).wf(),
        final(db).port_entries() == old(db).port_entries(),
        !has_name(old(db).instances(), name@) ==> (r matches Err(e) && e@ == ErrorView::NotFound(
            name@,
        ) && final(db).instances() == old(db).instances()),
        has_name(old(db).instances(), name@) ==> ({
            let s = old(db).instances();
            let i = idx_of_name(s, name@);
            let r0 = record_of(s, name@);
            &&& (outcome is Stopped || outcome is ProcessGone) ==> (r matches Ok(st) && st@
                == stopped(r0, now) && final(db).instances() == s.update(i, stopped(r0, now)))
            &&& outcome matches StopOutcome::Failed(e) ==> (r matches Err(err) && err@ == ErrorView::Internal(
                "Failed to stop VM: "@ + e@,
            ) && final(db).instances() == s.update(i, with_status(r0, previous@, now)))
        }),
{
    proof {
        reveal_strlit("Failed to stop VM: ");
    }
    let st = match db.get_instance(name) {
        Ok(st) => st,
        Err(e) => {
            return Err(e);
        },
    };
    let ghost s = old(db).instances();
    match outcome {
        StopOutcome::Failed(e) => {
            let mut msg = String::from_str("Failed to stop VM: ");
            msg.append(e.as_str());
            let mut rewound = st;
            rewound.update_status_at(previous.clone(), now);
            save_existing(db, &rewound, now);
            proof {
                lemma_name_id_same_index(s, name@, rewound@.id);
            }
            Err(HypervisorError::Internal(msg))
        },
        _ => {
            let mut updated = st;
            updated.vm_pid = None;
            updated.update_status_at(InstanceStatus::Stopped, now);
            let result = updated.clone();
            save_existing(db, &updated, now);
            proof {
                lemma_name_id_same_index(s, name@, updated@.id);
                assert(updated@ == stopped(record_of(s, name@), now));
            }
            Ok(result)
        },
    }
}

/// What the caller must do to destroy an instance: remove its storage, stop
/// the process first when forcing, and then delete the record (which
/// cascades the port registry).
pub struct DestroyPlan {
    pub instance_id: String,
    pub pid: Option<i32>,
    pub stop_first: bool,
}

/// Validate a destroy request. Without `force` a record in `Running` or
/// `Starting` cannot be destroyed. The store is untouched: the caller
/// removes storage (and the process, when forcing) and then deletes the
/// record through the store, cascading its port reservations.
pub fn destroy_instance(db: &StateDatabase, name: &str, force: bool) -> (r: Result<
    DestroyPlan,
    HypervisorError,
>)
    requires
        db.wf(),
    ensures
        !has_name(db.instances(), name@) ==> (r matches Err(e) && e@ == ErrorView::NotFound(
            name@,
        )),
        has_name(db.instances(), name@) ==> ({
            let r0 = record_of(db.instances(), name@);
            &&& !force && (r0.status is Running || r0.status is Starting) ==> (r matches Err(e)
                && e@ matches ErrorView::InvalidTransition { .. })
            &&& (force || !(r0.status is Running || r0.status is Starting)) ==> (r matches Ok(
                plan,
            ) && plan.instance_id@ == r0.id && plan.pid == r0.vm_pid && plan.stop_first == (force
                && r0.vm_pid is Some && (r0.status is Running || r0.status is Starting)))
        }),
{
    proof {
        reveal_strlit("destroy");
    }
    let st = match db.get_instance(name) {
        Ok(st) => st,
        Err(e) => {
            return Err(e);
        },
    };
    let running = matches!(st.status, InstanceStatus::Running | InstanceStatus::Starting);
    if !force && running {
        return Err(
            HypervisorError::InvalidTransition {
                from: st.status.status_str(),
                operation: String::from_str("destroy"),
            },
        );
    }
    let stop_first = force && st.vm_pid.is_some() && running;
    Ok(DestroyPlan { instance_id: st.id, pid: st.vm_pid, stop_first })
}

/// Re-associate a persisted record with a still-running process on daemon
/// restart. The caller supplies the process's command line from the process
/// table and whether a status query on the control socket succeeded. A
/// record without a pid is trusted as persisted. With a pid, the process
/// must be the expected hypervisor on the record's control socket and must
/// answer a status query; otherwise the record is marked `Failed` with its
/// pid cleared.
pub fn attach_instance(
    db: &mut StateDatabase,
    name: &str,
    cmdline: Option<&str>,
    query_status_ok: bool,
    now: i64,
) -> (r: Result<InstanceState, HypervisorError>)
    requires
        old(db).wf(),
    ensures
        final(db).wf(),
        final(db).port_entries() == old(db).port_entries(),
        !has_name(old(db).instances(), name@) ==> (r matches Err(e) && e@ == ErrorView::NotFound(
            name@,
        ) && final(db).instances() == old(db).instances()),
        has_name(old(db).instances(), name@) ==> ({
            let s = old(db).instances();
            let i = idx_of_name(s, name@);
            let r0 = record_of(s, name@);
            let diag = "failed to re-attach to running process"@;
            let verified = r0.qmp_socket is Some && (cmdline matches Some(c) && cmdline_matches(
                c@,
                r0.qmp_socket->0,
            )) && query_status_ok;
            &&& r0.vm_pid is None ==> (r matches Ok(st) && st@ == r0 && final(db).instances()
                == s)
            &&& r0.vm_pid is Some && verified ==> (r matches Ok(st) && st@ == r0 && final(
                db).instances() == s)
            &&& r0.vm_pid is Some && !verified ==> (r matches Err(e) && e@ == ErrorView::Internal(
                diag,
            ) && final(db).instances() == s.update(i, failed_detached(r0, diag, now)))
        }),
{
    proof {
        reveal_strlit("failed to re-attach to running process");
    }
    let st = match db.get_instance(name) {
        Ok(st) => st,
        Err(e) => {
            return Err(e);
        },
    };
    let ghost s = old(db).instances();
    if st.vm_pid.is_none() {
        return Ok(st);
    }
    let verified = match (&st.qmp_socket, cmdline) {
        (Some(sock), Some(line)) => query_status_ok && cmdline_references(line, sock.as_str()),
        _ => false,
    };
    if verified {
        return Ok(st);
    }
    let msg = String::from_str("failed to re-attach to running process");
    let reason = msg.clone();
    let mut marked = st;
    marked.vm_pid = None;
    marked.update_status_at(InstanceStatus::Failed { error: reason }, now);
    save_existing(db, &marked, now);
    proof {
        lemma_name_id_same_index(s, name@, marked@.id);
        assert(marked@ == failed_detached(record_of(s, name@), msg@, now));
    }
    Err(HypervisorError::Internal(msg))
}

/// Whether a command line belongs to the expected hypervisor on the
/// expected control socket.
pub fn cmdline_references(cmdline: &str, qmp_socket: &str) -> (r: bool)
    ensures
        r == cmdline_matches(cmdline@, qmp_socket@),
{
    proof {
        reveal_strlit("qemu-system");
        reveal_strlit("unix:");
    }
    let exe = crate::vm::cmdline_executable(cmdline);
    if exe.unicode_len() == 0 {
        return false;
    }
    if !crate::strutil::str_contains(exe, "qemu-system") {
        return false;
    }
    let mut pattern = String::from_str("unix:");
    pattern.append(qmp_socket);
    crate::strutil::str_contains(cmdline, pattern.as_str())
}

} // verus!
