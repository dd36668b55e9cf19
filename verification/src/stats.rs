//! Assembly of the statistics report for one running instance from the
//! record, the control-socket query results and the process uptime.

use vstd::prelude::*;
use crate::decimal::{dec_rep, u64_to_string};
use crate::instance::InstanceState;
use crate::qmp::{CpuInfo as QmpCpuInfo, MemoryInfo, VmStatus};

verus! {

/// Statistics report for one instance.
#[derive(Debug)]
pub struct StatsResponse {
    pub instance_name: String,
    pub status: StatusInfo,
    pub config: ConfigInfo,
    pub resources: ResourcesInfo,
    pub network: NetworkInfo,
}

/// The run state as reported by the hypervisor, with pid and uptime.
#[derive(Debug)]
pub struct StatusInfo {
    pub state: String,
    pub running: bool,
    pub pid: Option<i32>,
    pub uptime: String,
}

/// The configured resources.
#[derive(Debug)]
pub struct ConfigInfo {
    pub vcpus: u32,
    pub memory_mb: u64,
    pub rpc_port: u16,
    pub tee_mode: Option<String>,
}

/// The resources the hypervisor reports.
#[derive(Debug)]
pub struct ResourcesInfo {
    pub cpu_count: usize,
    pub cpus: Vec<CpuInfo>,
    pub memory_mb: u64,
}

/// One vcpu, as shown in the report.
#[derive(Debug)]
pub struct CpuInfo {
    pub cpu_index: u64,
    pub thread_id: u64,
}

/// The endpoints a client can reach the guest on.
#[derive(Debug)]
pub struct NetworkInfo {
    pub rpc_url: String,
    pub health_url: String,
}

/// The guest's RPC endpoint on the local host.
pub open spec fn rpc_url_spec(port: u16) -> Seq<char> {
    "http://localhost:"@ + dec_rep(port as int)
}

/// Seconds of process uptime from the process's start time (in clock ticks
/// at 100 ticks per second, as the process table reports it) and the
/// machine's uptime in seconds.
pub fn process_uptime_secs(starttime_ticks: u64, machine_uptime_secs: u64) -> (r: u64)
    ensures
        machine_uptime_secs >= starttime_ticks / 100 ==> r == machine_uptime_secs
            - starttime_ticks / 100,
        machine_uptime_secs < starttime_ticks / 100 ==> r == 0,
{
    let start_secs = starttime_ticks / 100;
    if machine_uptime_secs >= start_secs {
        machine_uptime_secs - start_secs
    } else {
        0
    }
}

/// Uptime rendered as hours, minutes and seconds, omitting leading zero
/// units.
pub fn format_uptime(secs: u64) -> (r: String)
    ensures
        secs >= 3600 ==> r@ == dec_rep((secs / 3600) as int) + "h "@ + dec_rep(
            ((secs % 3600) / 60) as int,
        ) + "m "@ + dec_rep((secs % 60) as int) + "s"@,
        secs < 3600 && secs >= 60 ==> r@ == dec_rep((secs / 60) as int) + "m "@ + dec_rep(
            (secs % 60) as int,
        ) + "s"@,
        secs < 60 ==> r@ == dec_rep(secs as int) + "s"@,
{
    proof {
        reveal_strlit("h ");
        reveal_strlit("m ");
        reveal_strlit("s");
    }
    let hours = secs / 3600;
    let minutes = (secs % 3600) / 60;
    let seconds = secs % 60;
    if hours > 0 {
        let mut r = u64_to_string(hours);
        r.append("h ");
        r.append(u64_to_string(minutes).as_str());
        r.append("m ");
        r.append(u64_to_string(seconds).as_str());
        r.append("s");
        r
    } else if minutes > 0 {
        let mut r = u64_to_string(minutes);
        r.append("m ");
        r.append(u64_to_string(seconds).as_str());
        r.append("s");
        r
    } else {
        let mut r = u64_to_string(seconds);
        r.append("s");
        r
    }
}

/// Assemble the report from the record and the hypervisor's answers.
pub fn build_stats_response(
    state: &InstanceState,
    vm_status: VmStatus,
    cpus: Vec<QmpCpuInfo>,
    memory: MemoryInfo,
    uptime: String,
    pid: Option<i32>,
) -> (r: StatsResponse)
    ensures
        r.instance_name@ == state@.name,
        r.status.state@ == vm_status.status@,
        r.status.running == vm_status.running,
        r.status.pid == pid,
        r.status.uptime@ == uptime@,
        r.config.vcpus == state@.config.vcpus,
        r.config.memory_mb == state@.config.memory_mb,
        r.config.rpc_port == state@.config.rpc_port,
        r.config.tee_mode is Some <==> state@.config.tee_mode,
        state@.config.tee_mode ==> r.config.tee_mode->0@ == "AMD SEV-SNP ("@
            + state@.config.vcpu_type + ")"@,
        r.resources.cpu_count == cpus@.len(),
        r.resources.cpus@.len() == cpus@.len(),
        forall|i: int|
            0 <= i < cpus@.len() ==> (#[trigger] r.resources.cpus@[i]).cpu_index
                == cpus@[i].cpu_index && r.resources.cpus@[i].thread_id == cpus@[i].thread_id,
        r.resources.memory_mb == memory.base_memory / 1024 / 1024,
        r.network.rpc_url@ == rpc_url_spec(state@.config.rpc_port),
        r.network.health_url@ == rpc_url_spec(state@.config.rpc_port) + "/"@,
{
    proof {
        reveal_strlit("AMD SEV-SNP (");
        reveal_strlit(")");
        reveal_strlit("http://localhost:");
        reveal_strlit("/");
    }
    let tee_mode = if state.config.tee_mode {
        let mut t = String::from_str("AMD SEV-SNP (");
        t.append(state.config.vcpu_type.as_str());
        t.append(")");
        Some(t)
    } else {
        None
    };
    let cpu_count = cpus.len();
    let mut shown: Vec<CpuInfo> = Vec::new();
    let mut i: usize = 0;
    while i < cpus.len()
        invariant
            0 <= i <= cpus@.len(),
            shown@.len() == i,
            forall|j: int|
                0 <= j < i ==> (#[trigger] shown@[j]).cpu_index == cpus@[j].cpu_index
                    && shown@[j].thread_id == cpus@[j].thread_id,
        decreases cpus@.len() - i,
    {
        shown.push(CpuInfo { cpu_index: cpus[i].cpu_index, thread_id: cpus[i].thread_id });
        i = i + 1;
    }
    let mut rpc_url = String::from_str("http://localhost:");
    rpc_url.append(u64_to_string(state.config.rpc_port as u64).as_str());
    let mut health_url = rpc_url.clone();
    health_url.append("/");
    StatsResponse {
        instance_name: state.name.clone(),
        status: StatusInfo { state: vm_status.status, running: vm_status.running, pid, uptime },
        config: ConfigInfo {
            vcpus: state.config.vcpus,
            memory_mb: state.config.memory_mb,
            rpc_port: state.config.rpc_port,
            tee_mode,
        },
        resources: ResourcesInfo {
            cpu_count,
            cpus: shown,
            memory_mb: memory.base_memory / 1024 / 1024,
        },
        network: NetworkInfo { rpc_url, health_url },
    }
}

} // verus!
