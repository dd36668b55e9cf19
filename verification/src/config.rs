//! The immutable resource and boot configuration of an instance, and the
//! guest-side argument list derived from it.

use vstd::prelude::*;
use crate::decimal::{dec_rep, u64_to_string};

verus! {

/// Resource and boot configuration, fixed at creation time. Paths are kept
/// as plain strings; the instance's runtime artifacts live under `data_dir`.
#[derive(Debug)]
pub struct InstanceConfig {
    // Resource limits
    pub vcpus: u32,
    pub memory_mb: u64,
    pub storage_bytes: u64,
    pub quota_project_id: Option<u32>,
    // Network
    pub rpc_port: u16,
    pub metrics_port: Option<u16>,
    // Confidential-compute configuration
    pub tee_mode: bool,
    pub vcpu_type: String,
    pub expected_measurement: Option<String>,
    // Boot components
    pub kernel_path: String,
    pub initrd_path: String,
    pub ovmf_path: Option<String>,
    // Storage
    pub data_dir: String,
    pub disk_image: Option<String>,
    // Guest-side configuration
    pub chain_id: Option<String>,
    pub dev_mode: bool,
    pub block_time: Option<u64>,
    pub accounts: Option<u16>,
    pub disable_fee: bool,
    pub extra_args: Vec<String>,
}

/// Mathematical model of a configuration: strings as character sequences.
pub ghost struct ConfigView {
    pub vcpus: u32,
    pub memory_mb: u64,
    pub storage_bytes: u64,
    pub quota_project_id: Option<u32>,
    pub rpc_port: u16,
    pub metrics_port: Option<u16>,
    pub tee_mode: bool,
    pub vcpu_type: Seq<char>,
    pub expected_measurement: Option<Seq<char>>,
    pub kernel_path: Seq<char>,
    pub initrd_path: Seq<char>,
    pub ovmf_path: Option<Seq<char>>,
    pub data_dir: Seq<char>,
    pub disk_image: Option<Seq<char>>,
    pub chain_id: Option<Seq<char>>,
    pub dev_mode: bool,
    pub block_time: Option<u64>,
    pub accounts: Option<u16>,
    pub disable_fee: bool,
    pub extra_args: Seq<Seq<char>>,
}

impl View for InstanceConfig {
    type V = ConfigView;

    open spec fn view(&self) -> ConfigView {
        ConfigView {
            vcpus: self.vcpus,
            memory_mb: self.memory_mb,
            storage_bytes: self.storage_bytes,
            quota_project_id: self.quota_project_id,
            rpc_port: self.rpc_port,
            metrics_port: self.metrics_port,
            tee_mode: self.tee_mode,
            vcpu_type: self.vcpu_type@,
            expected_measurement: self.expected_measurement.deep_view(),
            kernel_path: self.kernel_path@,
            initrd_path: self.initrd_path@,
            ovmf_path: self.ovmf_path.deep_view(),
            data_dir: self.data_dir@,
            disk_image: self.disk_image.deep_view(),
            chain_id: self.chain_id.deep_view(),
            dev_mode: self.dev_mode,
            block_time: self.block_time,
            accounts: self.accounts,
            disable_fee: self.disable_fee,
            extra_args: self.extra_args.deep_view(),
        }
    }
}

impl DeepView for InstanceConfig {
    type V = ConfigView;

    open spec fn deep_view(&self) -> ConfigView {
        self.view()
    }
}

/// Clone an option of a string, keeping the model.
pub fn clone_opt_string(s: &Option<String>) -> (r: Option<String>)
    ensures
        r.deep_view() == s.deep_view(),
        r is Some <==> s is Some,
{
    match s {
        Some(v) => Some(v.clone()),
        None => None,
    }
}

/// Clone a vector of strings, keeping the model.
pub fn clone_string_vec(v: &Vec<String>) -> (r: Vec<String>)
    ensures
        r.deep_view() == v.deep_view(),
{
    let r = v.clone();
    proof {
        assert forall|i: int| 0 <= i < v@.len() implies r@[i] == v@[i] by {
            assert(cloned::<String>(v@[i], r@[i]));
        }
        assert(r.deep_view() =~= v.deep_view());
    }
    r
}

impl Clone for InstanceConfig {
    /// Field-for-field copy; the clone models the same configuration.
    fn clone(&self) -> (r: Self)
        ensures
            r@ == self@,
    {
        let r = InstanceConfig {
            vcpus: self.vcpus,
            memory_mb: self.memory_mb,
            storage_bytes: self.storage_bytes,
            quota_project_id: self.quota_project_id,
            rpc_port: self.rpc_port,
            metrics_port: self.metrics_port,
            tee_mode: self.tee_mode,
            vcpu_type: self.vcpu_type.clone(),
            expected_measurement: clone_opt_string(&self.expected_measurement),
            kernel_path: self.kernel_path.clone(),
            initrd_path: self.initrd_path.clone(),
            ovmf_path: clone_opt_string(&self.ovmf_path),
            data_dir: self.data_dir.clone(),
            disk_image: clone_opt_string(&self.disk_image),
            chain_id: clone_opt_string(&self.chain_id),
            dev_mode: self.dev_mode,
            block_time: self.block_time,
            accounts: self.accounts,
            disable_fee: self.disable_fee,
            extra_args: clone_string_vec(&self.extra_args),
        };
        r
    }
}

/// The guest-side argument list that `build_katana_args` produces for a
/// configuration.
pub open spec fn katana_args_spec(c: ConfigView) -> Seq<Seq<char>> {
    let base = seq!["--http.addr=0.0.0.0"@, "--http.port=5050"@];
    let with_chain = if c.chain_id is Some {
        base.push("--chain-id="@ + c.chain_id->0)
    } else {
        base
    };
    let with_dev = if c.dev_mode {
        with_chain.push("--dev"@)
    } else {
        with_chain
    };
    let with_block = if c.block_time is Some {
        with_dev.push("--block-time="@ + dec_rep(c.block_time->0 as int))
    } else {
        with_dev
    };
    let with_accounts = if c.accounts is Some {
        with_block.push("--accounts="@ + dec_rep(c.accounts->0 as int))
    } else {
        with_block
    };
    let with_fee = if c.disable_fee {
        with_accounts.push("--disable-fee"@)
    } else {
        with_accounts
    };
    with_fee + c.extra_args
}

impl InstanceConfig {
    /// Build the argument list handed to the guest boot command line.
    pub fn build_katana_args(&self) -> (args: Vec<String>)
        ensures
            args.deep_view() == katana_args_spec(self@),
    {
        proof {
            reveal_strlit("--http.addr=0.0.0.0");
            reveal_strlit("--http.port=5050");
            reveal_strlit("--chain-id=");
            reveal_strlit("--dev");
            reveal_strlit("--block-time=");
            reveal_strlit("--accounts=");
            reveal_strlit("--disable-fee");
        }
        let mut args: Vec<String> = Vec::new();
        args.push(String::from_str("--http.addr=0.0.0.0"));
        args.push(String::from_str("--http.port=5050"));

        if let Some(chain_id) = &self.chain_id {
            let mut a = String::from_str("--chain-id=");
            a.append(chain_id.as_str());
            args.push(a);
        }

        if self.dev_mode {
            args.push(String::from_str("--dev"));
        }

        if let Some(block_time) = self.block_time {
            let mut a = String::from_str("--block-time=");
            a.append(u64_to_string(block_time).as_str());
            args.push(a);
        }

        if let Some(accounts) = self.accounts {
            let mut a = String::from_str("--accounts=");
            a.append(u64_to_string(accounts as u64).as_str());
            args.push(a);
        }

        if self.disable_fee {
            args.push(String::from_str("--disable-fee"));
        }

        proof {
            assert(args.deep_view() =~= katana_args_spec(self@).subrange(
                0,
                args@.len() as int,
            ));
        }
        let ghost base_len = args@.len() as int;
        let mut i: usize = 0;
        while i < self.extra_args.len()
            invariant
                0 <= i <= self.extra_args@.len(),
                args@.len() == base_len + i,
                base_len + self.extra_args@.len() == katana_args_spec(self@).len(),
                args.deep_view() =~= katana_args_spec(self@).subrange(0, base_len + i as int),
            decreases self.extra_args@.len() - i,
        {
            args.push(self.extra_args[i].clone());
            proof {
                assert(args.deep_view() =~= katana_args_spec(self@).subrange(
                    0,
                    base_len + i as int + 1,
                ));
            }
            i = i + 1;
        }
        proof {
            assert(katana_args_spec(self@).subrange(0, katana_args_spec(self@).len() as int)
                =~= katana_args_spec(self@));
        }
        args
    }
}

impl Default for InstanceConfig {
    /// The stock configuration: 4 vcpus, 4096 MiB of memory, 10 GB of
    /// storage, RPC port 5050, plain (non-confidential) firmware, host vcpu
    /// model, empty paths.
    fn default() -> (r: Self)
        ensures
            r@.vcpus == 4,
            r@.memory_mb == 4096,
            r@.storage_bytes == 10737418240u64,
            r@.quota_project_id is None,
            r@.rpc_port == 5050,
            r@.metrics_port is None,
            !r@.tee_mode,
            r@.vcpu_type == "host"@,
            r@.expected_measurement is None,
            r@.kernel_path == Seq::<char>::empty(),
            r@.initrd_path == Seq::<char>::empty(),
            r@.ovmf_path is None,
            r@.data_dir == Seq::<char>::empty(),
            r@.disk_image is None,
            r@.chain_id is None,
            !r@.dev_mode,
            r@.block_time is None,
            r@.accounts == Some(10u16),
            !r@.disable_fee,
            r@.extra_args == Seq::<Seq<char>>::empty(),
    {
        proof {
            reveal_strlit("host");
        }
        let r = InstanceConfig {
            vcpus: 4,
            memory_mb: 4096,
            storage_bytes: 10737418240,
            quota_project_id: None,
            rpc_port: 5050,
            metrics_port: None,
            tee_mode: false,
            vcpu_type: String::from_str("host"),
            expected_measurement: None,
            kernel_path: String::new(),
            initrd_path: String::new(),
            ovmf_path: None,
            data_dir: String::new(),
            disk_image: None,
            chain_id: None,
            dev_mode: false,
            block_time: None,
            accounts: Some(10),
            disable_fee: false,
            extra_args: Vec::new(),
        };
        proof {
            assert(r@.extra_args =~= Seq::<Seq<char>>::empty());
            assert(r@.kernel_path =~= Seq::<char>::empty());
            assert(r@.initrd_path =~= Seq::<char>::empty());
            assert(r@.data_dir =~= Seq::<char>::empty());
        }
        r
    }
}

} // verus!
