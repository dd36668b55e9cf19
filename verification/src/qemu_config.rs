//! The external hypervisor's launch configuration and the argument vector
//! computed from it.

use vstd::prelude::*;
use crate::config::clone_opt_string;
use crate::decimal::{dec_rep, u64_to_string};

verus! {

/// Confidential-compute (AMD SEV-SNP) guest parameters.
#[derive(Debug)]
pub struct SevSnpConfig {
    pub cbitpos: u8,
    pub reduced_phys_bits: u8,
    pub vcpu_type: String,
}

/// Mathematical model of the confidential-compute parameters.
pub ghost struct SevSnpView {
    pub cbitpos: u8,
    pub reduced_phys_bits: u8,
    pub vcpu_type: Seq<char>,
}

impl View for SevSnpConfig {
    type V = SevSnpView;

    open spec fn view(&self) -> SevSnpView {
        SevSnpView {
            cbitpos: self.cbitpos,
            reduced_phys_bits: self.reduced_phys_bits,
            vcpu_type: self.vcpu_type@,
        }
    }
}

impl Clone for SevSnpConfig {
    /// Field-for-field copy; the clone models the same parameters.
    fn clone(&self) -> (r: Self)
        ensures
            r@ == self@,
    {
        SevSnpConfig {
            cbitpos: self.cbitpos,
            reduced_phys_bits: self.reduced_phys_bits,
            vcpu_type: self.vcpu_type.clone(),
        }
    }
}

/// Launch configuration of the external hypervisor process.
#[derive(Debug)]
pub struct QemuConfig {
    // Resource limits
    pub memory_mb: u64,
    pub vcpus: u32,
    pub cpu_type: String,
    // Boot components
    pub kernel_path: String,
    pub initrd_path: String,
    pub bios_path: Option<String>,
    // Kernel command line
    pub kernel_cmdline: String,
    // Network
    pub rpc_port: u16,
    // Storage
    pub disk_image: Option<String>,
    // Paths
    pub qmp_socket: String,
    pub serial_log: String,
    pub pid_file: String,
    // Confidential-compute configuration
    pub sev_snp: Option<SevSnpConfig>,
    // Hardware-virtualization acceleration
    pub enable_kvm: bool,
}

/// Mathematical model of a launch configuration.
pub ghost struct QemuConfigView {
    pub memory_mb: u64,
    pub vcpus: u32,
    pub cpu_type: Seq<char>,
    pub kernel_path: Seq<char>,
    pub initrd_path: Seq<char>,
    pub bios_path: Option<Seq<char>>,
    pub kernel_cmdline: Seq<char>,
    pub rpc_port: u16,
    pub disk_image: Option<Seq<char>>,
    pub qmp_socket: Seq<char>,
    pub serial_log: Seq<char>,
    pub pid_file: Seq<char>,
    pub sev_snp: Option<SevSnpView>,
    pub enable_kvm: bool,
}

impl View for QemuConfig {
    type V = QemuConfigView;

    open spec fn view(&self) -> QemuConfigView {
        QemuConfigView {
            memory_mb: self.memory_mb,
            vcpus: self.vcpus,
            cpu_type: self.cpu_type@,
            kernel_path: self.kernel_path@,
            initrd_path: self.initrd_path@,
            bios_path: self.bios_path.deep_view(),
            kernel_cmdline: self.kernel_cmdline@,
            rpc_port: self.rpc_port,
            disk_image: self.disk_image.deep_view(),
            qmp_socket: self.qmp_socket@,
            serial_log: self.serial_log@,
            pid_file: self.pid_file@,
            sev_snp: match self.sev_snp {
                Some(s) => Some(s@),
                None => None,
            },
            enable_kvm: self.enable_kvm,
        }
    }
}

impl Clone for QemuConfig {
    /// Field-for-field copy; the clone models the same configuration.
    fn clone(&self) -> (r: Self)
        ensures
            r@ == self@,
    {
        QemuConfig {
            memory_mb: self.memory_mb,
            vcpus: self.vcpus,
            cpu_type: self.cpu_type.clone(),
            kernel_path: self.kernel_path.clone(),
            initrd_path: self.initrd_path.clone(),
            bios_path: clone_opt_string(&self.bios_path),
            kernel_cmdline: self.kernel_cmdline.clone(),
            rpc_port: self.rpc_port,
            disk_image: clone_opt_string(&self.disk_image),
            qmp_socket: self.qmp_socket.clone(),
            serial_log: self.serial_log.clone(),
            pid_file: self.pid_file.clone(),
            sev_snp: match &self.sev_snp {
                Some(s) => Some(s.clone()),
                None => None,
            },
            enable_kvm: self.enable_kvm,
        }
    }
}

/// The leading arguments: the executable, optional acceleration, the vcpu
/// model and machine type (with the confidential-guest object when enabled).
pub open spec fn cpu_machine_args(c: QemuConfigView) -> Seq<Seq<char>> {
    let exe = seq!["qemu-system-x86_64"@];
    let kvm = if c.enable_kvm {
        exe.push("-enable-kvm"@)
    } else {
        exe
    };
    if c.sev_snp is Some {
        let sev = c.sev_snp->0;
        let base = kvm + seq![
            "-cpu"@,
            sev.vcpu_type,
            "-machine"@,
            "q35,confidential-guest-support=sev0"@,
            "-object"@,
            "sev-snp-guest,id=sev0,cbitpos="@ + dec_rep(sev.cbitpos as int)
                + ",reduced-phys-bits="@ + dec_rep(sev.reduced_phys_bits as int),
        ];
        if c.bios_path is Some {
            base + seq!["-bios"@, c.bios_path->0]
        } else {
            base
        }
    } else {
        kvm + seq!["-cpu"@, c.cpu_type, "-machine"@, "q35"@]
    }
}

/// Memory, vcpus, boot components and the kernel command line.
pub open spec fn boot_args(c: QemuConfigView) -> Seq<Seq<char>> {
    seq![
        "-smp"@,
        dec_rep(c.vcpus as int),
        "-m"@,
        dec_rep(c.memory_mb as int) + "M"@,
        "-kernel"@,
        c.kernel_path,
        "-initrd"@,
        c.initrd_path,
        "-append"@,
        c.kernel_cmdline,
    ]
}

/// User networking with the RPC port forwarded into the guest.
pub open spec fn net_args(c: QemuConfigView) -> Seq<Seq<char>> {
    seq![
        "-netdev"@,
        "user,id=net0,hostfwd=tcp::"@ + dec_rep(c.rpc_port as int) + "-:5050"@,
        "-device"@,
        "virtio-net-pci,netdev=net0"@,
    ]
}

/// The optional virtio disk image.
pub open spec fn disk_args(c: QemuConfigView) -> Seq<Seq<char>> {
    if c.disk_image is Some {
        seq!["-drive"@, "file="@ + c.disk_image->0 + ",if=virtio,format=qcow2"@]
    } else {
        Seq::empty()
    }
}

/// Display, serial log, control socket, daemonize flag and pid file.
pub open spec fn io_args(c: QemuConfigView) -> Seq<Seq<char>> {
    seq![
        "-display"@,
        "none"@,
        "-serial"@,
        "file:"@ + c.serial_log,
        "-qmp"@,
        "unix:"@ + c.qmp_socket + ",server,nowait"@,
        "-daemonize"@,
        "-pidfile"@,
        c.pid_file,
    ]
}

/// The full argument vector that `to_qemu_args` computes.
pub open spec fn qemu_args_spec(c: QemuConfigView) -> Seq<Seq<char>> {
    cpu_machine_args(c) + boot_args(c) + net_args(c) + disk_args(c) + io_args(c)
}

impl QemuConfig {
    /// Build the hypervisor's command line from the configuration.
    pub fn to_qemu_args(&self) -> (args: Vec<String>)
        ensures
            args.deep_view() == qemu_args_spec(self@),
    {
        proof {
            reveal_strlit("qemu-system-x86_64");
            reveal_strlit("-enable-kvm");
            reveal_strlit("-cpu");
            reveal_strlit("-machine");
            reveal_strlit("q35,confidential-guest-support=sev0");
            reveal_strlit("q35");
            reveal_strlit("-object");
            reveal_strlit("sev-snp-guest,id=sev0,cbitpos=");
            reveal_strlit(",reduced-phys-bits=");
            reveal_strlit("-bios");
            reveal_strlit("-smp");
            reveal_strlit("-m");
            reveal_strlit("M");
            reveal_strlit("-kernel");
            reveal_strlit("-initrd");
            reveal_strlit("-append");
            reveal_strlit("-netdev");
            reveal_strlit("user,id=net0,hostfwd=tcp::");
            reveal_strlit("-:5050");
            reveal_strlit("-device");
            reveal_strlit("virtio-net-pci,netdev=net0");
            reveal_strlit("-drive");
            reveal_strlit("file=");
            reveal_strlit(",if=virtio,format=qcow2");
            reveal_strlit("-display");
            reveal_strlit("none");
            reveal_strlit("-serial");
            reveal_strlit("file:");
            reveal_strlit("-qmp");
            reveal_strlit("unix:");
            reveal_strlit(",server,nowait");
            reveal_strlit("-daemonize");
            reveal_strlit("-pidfile");
        }
        let mut args: Vec<String> = Vec::new();
        args.push(String::from_str("qemu-system-x86_64"));

        if self.enable_kvm {
            args.push(String::from_str("-enable-kvm"));
        }

        match &self.sev_snp {
            Some(sev_snp) => {
                args.push(String::from_str("-cpu"));
                args.push(sev_snp.vcpu_type.clone());
                args.push(String::from_str("-machine"));
                args.push(String::from_str("q35,confidential-guest-support=sev0"));
                args.push(String::from_str("-object"));
                let mut obj = String::from_str("sev-snp-guest,id=sev0,cbitpos=");
                obj.append(u64_to_string(sev_snp.cbitpos as u64).as_str());
                obj.append(",reduced-phys-bits=");
                obj.append(u64_to_string(sev_snp.reduced_phys_bits as u64).as_str());
                args.push(obj);
                if let Some(bios_path) = &self.bios_path {
                    args.push(String::from_str("-bios"));
                    args.push(bios_path.clone());
                }
            },
            None => {
                args.push(String::from_str("-cpu"));
                args.push(self.cpu_type.clone());
                args.push(String::from_str("-machine"));
                args.push(String::from_str("q35"));
            },
        }
        proof {
            assert(args.deep_view() =~= cpu_machine_args(self@));
        }
        let ghost done = cpu_machine_args(self@);

        args.push(String::from_str("-smp"));
        args.push(u64_to_string(self.vcpus as u64));
        args.push(String::from_str("-m"));
        let mut mem = u64_to_string(self.memory_mb);
        mem.append("M");
        args.push(mem);
        args.push(String::from_str("-kernel"));
        args.push(self.kernel_path.clone());
        args.push(String::from_str("-initrd"));
        args.push(self.initrd_path.clone());
        args.push(String::from_str("-append"));
        args.push(self.kernel_cmdline.clone());
        proof {
            assert(args.deep_view() =~= done + boot_args(self@));
        }
        let ghost done = done + boot_args(self@);

        args.push(String::from_str("-netdev"));
        let mut net = String::from_str("user,id=net0,hostfwd=tcp::");
        net.append(u64_to_string(self.rpc_port as u64).as_str());
        net.append("-:5050");
        args.push(net);
        args.push(String::from_str("-device"));
        args.push(String::from_str("virtio-net-pci,netdev=net0"));
        proof {
            assert(args.deep_view() =~= done + net_args(self@));
        }
        let ghost done = done + net_args(self@);

        if let Some(disk_path) = &self.disk_image {
            args.push(String::from_str("-drive"));
            let mut drive = String::from_str("file=");
            drive.append(disk_path.as_str());
            drive.append(",if=virtio,format=qcow2");
            args.push(drive);
        }
        proof {
            assert(args.deep_view() =~= done + disk_args(self@));
        }
        let ghost done = done + disk_args(self@);

        args.push(String::from_str("-display"));
        args.push(String::from_str("none"));
        args.push(String::from_str("-serial"));
        let mut serial = String::from_str("file:");
        serial.append(self.serial_log.as_str());
        args.push(serial);
        args.push(String::from_str("-qmp"));
        let mut qmp = String::from_str("unix:");
        qmp.append(self.qmp_socket.as_str());
        qmp.append(",server,nowait");
        args.push(qmp);
        args.push(String::from_str("-daemonize"));
        args.push(String::from_str("-pidfile"));
        args.push(self.pid_file.clone());
        proof {
            assert(args.deep_view() =~= done + io_args(self@));
            assert(args.deep_view() =~= qemu_args_spec(self@));
        }
        args
    }

    /// Build the kernel command line, appending the guest-side arguments.
    pub fn build_kernel_cmdline(katana_args: &Vec<String>) -> (r: String)
        ensures
            r@ == "console=ttyS0 loglevel=4 katana.args="@ + joined_with_spaces(
                katana_args.deep_view(),
            ),
    {
        proof {
            reveal_strlit("console=ttyS0 loglevel=4 katana.args=");
            reveal_strlit(" ");
        }
        let mut r = String::from_str("console=ttyS0 loglevel=4 katana.args=");
        r.append(join_spaces(katana_args).as_str());
        r
    }
}

/// The arguments joined by single spaces.
pub open spec fn joined_with_spaces(parts: Seq<Seq<char>>) -> Seq<char>
    decreases parts.len(),
{
    if parts.len() == 0 {
        Seq::empty()
    } else if parts.len() == 1 {
        parts[0]
    } else {
        joined_with_spaces(parts.drop_last()) + " "@ + parts.last()
    }
}

/// Join strings with single spaces.
pub fn join_spaces(parts: &Vec<String>) -> (r: String)
    ensures
        r@ == joined_with_spaces(parts.deep_view()),
{
    proof {
        reveal_strlit(" ");
    }
    let mut r = String::new();
    let mut i: usize = 0;
    while i < parts.len()
        invariant
            0 <= i <= parts@.len(),
            r@ == joined_with_spaces(parts.deep_view().subrange(0, i as int)),
        decreases parts@.len() - i,
    {
        if i > 0 {
            r.append(" ");
        }
        r.append(parts[i].as_str());
        proof {
            let sub1 = parts.deep_view().subrange(0, i as int + 1);
            assert(sub1.drop_last() =~= parts.deep_view().subrange(0, i as int));
            assert(sub1.last() == parts.deep_view()[i as int]);
            if i == 0 {
                assert(r@ =~= joined_with_spaces(sub1));
            } else {
                assert(r@ =~= joined_with_spaces(sub1));
            }
        }
        i = i + 1;
    }
    proof {
        assert(parts.deep_view().subrange(0, parts.deep_view().len() as int)
            =~= parts.deep_view());
    }
    r
}

} // verus!
