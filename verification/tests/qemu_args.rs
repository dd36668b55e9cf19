use katana_hypervisor::config::InstanceConfig;
use katana_hypervisor::controller::instance_state_to_qemu_config;
use katana_hypervisor::instance::InstanceState;
use katana_hypervisor::qemu_config::QemuConfig;

fn configured_instance(name: &str, data_dir: &str) -> InstanceState {
    let config = InstanceConfig {
        vcpus: 2,
        memory_mb: 2048,
        storage_bytes: 5 * 1024 * 1024 * 1024,
        quota_project_id: None,
        rpc_port: 5050,
        metrics_port: None,
        tee_mode: false,
        vcpu_type: "host".to_string(),
        expected_measurement: None,
        kernel_path: format!("{}/vmlinuz", data_dir),
        initrd_path: format!("{}/initrd.img", data_dir),
        ovmf_path: None,
        data_dir: data_dir.to_string(),
        disk_image: None,
        chain_id: None,
        dev_mode: true,
        block_time: None,
        accounts: Some(10),
        disable_fee: true,
        extra_args: vec![],
    };
    let id = format!("test-id-{}", name);
    InstanceState::new(id, name.to_string(), config)
}

#[test]
fn test_instance_state_to_qemu_config() {
    let instance = configured_instance("test1", "/srv/instances/test1");

    let qemu_config = instance_state_to_qemu_config(&instance).unwrap();

    assert_eq!(qemu_config.vcpus, 2);
    assert_eq!(qemu_config.memory_mb, 2048);
    assert_eq!(qemu_config.cpu_type, "host");
    assert_eq!(qemu_config.rpc_port, 5050);
    assert!(qemu_config.enable_kvm);
    assert!(qemu_config.sev_snp.is_none());
    assert_eq!(qemu_config.qmp_socket, "/srv/instances/test1/qmp.sock");
    assert_eq!(qemu_config.serial_log, "/srv/instances/test1/serial.log");
    assert_eq!(qemu_config.pid_file, "/srv/instances/test1/qemu.pid");
}

#[test]
fn test_instance_state_to_qemu_config_with_tee() {
    let mut instance = configured_instance("test1", "/srv/instances/test1");
    instance.config.tee_mode = true;
    instance.config.vcpu_type = "EPYC-v4".to_string();

    let qemu_config = instance_state_to_qemu_config(&instance).unwrap();

    assert!(qemu_config.sev_snp.is_some());
    let sev_config = qemu_config.sev_snp.unwrap();
    assert_eq!(sev_config.vcpu_type, "EPYC-v4");
    assert_eq!(sev_config.cbitpos, 51);
    assert_eq!(sev_config.reduced_phys_bits, 1);
}

#[test]
fn test_qemu_config_generation_non_tee() {
    let config = QemuConfig {
        memory_mb: 4096,
        vcpus: 4,
        cpu_type: "host".to_string(),
        kernel_path: "/tmp/vmlinuz".to_string(),
        initrd_path: "/tmp/initrd.img".to_string(),
        bios_path: None,
        kernel_cmdline: "console=ttyS0 katana.args=--dev".to_string(),
        rpc_port: 5050,
        disk_image: None,
        qmp_socket: "/srv/i/qmp.sock".to_string(),
        serial_log: "/srv/i/serial.log".to_string(),
        pid_file: "/srv/i/qemu.pid".to_string(),
        sev_snp: None,
        enable_kvm: true,
    };

    let args = config.to_qemu_args();

    assert!(args.contains(&"qemu-system-x86_64".to_string()));
    assert!(args.contains(&"-enable-kvm".to_string()));
    assert!(args.contains(&"-cpu".to_string()));
    assert!(args.contains(&"host".to_string()));
    assert!(args.contains(&"-smp".to_string()));
    assert!(args.contains(&"4".to_string()));
    assert!(args.contains(&"-m".to_string()));
    assert!(args.contains(&"4096M".to_string()));
    assert!(args.contains(&"-kernel".to_string()));
    assert!(args.contains(&"-initrd".to_string()));
    assert!(args.contains(&"-append".to_string()));
    assert!(args.contains(&"console=ttyS0 katana.args=--dev".to_string()));
    assert!(args.contains(&"-netdev".to_string()));
    assert!(args.contains(&"user,id=net0,hostfwd=tcp::5050-:5050".to_string()));
}

#[test]
fn qemu_args_confidential_guest() {
    let mut config = QemuConfig {
        memory_mb: 2048,
        vcpus: 2,
        cpu_type: "host".to_string(),
        kernel_path: "/tmp/vmlinuz".to_string(),
        initrd_path: "/tmp/initrd.img".to_string(),
        bios_path: Some("/tmp/ovmf.fd".to_string()),
        kernel_cmdline: "console=ttyS0".to_string(),
        rpc_port: 5050,
        disk_image: Some("/srv/i/katana-data.qcow2".to_string()),
        qmp_socket: "/srv/i/qmp.sock".to_string(),
        serial_log: "/srv/i/serial.log".to_string(),
        pid_file: "/srv/i/qemu.pid".to_string(),
        sev_snp: None,
        enable_kvm: true,
    };
    config.sev_snp = Some(katana_hypervisor::qemu_config::SevSnpConfig {
        cbitpos: 51,
        reduced_phys_bits: 1,
        vcpu_type: "EPYC-v4".to_string(),
    });

    let args = config.to_qemu_args();
    assert!(args.contains(&"q35,confidential-guest-support=sev0".to_string()));
    assert!(args.contains(&"sev-snp-guest,id=sev0,cbitpos=51,reduced-phys-bits=1".to_string()));
    assert!(args.contains(&"EPYC-v4".to_string()));
    assert!(args.contains(&"-bios".to_string()));
    assert!(args.contains(&"/tmp/ovmf.fd".to_string()));
    assert!(args.contains(&"file=/srv/i/katana-data.qcow2,if=virtio,format=qcow2".to_string()));
    assert!(args.contains(&"unix:/srv/i/qmp.sock,server,nowait".to_string()));
    assert!(args.contains(&"file:/srv/i/serial.log".to_string()));
    assert!(args.contains(&"-daemonize".to_string()));
    assert_eq!(args.last().unwrap(), "/srv/i/qemu.pid");
}

#[test]
fn katana_args_and_cmdline() {
    let mut config = InstanceConfig::default();
    config.chain_id = Some("dev-1".to_string());
    config.dev_mode = true;
    config.block_time = Some(12);
    config.accounts = Some(7);
    config.disable_fee = true;
    config.extra_args = vec!["--silent".to_string()];

    let args = config.build_katana_args();
    assert_eq!(
        args,
        vec![
            "--http.addr=0.0.0.0".to_string(),
            "--http.port=5050".to_string(),
            "--chain-id=dev-1".to_string(),
            "--dev".to_string(),
            "--block-time=12".to_string(),
            "--accounts=7".to_string(),
            "--disable-fee".to_string(),
            "--silent".to_string(),
        ]
    );

    let cmdline = QemuConfig::build_kernel_cmdline(&args);
    assert_eq!(
        cmdline,
        "console=ttyS0 loglevel=4 katana.args=--http.addr=0.0.0.0 --http.port=5050 \
         --chain-id=dev-1 --dev --block-time=12 --accounts=7 --disable-fee --silent"
    );
}
