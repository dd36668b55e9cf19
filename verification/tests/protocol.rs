use katana_hypervisor::boot::BootComponents;
use katana_hypervisor::controller::{
    attach_instance, create_instance, create_instance_with_id, finish_resume_instance,
    new_instance_id, pause_instance, resume_instance, CreateRequest, ResumeAction,
};
use katana_hypervisor::db::StateDatabase;
use katana_hypervisor::decimal::{i64_to_string, parse_pid, parse_u64, trim_ascii, u64_to_string};
use katana_hypervisor::error::HypervisorError;
use katana_hypervisor::instance::InstanceState;
use katana_hypervisor::ports::PortAllocator;
use katana_hypervisor::qmp::{classify_reply, str_starts_with, QmpCommand, QmpReplyKind};
use katana_hypervisor::stats::{build_stats_response, format_uptime, process_uptime_secs};
use katana_hypervisor::status::InstanceStatus;
use katana_hypervisor::storage::StorageManager;
use katana_hypervisor::strutil::{path_join, str_contains, str_eq};
use katana_hypervisor::qmp::{CpuInfo, MemoryInfo, VmStatus};

fn plane() -> (StateDatabase, StorageManager, BootComponents, PortAllocator) {
    (
        StateDatabase::new(),
        StorageManager::new("/srv/instances".to_string()),
        BootComponents::load("/srv/boot", true, true, true).unwrap(),
        PortAllocator::new(),
    )
}

fn req(name: &str) -> CreateRequest {
    CreateRequest {
        name: name.to_string(),
        vcpus: 2,
        memory: "2G".to_string(),
        storage: "1G".to_string(),
        port: None,
        dev: false,
        tee: false,
        vcpu_type: "EPYC-v4".to_string(),
        chain_id: None,
        block_time: None,
        accounts: Some(10),
        disable_fee: false,
        extra_args: vec![],
    }
}

#[test]
fn decimal_rendering() {
    assert_eq!(u64_to_string(0), "0");
    assert_eq!(u64_to_string(7), "7");
    assert_eq!(u64_to_string(12345), "12345");
    assert_eq!(u64_to_string(u64::MAX), "18446744073709551615");
    assert_eq!(i64_to_string(-5), "-5");
    assert_eq!(i64_to_string(42), "42");
    assert_eq!(i64_to_string(i64::MIN), "-9223372036854775808");
}

#[test]
fn decimal_parsing() {
    assert_eq!(parse_u64("0"), Some(0));
    assert_eq!(parse_u64("18446744073709551615"), Some(u64::MAX));
    assert_eq!(parse_u64("18446744073709551616"), None);
    assert_eq!(parse_u64(""), None);
    assert_eq!(parse_u64("12a"), None);
    assert_eq!(parse_pid(" 1234\n"), Some(1234));
    assert_eq!(parse_pid("2147483647"), Some(i32::MAX));
    assert_eq!(parse_pid("2147483648"), None);
    assert_eq!(trim_ascii("  a b \t\n"), "a b");
}

#[test]
fn string_helpers() {
    assert!(str_eq("abc", "abc"));
    assert!(!str_eq("abc", "abd"));
    assert!(!str_eq("abc", "ab"));
    assert!(str_contains("hello world", "lo wo"));
    assert!(str_contains("hello", ""));
    assert!(!str_contains("hello", "worlds"));
    assert!(str_starts_with("{\"return\": {}}", "{\"return\""));
    assert!(!str_starts_with("x", "xy"));
    assert_eq!(path_join("/a/b", "c.txt"), "/a/b/c.txt");
}

#[test]
fn request_lines_for_all_commands() {
    assert_eq!(QmpCommand::QueryStatus.request_line(), "{\"execute\": \"query-status\"}");
    assert_eq!(QmpCommand::QueryCpus.request_line(), "{\"execute\": \"query-cpus-fast\"}");
    assert_eq!(
        QmpCommand::QueryMemory.request_line(),
        "{\"execute\": \"query-memory-size-summary\"}"
    );
    assert_eq!(
        QmpCommand::SystemPowerdown.request_line(),
        "{\"execute\": \"system_powerdown\"}"
    );
    assert_eq!(QmpCommand::Quit.request_line(), "{\"execute\": \"quit\"}");
    assert_eq!(QmpCommand::Stop.request_line(), "{\"execute\": \"stop\"}");
    assert_eq!(QmpCommand::Cont.request_line(), "{\"execute\": \"cont\"}");
}

#[test]
fn reply_classification() {
    assert!(matches!(classify_reply("{\"return\": {}}"), QmpReplyKind::Return));
    assert!(matches!(
        classify_reply("{\"error\": {\"class\": \"GenericError\", \"desc\": \"no\"}}"),
        QmpReplyKind::CommandError
    ));
    assert!(matches!(classify_reply("hello"), QmpReplyKind::Malformed));
    assert!(matches!(classify_reply(""), QmpReplyKind::Malformed));
}

#[test]
fn uptime_formatting() {
    assert_eq!(format_uptime(3725), "1h 2m 5s");
    assert_eq!(format_uptime(125), "2m 5s");
    assert_eq!(format_uptime(59), "59s");
    assert_eq!(format_uptime(0), "0s");
    assert_eq!(process_uptime_secs(500, 1000), 995);
    assert_eq!(process_uptime_secs(200000, 1000), 0);
}

#[test]
fn stats_assembly() {
    let (mut db, storage, boot, allocator) = plane();
    let created =
        create_instance_with_id(&mut db, &storage, &boot, &allocator, &req("m"), "id-m", 50)
            .unwrap();

    let response = build_stats_response(
        &created,
        VmStatus { status: "running".to_string(), running: true },
        vec![
            CpuInfo { cpu_index: 0, qom_path: None, thread_id: 100 },
            CpuInfo { cpu_index: 1, qom_path: None, thread_id: 101 },
        ],
        MemoryInfo { base_memory: 2048 * 1024 * 1024 },
        "1h 2m 5s".to_string(),
        Some(42),
    );
    assert_eq!(response.instance_name, "m");
    assert!(response.status.running);
    assert_eq!(response.status.pid, Some(42));
    assert_eq!(response.resources.cpu_count, 2);
    assert_eq!(response.resources.cpus[1].thread_id, 101);
    assert_eq!(response.resources.memory_mb, 2048);
    assert_eq!(response.network.rpc_url, format!("http://localhost:{}", created.config.rpc_port));
    assert_eq!(
        response.network.health_url,
        format!("http://localhost:{}/", created.config.rpc_port)
    );
    assert!(response.config.tee_mode.is_none());
}

#[test]
fn create_error_kinds() {
    let (mut db, storage, boot, allocator) = plane();

    let mut bad_memory = req("b1");
    bad_memory.memory = "not-a-size".to_string();
    assert!(matches!(
        create_instance_with_id(&mut db, &storage, &boot, &allocator, &bad_memory, "id-b1", 10),
        Err(HypervisorError::BadRequest(_))
    ));

    let mut tiny = req("b2");
    tiny.storage = "1K".to_string();
    assert!(matches!(
        create_instance_with_id(&mut db, &storage, &boot, &allocator, &tiny, "id-b2", 10),
        Err(HypervisorError::BadRequest(_))
    ));

    // Nothing entered the store on those failures.
    assert_eq!(db.list_instances().unwrap().len(), 0);

    create_instance_with_id(&mut db, &storage, &boot, &allocator, &req("b3"), "id-b3", 10)
        .unwrap();
    let mut taken_port = req("b4");
    taken_port.port = Some(5050);
    assert!(matches!(
        create_instance_with_id(&mut db, &storage, &boot, &allocator, &taken_port, "id-b4", 11),
        Err(HypervisorError::BadRequest(_))
    ));

    // An id collision is an internal error, not a name conflict.
    assert!(matches!(
        create_instance_with_id(&mut db, &storage, &boot, &allocator, &req("b5"), "id-b3", 12),
        Err(HypervisorError::Internal(_))
    ));
}

#[test]
fn lifecycle_error_kinds() {
    let (mut db, storage, boot, allocator) = plane();

    assert!(matches!(
        pause_instance(&mut db, "ghost", 10),
        Err(HypervisorError::NotFound(_))
    ));

    create_instance_with_id(&mut db, &storage, &boot, &allocator, &req("e"), "id-e", 10).unwrap();

    // A created instance cannot be paused or resumed.
    assert!(matches!(
        pause_instance(&mut db, "e", 11),
        Err(HypervisorError::InvalidTransition { .. })
    ));
    assert!(matches!(
        resume_instance(&mut db, "e", 11),
        Err(HypervisorError::InvalidTransition { .. })
    ));

    // The port registry refuses an unknown owner and a duplicate port.
    assert!(matches!(
        db.allocate_port("no-such-id", 6000, "rpc"),
        Err(HypervisorError::StorageError(_))
    ));
    assert!(matches!(
        db.allocate_port("id-e", 5050, "rpc"),
        Err(HypervisorError::StorageError(_))
    ));
}

#[test]
fn resume_rewinds_on_failure() {
    let (mut db, storage, boot, allocator) = plane();
    create_instance_with_id(&mut db, &storage, &boot, &allocator, &req("w"), "id-w", 10).unwrap();
    katana_hypervisor::controller::start_instance(&mut db, "w", true, true, 11).unwrap();
    katana_hypervisor::controller::finish_start_instance(&mut db, "w", &Ok(31), 12).unwrap();
    pause_instance(&mut db, "w", 13).unwrap();
    katana_hypervisor::controller::finish_pause_instance(&mut db, "w", &Ok(()), 14).unwrap();

    let action = resume_instance(&mut db, "w", 15).unwrap();
    let plan = match action {
        ResumeAction::Send(plan) => plan,
        ResumeAction::AlreadyRunning => panic!("expected a resume plan"),
    };
    assert!(matches!(plan.request.command, QmpCommand::Cont));

    let result = finish_resume_instance(
        &mut db,
        "w",
        &Err("connection refused".to_string()),
        &plan.previous_status,
        16,
    );
    assert!(matches!(result, Err(HypervisorError::HypervisorProtocolFailed(_))));
    let record = db.get_instance("w").unwrap();
    assert!(matches!(record.status, InstanceStatus::Paused));
    assert_eq!(record.vm_pid, Some(31));
}

#[test]
fn attach_trusts_verified_process() {
    let (mut db, storage, boot, allocator) = plane();
    let created =
        create_instance_with_id(&mut db, &storage, &boot, &allocator, &req("t"), "id-t", 10)
            .unwrap();
    katana_hypervisor::controller::start_instance(&mut db, "t", true, true, 11).unwrap();
    katana_hypervisor::controller::finish_start_instance(&mut db, "t", &Ok(61), 12).unwrap();

    let socket = created.qmp_socket.clone().unwrap();
    let cmdline = format!("/usr/bin/qemu-system-x86_64\0-qmp\0unix:{},server,nowait\0", socket);

    let attached = attach_instance(&mut db, "t", Some(&cmdline), true, 13).unwrap();
    assert!(matches!(attached.status, InstanceStatus::Running));
    assert_eq!(attached.vm_pid, Some(61));

    // A process that no longer answers is not adopted: the record fails and
    // the pid is dropped.
    let rejected = attach_instance(&mut db, "t", Some(&cmdline), false, 14);
    assert!(rejected.is_err());
    let record = db.get_instance("t").unwrap();
    assert!(matches!(record.status, InstanceStatus::Failed { .. }));
    assert!(record.vm_pid.is_none());
}

#[test]
fn random_ids_are_hyphenated_uuids() {
    let id = new_instance_id();
    assert_eq!(id.len(), 36);
    let other = new_instance_id();
    assert_ne!(id, other);
}

#[test]
fn create_with_random_id() {
    let (mut db, storage, boot, allocator) = plane();
    let created =
        create_instance(&mut db, &storage, &boot, &allocator, &req("rnd"), 10).unwrap();
    assert_eq!(created.id.len(), 36);
    assert!(db.instance_exists("rnd").unwrap());
}

#[test]
fn status_json_round_trip() {
    let statuses = vec![
        InstanceStatus::Created,
        InstanceStatus::Starting,
        InstanceStatus::Running,
        InstanceStatus::Pausing,
        InstanceStatus::Paused,
        InstanceStatus::Resuming,
        InstanceStatus::Suspending,
        InstanceStatus::Suspended,
        InstanceStatus::Stopping,
        InstanceStatus::Stopped,
        InstanceStatus::Failed { error: "boom".to_string() },
        InstanceStatus::Failed { error: "a \"quoted\" \\ path".to_string() },
    ];
    for status in statuses {
        let rendered = status.to_json();
        let parsed = InstanceStatus::from_json(&rendered).expect("rendering must parse");
        match (&status, &parsed) {
            (InstanceStatus::Failed { error: e1 }, InstanceStatus::Failed { error: e2 }) => {
                assert_eq!(e1, e2);
            }
            _ => assert!(
                std::mem::discriminant(&status) == std::mem::discriminant(&parsed)
            ),
        }
    }
    assert_eq!(InstanceStatus::Running.to_json(), "\"Running\"");
    assert_eq!(
        (InstanceStatus::Failed { error: "x".to_string() }).to_json(),
        "{\"Failed\":{\"error\":\"x\"}}"
    );
    assert!(InstanceStatus::from_json("\"Sleeping\"").is_none());
    assert!(InstanceStatus::from_json("{\"Failed\":{\"error\":\"un\\qterminated\"}}").is_none());
}

#[test]
fn boot_components_layout() {
    let boot = BootComponents::load("/srv/boot", true, true, true).unwrap();
    assert_eq!(boot.kernel_path, "/srv/boot/vmlinuz");
    assert_eq!(boot.initrd_path, "/srv/boot/initrd.img");
    assert_eq!(boot.ovmf_path, "/srv/boot/ovmf.fd");

    let missing = BootComponents::load("/srv/boot", false, true, true);
    match missing {
        Err(e) => assert!(e.message().contains("Kernel not found at")),
        Ok(_) => panic!("missing kernel must be refused"),
    }
}
