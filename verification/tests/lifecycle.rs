use katana_hypervisor::boot::BootComponents;
use katana_hypervisor::config::InstanceConfig;
use katana_hypervisor::controller::{
    create_instance_with_id, destroy_instance, finish_pause_instance, finish_reset_instance,
    finish_start_instance, finish_stop_instance, finish_suspend_instance, pause_instance,
    reset_instance, start_instance, stop_instance, suspend_instance, CreateRequest, PauseAction,
    StartAction, StopAction, StopOutcome, SuspendAction,
};
use katana_hypervisor::db::StateDatabase;
use katana_hypervisor::error::HypervisorError;
use katana_hypervisor::instance::InstanceState;
use katana_hypervisor::ports::PortAllocator;
use katana_hypervisor::qmp::QmpCommand;
use katana_hypervisor::status::InstanceStatus;
use katana_hypervisor::storage::StorageManager;

fn control_plane() -> (StateDatabase, StorageManager, BootComponents, PortAllocator) {
    let db = StateDatabase::new();
    let storage = StorageManager::new("/srv/instances".to_string());
    let boot = BootComponents::load("/srv/boot", true, true, true).unwrap();
    let allocator = PortAllocator::new();
    (db, storage, boot, allocator)
}

fn request(name: &str, vcpus: u32, memory: &str, storage: &str, port: Option<u16>) -> CreateRequest {
    CreateRequest {
        name: name.to_string(),
        vcpus,
        memory: memory.to_string(),
        storage: storage.to_string(),
        port,
        dev: true,
        tee: false,
        vcpu_type: "EPYC-v4".to_string(),
        chain_id: None,
        block_time: None,
        accounts: Some(10),
        disable_fee: false,
        extra_args: vec![],
    }
}

fn lifecycle_config(rpc_port: u16) -> InstanceConfig {
    InstanceConfig {
        vcpus: 2,
        memory_mb: 2048,
        storage_bytes: 1_000_000_000,
        quota_project_id: None,
        rpc_port,
        metrics_port: None,
        tee_mode: false,
        vcpu_type: "host".to_string(),
        expected_measurement: None,
        kernel_path: "/tmp/vmlinuz".to_string(),
        initrd_path: "/tmp/initrd.img".to_string(),
        ovmf_path: None,
        data_dir: "/tmp/data".to_string(),
        disk_image: None,
        chain_id: None,
        dev_mode: true,
        block_time: None,
        accounts: Some(10),
        disable_fee: false,
        extra_args: vec![],
    }
}

#[test]
fn test_full_instance_lifecycle() {
    let (mut db, storage, _boot, port_allocator) = control_plane();

    let base_port = 55000u16;
    let port = port_allocator.allocate_port(&db, base_port).unwrap();
    assert_eq!(port, base_port);

    let config = lifecycle_config(port);

    let instance_id = "test-instance-1";
    let paths = storage.get_paths(instance_id);
    assert_eq!(paths.instance_dir, storage.get_instance_dir(instance_id));

    let mut state =
        InstanceState::new(instance_id.to_string(), "test-instance".to_string(), config);

    db.save_instance(&state).unwrap();
    db.allocate_port(instance_id, port, "rpc").unwrap();

    let loaded_state = db.get_instance("test-instance").unwrap();
    assert_eq!(loaded_state.name, "test-instance");
    assert_eq!(loaded_state.config.rpc_port, port);

    state.update_status(InstanceStatus::Running);
    state.vm_pid = Some(12345);
    db.save_instance(&state).unwrap();

    let updated_state = db.get_instance("test-instance").unwrap();
    assert!(matches!(updated_state.status, InstanceStatus::Running));
    assert_eq!(updated_state.vm_pid, Some(12345));

    db.delete_instance("test-instance").unwrap();

    assert!(db.get_instance("test-instance").is_err());
}

#[test]
fn test_port_reallocation_after_delete() {
    let (mut db, _storage, _boot, port_allocator) = control_plane();

    let base_port = 55000u16;

    let state1 = InstanceState::new(
        "instance-1".to_string(),
        "instance-1".to_string(),
        lifecycle_config(base_port),
    );
    db.save_instance(&state1).unwrap();
    let port1 = port_allocator.allocate_port(&db, base_port).unwrap();
    db.allocate_port(&state1.id, port1, "rpc").unwrap();
    assert_eq!(port1, base_port);

    let state2 = InstanceState::new(
        "instance-2".to_string(),
        "instance-2".to_string(),
        lifecycle_config(base_port),
    );
    db.save_instance(&state2).unwrap();
    let port2 = port_allocator.allocate_port(&db, base_port).unwrap();
    db.allocate_port(&state2.id, port2, "rpc").unwrap();
    assert_eq!(port2, base_port + 1);

    let state3 = InstanceState::new(
        "instance-3".to_string(),
        "instance-3".to_string(),
        lifecycle_config(base_port),
    );
    db.save_instance(&state3).unwrap();
    let port3 = port_allocator.allocate_port(&db, base_port).unwrap();
    db.allocate_port(&state3.id, port3, "rpc").unwrap();
    assert_eq!(port3, base_port + 2);

    db.delete_instance("instance-2").unwrap();

    let port4 = port_allocator.allocate_port(&db, base_port).unwrap();
    assert_eq!(port4, base_port + 1);

    db.delete_instance("instance-1").unwrap();
    db.delete_instance("instance-3").unwrap();
}

#[test]
fn test_state_persistence_across_operations() {
    let (mut db, _storage, _boot, _allocator) = control_plane();

    let instance_id = "persist-test";
    let config = lifecycle_config(5050);

    let mut state =
        InstanceState::new(instance_id.to_string(), "persist-test".to_string(), config);

    db.save_instance(&state).unwrap();

    state.update_status(InstanceStatus::Starting);
    db.save_instance(&state).unwrap();

    let loaded = db.get_instance("persist-test").unwrap();
    assert!(matches!(loaded.status, InstanceStatus::Starting));

    state.update_status(InstanceStatus::Running);
    state.vm_pid = Some(99999);
    state.qmp_socket = Some("/tmp/qmp.sock".to_string());
    state.serial_log = Some("/tmp/serial.log".to_string());
    db.save_instance(&state).unwrap();

    let loaded = db.get_instance("persist-test").unwrap();
    assert!(matches!(loaded.status, InstanceStatus::Running));
    assert_eq!(loaded.vm_pid, Some(99999));
    assert_eq!(loaded.qmp_socket, Some("/tmp/qmp.sock".to_string()));

    state.update_status(InstanceStatus::Stopping);
    db.save_instance(&state).unwrap();

    let loaded = db.get_instance("persist-test").unwrap();
    assert!(matches!(loaded.status, InstanceStatus::Stopping));

    state.update_status(InstanceStatus::Stopped);
    state.vm_pid = None;
    db.save_instance(&state).unwrap();

    let loaded = db.get_instance("persist-test").unwrap();
    assert!(matches!(loaded.status, InstanceStatus::Stopped));
    assert_eq!(loaded.vm_pid, None);

    db.delete_instance("persist-test").unwrap();
}

#[test]
fn test_error_state_handling() {
    let (mut db, _storage, _boot, _allocator) = control_plane();

    let instance_id = "error-test";
    let config = lifecycle_config(5050);

    let mut state = InstanceState::new(instance_id.to_string(), "error-test".to_string(), config);

    db.save_instance(&state).unwrap();

    state.update_status(InstanceStatus::Failed { error: "QEMU process crashed".to_string() });
    db.save_instance(&state).unwrap();

    let loaded = db.get_instance("error-test").unwrap();
    match loaded.status {
        InstanceStatus::Failed { error } => {
            assert_eq!(error, "QEMU process crashed");
        }
        _ => panic!("Expected Failed status"),
    }

    db.delete_instance("error-test").unwrap();
}

#[test]
fn test_concurrent_instance_creation() {
    let (mut db, _storage, _boot, port_allocator) = control_plane();

    let base_port = 55000u16;

    let mut ports = Vec::new();
    let mut instance_ids = Vec::new();

    for i in 0..5 {
        let port = port_allocator.allocate_port(&db, base_port).unwrap();
        ports.push(port);

        let instance_id = format!("instance-{}", i);
        let config = lifecycle_config(port);

        let state = InstanceState::new(instance_id.clone(), format!("instance-{}", i), config);

        db.save_instance(&state).unwrap();
        db.allocate_port(&instance_id, port, "rpc").unwrap();

        instance_ids.push(instance_id);
    }

    assert_eq!(ports.len(), 5);
    for i in 0..5 {
        assert_eq!(ports[i], base_port + i as u16);
    }

    let instances = db.list_instances().unwrap();
    assert_eq!(instances.len(), 5);

    for instance_id in instance_ids {
        db.delete_instance(&instance_id).unwrap();
    }
}

#[test]
fn scenario_create_start_stop() {
    let (mut db, storage, boot, allocator) = control_plane();

    let req = request("a", 2, "2G", "1G", Some(55050));
    let created =
        create_instance_with_id(&mut db, &storage, &boot, &allocator, &req, "id-a", 100).unwrap();
    assert!(matches!(created.status, InstanceStatus::Created));
    assert_eq!(created.config.rpc_port, 55050);
    assert_eq!(created.config.vcpus, 2);
    // "2G" is two decimal gigabytes; "1G" is one.
    assert_eq!(created.config.memory_mb, 2_000_000_000 / 1024 / 1024);
    assert_eq!(created.config.storage_bytes, 1_000_000_000);
    assert!(created.vm_pid.is_none());

    let action = start_instance(&mut db, "a", true, true, 101).unwrap();
    assert!(matches!(action, StartAction::Launch(_)));
    let journalled = db.get_instance("a").unwrap();
    assert!(matches!(journalled.status, InstanceStatus::Starting));

    let st = finish_start_instance(&mut db, "a", &Ok(4242), 102).unwrap();
    assert!(matches!(st.status, InstanceStatus::Running));
    assert_eq!(st.vm_pid, Some(4242));

    let action = stop_instance(&mut db, "a", 30, 103).unwrap();
    let plan = match action {
        StopAction::Stop(plan) => plan,
        StopAction::AlreadyStopped => panic!("expected a stop plan"),
    };
    assert_eq!(plan.pid, 4242);
    assert_eq!(plan.grace_seconds, 30);
    assert!(plan.precede.is_none());
    let journalled = db.get_instance("a").unwrap();
    assert!(matches!(journalled.status, InstanceStatus::Stopping));

    let st =
        finish_stop_instance(&mut db, "a", &StopOutcome::Stopped, &plan.previous_status, 104)
            .unwrap();
    assert!(matches!(st.status, InstanceStatus::Stopped));
    assert!(st.vm_pid.is_none());
}

#[test]
fn scenario_reset_retains_running() {
    let (mut db, storage, boot, allocator) = control_plane();

    let req = request("r", 2, "2G", "1G", None);
    create_instance_with_id(&mut db, &storage, &boot, &allocator, &req, "id-r", 100).unwrap();
    start_instance(&mut db, "r", true, true, 101).unwrap();
    finish_start_instance(&mut db, "r", &Ok(777), 102).unwrap();

    let plan = reset_instance(&mut db, "r", 103).unwrap();
    assert!(plan.precede.is_none());
    assert!(matches!(plan.request.command, QmpCommand::SystemReset));
    // The journal entry keeps the pid: only the guest reboots.
    let journalled = db.get_instance("r").unwrap();
    assert!(matches!(journalled.status, InstanceStatus::Starting));
    assert_eq!(journalled.vm_pid, Some(777));

    let st = finish_reset_instance(&mut db, "r", &Ok(()), &plan.previous_status, 104).unwrap();
    assert!(matches!(st.status, InstanceStatus::Running));
    assert_eq!(st.vm_pid, Some(777));
}

#[test]
fn scenario_suspend_from_paused() {
    let (mut db, storage, boot, allocator) = control_plane();

    let req = request("s", 2, "2G", "1G", None);
    create_instance_with_id(&mut db, &storage, &boot, &allocator, &req, "id-s", 100).unwrap();
    start_instance(&mut db, "s", true, true, 101).unwrap();
    finish_start_instance(&mut db, "s", &Ok(555), 102).unwrap();

    let action = pause_instance(&mut db, "s", 103).unwrap();
    assert!(matches!(action, PauseAction::Send(_)));
    finish_pause_instance(&mut db, "s", &Ok(()), 104).unwrap();
    let paused = db.get_instance("s").unwrap();
    assert!(matches!(paused.status, InstanceStatus::Paused));

    let action = suspend_instance(&mut db, "s", 105).unwrap();
    let plan = match action {
        SuspendAction::Send(plan) => plan,
        SuspendAction::AlreadySuspended => panic!("expected a suspend plan"),
    };
    // From Paused the controller first unfreezes, then suspends.
    let precede = plan.precede.expect("continue must precede the suspend");
    assert!(matches!(precede.command, QmpCommand::Cont));
    assert!(matches!(plan.request.command, QmpCommand::SystemSuspend));

    let st =
        finish_suspend_instance(&mut db, "s", &Ok(()), &plan.previous_status, 106).unwrap();
    assert!(matches!(st.status, InstanceStatus::Suspended));
}

#[test]
fn scenario_start_on_missing_kernel() {
    let (mut db, storage, boot, allocator) = control_plane();

    let req = request("k", 2, "2G", "1G", None);
    let created =
        create_instance_with_id(&mut db, &storage, &boot, &allocator, &req, "id-k", 100).unwrap();

    let result = start_instance(&mut db, "k", false, true, 101);
    let err = result.err().expect("start must fail");
    match &err {
        HypervisorError::HypervisorLaunchFailed(msg) => {
            assert_eq!(*msg, format!("Kernel not found at {}", created.config.kernel_path));
        }
        other => panic!("unexpected error kind: {:?}", other),
    }

    let record = db.get_instance("k").unwrap();
    match &record.status {
        InstanceStatus::Failed { error } => {
            assert!(error.contains("Kernel not found at"));
        }
        other => panic!("unexpected status: {:?}", other),
    }
    assert!(record.vm_pid.is_none());
}

#[test]
fn scenario_duplicate_name_rejected() {
    let (mut db, storage, boot, allocator) = control_plane();

    let req = request("x", 2, "2G", "1G", None);
    let first =
        create_instance_with_id(&mut db, &storage, &boot, &allocator, &req, "id-x1", 100).unwrap();

    let second_req = request("x", 4, "4G", "2G", None);
    let result =
        create_instance_with_id(&mut db, &storage, &boot, &allocator, &second_req, "id-x2", 101);
    assert!(matches!(result, Err(HypervisorError::AlreadyExists(_))));

    let instances = db.list_instances().unwrap();
    assert_eq!(instances.len(), 1);
    assert_eq!(instances[0].id, first.id);
    assert_eq!(instances[0].config.vcpus, 2);
    assert_eq!(instances[0].config.storage_bytes, 1_000_000_000);
}

#[test]
fn destroy_requires_stopped_unless_forced() {
    let (mut db, storage, boot, allocator) = control_plane();

    let req = request("d", 2, "2G", "1G", None);
    create_instance_with_id(&mut db, &storage, &boot, &allocator, &req, "id-d", 100).unwrap();
    start_instance(&mut db, "d", true, true, 101).unwrap();
    finish_start_instance(&mut db, "d", &Ok(99), 102).unwrap();

    let refused = destroy_instance(&db, "d", false);
    assert!(matches!(refused, Err(HypervisorError::InvalidTransition { .. })));

    let plan = destroy_instance(&db, "d", true).unwrap();
    assert!(plan.stop_first);
    assert_eq!(plan.pid, Some(99));
    assert_eq!(plan.instance_id, "id-d");

    // After the storage is gone the record is deleted, cascading its port.
    db.delete_instance("d").unwrap();
    assert!(db.get_instance("d").is_err());
    assert_eq!(db.get_allocated_ports().unwrap().len(), 0);
}
