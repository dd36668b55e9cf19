use katana_hypervisor::config::InstanceConfig;
use katana_hypervisor::db::StateDatabase;
use katana_hypervisor::instance::InstanceState;
use katana_hypervisor::ports::PortAllocator;

fn allocator_instance(name: &str) -> InstanceState {
    let config = InstanceConfig {
        vcpus: 4,
        memory_mb: 4096,
        storage_bytes: 10 * 1024 * 1024 * 1024,
        quota_project_id: None,
        rpc_port: 5050,
        metrics_port: None,
        tee_mode: false,
        vcpu_type: "host".to_string(),
        expected_measurement: None,
        kernel_path: "/tmp/vmlinuz".to_string(),
        initrd_path: "/tmp/initrd.img".to_string(),
        ovmf_path: None,
        data_dir: "/tmp/data".to_string(),
        disk_image: None,
        chain_id: None,
        dev_mode: true,
        block_time: None,
        accounts: Some(10),
        disable_fee: true,
        extra_args: vec![],
    };
    let id = format!("test-id-{}", name);
    InstanceState::new(id, name.to_string(), config)
}

#[test]
fn test_allocate_first_port() {
    let db = StateDatabase::new();
    let allocator = PortAllocator::new();

    let port = allocator.allocate_port(&db, 5050).unwrap();
    assert_eq!(port, 5050);
}

#[test]
fn test_allocate_sequential_ports() {
    let mut db = StateDatabase::new();
    let allocator = PortAllocator::new();

    let instance1 = allocator_instance("instance1");
    let instance2 = allocator_instance("instance2");
    db.save_instance(&instance1).unwrap();
    db.save_instance(&instance2).unwrap();

    let port1 = allocator.allocate_port(&db, 5050).unwrap();
    db.allocate_port(&instance1.id, port1, "rpc").unwrap();

    let port2 = allocator.allocate_port(&db, 5050).unwrap();
    assert_eq!(port2, 5051);

    db.allocate_port(&instance2.id, port2, "rpc").unwrap();
    let port3 = allocator.allocate_port(&db, 5050).unwrap();
    assert_eq!(port3, 5052);
}

#[test]
fn test_port_reuse_after_release() {
    let mut db = StateDatabase::new();
    let allocator = PortAllocator::new();

    let instance1 = allocator_instance("instance1");
    let instance2 = allocator_instance("instance2");
    let instance3 = allocator_instance("instance3");
    db.save_instance(&instance1).unwrap();
    db.save_instance(&instance2).unwrap();
    db.save_instance(&instance3).unwrap();

    let port1 = allocator.allocate_port(&db, 5050).unwrap();
    db.allocate_port(&instance1.id, port1, "rpc").unwrap();

    let port2 = allocator.allocate_port(&db, 5050).unwrap();
    db.allocate_port(&instance2.id, port2, "rpc").unwrap();

    let port3 = allocator.allocate_port(&db, 5050).unwrap();
    db.allocate_port(&instance3.id, port3, "rpc").unwrap();

    assert_eq!(port1, 5050);
    assert_eq!(port2, 5051);
    assert_eq!(port3, 5052);

    db.delete_instance("instance2").unwrap();

    let port4 = allocator.allocate_port(&db, 5050).unwrap();
    assert_eq!(port4, 5051);
}

#[test]
fn test_is_port_available() {
    let mut db = StateDatabase::new();
    let allocator = PortAllocator::new();

    let instance1 = allocator_instance("instance1");
    db.save_instance(&instance1).unwrap();

    assert!(allocator.is_port_available(&db, 5050).unwrap());

    db.allocate_port(&instance1.id, 5050, "rpc").unwrap();

    assert!(!allocator.is_port_available(&db, 5050).unwrap());

    assert!(allocator.is_port_available(&db, 5051).unwrap());
}

#[test]
fn test_allocate_custom_base_port() {
    let db = StateDatabase::new();
    let allocator = PortAllocator::new();

    let port = allocator.allocate_port(&db, 8080).unwrap();
    assert_eq!(port, 8080);
}

#[test]
fn test_multiple_instances_same_base() {
    let mut db = StateDatabase::new();
    let allocator = PortAllocator::new();

    let base_port = 55000u16;

    let mut ports = vec![];
    for i in 0..10 {
        let instance = allocator_instance(&format!("instance{}", i));
        db.save_instance(&instance).unwrap();

        let port = allocator.allocate_port(&db, base_port).unwrap();
        db.allocate_port(&instance.id, port, "rpc").unwrap();
        ports.push(port);
    }

    for i in 0..10 {
        assert_eq!(ports[i], base_port + i as u16);
    }
}

#[test]
fn test_port_allocation_with_gaps() {
    let mut db = StateDatabase::new();
    let allocator = PortAllocator::new();

    let instance1 = allocator_instance("instance1");
    let instance2 = allocator_instance("instance2");
    let instance3 = allocator_instance("instance3");
    db.save_instance(&instance1).unwrap();
    db.save_instance(&instance2).unwrap();
    db.save_instance(&instance3).unwrap();

    db.allocate_port(&instance1.id, 5050, "rpc").unwrap();
    db.allocate_port(&instance2.id, 5051, "rpc").unwrap();
    db.allocate_port(&instance3.id, 5052, "rpc").unwrap();

    db.delete_instance("instance2").unwrap();

    let port = allocator.allocate_port(&db, 5050).unwrap();
    assert_eq!(port, 5051);
}
