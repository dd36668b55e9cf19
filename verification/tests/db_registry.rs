use katana_hypervisor::config::InstanceConfig;
use katana_hypervisor::db::StateDatabase;
use katana_hypervisor::instance::InstanceState;
use katana_hypervisor::status::InstanceStatus;

fn stored_instance(name: &str) -> InstanceState {
    let config = InstanceConfig {
        vcpus: 4,
        memory_mb: 4096,
        storage_bytes: 10 * 1024 * 1024 * 1024,
        quota_project_id: None,
        rpc_port: 5050,
        metrics_port: None,
        tee_mode: false,
        vcpu_type: "host".to_string(),
        expected_measurement: None,
        kernel_path: "/tmp/vmlinuz".to_string(),
        initrd_path: "/tmp/initrd.img".to_string(),
        ovmf_path: None,
        data_dir: "/tmp/data".to_string(),
        disk_image: None,
        chain_id: None,
        dev_mode: true,
        block_time: None,
        accounts: Some(10),
        disable_fee: true,
        extra_args: vec![],
    };
    let id = format!("test-id-{}", name);
    InstanceState::new(id, name.to_string(), config)
}

#[test]
fn db_tests_test_create_database() {
    let _db = StateDatabase::new();
}

#[test]
fn db_tests_test_save_and_get_instance() {
    let mut db = StateDatabase::new();
    let instance = stored_instance("test1");

    db.save_instance(&instance).unwrap();

    let retrieved = db.get_instance("test1").unwrap();

    assert_eq!(retrieved.name, "test1");
    assert_eq!(retrieved.id, instance.id);
    assert_eq!(retrieved.config.vcpus, 4);
    assert_eq!(retrieved.config.memory_mb, 4096);
}

#[test]
fn db_tests_test_get_nonexistent_instance() {
    let db = StateDatabase::new();

    let result = db.get_instance("nonexistent");
    assert!(result.is_err());
}

#[test]
fn db_tests_test_update_instance_status() {
    let mut db = StateDatabase::new();
    let mut instance = stored_instance("test1");

    db.save_instance_at(&instance, instance.updated_at).unwrap();

    // A later save stamps a later time.
    let later = instance.created_at + 1;
    instance.update_status_at(InstanceStatus::Running, later);
    instance.vm_pid = Some(12345);
    db.save_instance_at(&instance, later).unwrap();

    let retrieved = db.get_instance("test1").unwrap();
    assert!(matches!(retrieved.status, InstanceStatus::Running));
    assert_eq!(retrieved.vm_pid, Some(12345));
    assert!(retrieved.updated_at > retrieved.created_at);
}

#[test]
fn db_tests_test_list_instances() {
    let mut db = StateDatabase::new();

    let instances = db.list_instances().unwrap();
    assert_eq!(instances.len(), 0);

    let instance1 = stored_instance("test1");
    let instance2 = stored_instance("test2");
    let instance3 = stored_instance("test3");

    db.save_instance(&instance1).unwrap();
    db.save_instance(&instance2).unwrap();
    db.save_instance(&instance3).unwrap();

    let instances = db.list_instances().unwrap();
    assert_eq!(instances.len(), 3);

    let names: Vec<String> = instances.iter().map(|i| i.name.clone()).collect();
    assert!(names.contains(&"test1".to_string()));
    assert!(names.contains(&"test2".to_string()));
    assert!(names.contains(&"test3".to_string()));
}

#[test]
fn db_tests_test_delete_instance() {
    let mut db = StateDatabase::new();
    let instance = stored_instance("test1");

    db.save_instance(&instance).unwrap();

    db.delete_instance("test1").unwrap();

    let result = db.get_instance("test1");
    assert!(result.is_err());
}

#[test]
fn db_tests_test_delete_nonexistent_instance() {
    let mut db = StateDatabase::new();

    let result = db.delete_instance("nonexistent");
    assert!(result.is_err());
}

#[test]
fn db_tests_test_instance_exists() {
    let mut db = StateDatabase::new();
    let instance = stored_instance("test1");

    assert!(!db.instance_exists("test1").unwrap());

    db.save_instance(&instance).unwrap();

    assert!(db.instance_exists("test1").unwrap());

    db.delete_instance("test1").unwrap();

    assert!(!db.instance_exists("test1").unwrap());
}

#[test]
fn db_tests_test_port_allocation() {
    let mut db = StateDatabase::new();

    let instance1 = stored_instance("instance1");
    let instance2 = stored_instance("instance2");
    db.save_instance(&instance1).unwrap();
    db.save_instance(&instance2).unwrap();

    let ports = db.get_allocated_ports().unwrap();
    assert_eq!(ports.len(), 0);

    db.allocate_port(&instance1.id, 5050, "rpc").unwrap();
    db.allocate_port(&instance1.id, 9090, "metrics").unwrap();
    db.allocate_port(&instance2.id, 5051, "rpc").unwrap();

    let ports = db.get_allocated_ports().unwrap();
    assert_eq!(ports.len(), 3);
    assert!(ports.contains(&5050));
    assert!(ports.contains(&9090));
    assert!(ports.contains(&5051));
}

#[test]
fn db_tests_test_port_cascade_delete() {
    let mut db = StateDatabase::new();
    let instance = stored_instance("test1");

    db.save_instance(&instance).unwrap();
    db.allocate_port(&instance.id, 5050, "rpc").unwrap();
    db.allocate_port(&instance.id, 9090, "metrics").unwrap();

    let ports = db.get_allocated_ports().unwrap();
    assert_eq!(ports.len(), 2);

    db.delete_instance("test1").unwrap();

    let ports = db.get_allocated_ports().unwrap();
    assert_eq!(ports.len(), 0);
}

#[test]
fn db_tests_test_duplicate_instance_name() {
    let mut db = StateDatabase::new();
    let instance1 = stored_instance("test1");
    let mut instance2 = stored_instance("test1");
    instance2.id = "different-id".to_string();

    db.save_instance(&instance1).unwrap();

    let result = db.save_instance(&instance2);
    assert!(result.is_err());
}

#[test]
fn db_tests_test_get_instance_by_id() {
    let mut db = StateDatabase::new();
    let instance = stored_instance("test1");

    db.save_instance(&instance).unwrap();

    let retrieved = db.get_instance_by_id(&instance.id).unwrap();
    assert_eq!(retrieved.name, "test1");
    assert_eq!(retrieved.id, instance.id);

    let result = db.get_instance_by_id("nonexistent");
    assert!(result.is_err());
}

#[test]
fn db_tests_test_instance_status_serialization() {
    let mut db = StateDatabase::new();
    let mut instance = stored_instance("test1");

    let statuses = vec![
        InstanceStatus::Created,
        InstanceStatus::Starting,
        InstanceStatus::Running,
        InstanceStatus::Stopping,
        InstanceStatus::Stopped,
        InstanceStatus::Failed { error: "test error".to_string() },
    ];

    for status in statuses {
        instance.update_status(status.clone());
        db.save_instance(&instance).unwrap();

        let retrieved = db.get_instance("test1").unwrap();
        match (&status, &retrieved.status) {
            (InstanceStatus::Failed { error: e1 }, InstanceStatus::Failed { error: e2 }) => {
                assert_eq!(e1, e2);
            }
            _ => assert!(
                std::mem::discriminant(&status) == std::mem::discriminant(&retrieved.status)
            ),
        }
    }
}
