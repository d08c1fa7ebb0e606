use istruct::client::db::{ClientDB, RegistryWrite};
use istruct::client::device_type::{
    ComputeDeviceType, DeviceType, NetworkDeviceType, StorageDeviceType,
};
use istruct::client::index::Index;
use istruct::client::consistency::is_consistent;
use istruct::client::Client;
use istruct::error::EngineError;

const CPU: DeviceType = DeviceType::Compute(ComputeDeviceType::Cpu);
const MEM: DeviceType = DeviceType::Compute(ComputeDeviceType::Mem);
const BLOCK: DeviceType = DeviceType::Storage(StorageDeviceType::Block);
const NAT: DeviceType = DeviceType::Network(NetworkDeviceType::Nat);

fn machine_registry() -> ClientDB {
    let mut db = ClientDB::new();
    db.set_dev_type(10, MEM);
    db.set_dev_attached(10, 1);
    db.set_dev_mem(10, 4096);
    db.set_dev_type(11, CPU);
    db.set_dev_attached(11, 1);
    db.set_dev_cpu(11, 2);
    db.set_known_machine(1);
    db
}

#[test]
fn index_set_get_del() {
    let mut index: Index<u64> = Index::new();
    assert_eq!(index.get(5), None);
    assert!(!index.contains_key(5));
    index.set(5, 50);
    index.set(3, 30);
    index.set(9, 90);
    assert_eq!(index.get(5), Some(50));
    assert_eq!(index.get(3), Some(30));
    assert_eq!(index.get(9), Some(90));
    assert_eq!(index.get(4), None);
    index.set(5, 55);
    assert_eq!(index.get(5), Some(55));
    assert_eq!(index.scan(), vec![(3, 30), (5, 55), (9, 90)]);
    index.del(5);
    assert_eq!(index.get(5), None);
    assert!(index.contains_key(3));
    index.del(5);
    assert_eq!(index.scan(), vec![(3, 30), (9, 90)]);
    index.del(3);
    index.del(9);
    assert_eq!(index.scan(), vec![]);
}

#[test]
fn index_scans_in_key_order() {
    let mut index: Index<u8> = Index::new();
    for key in [7u128, 1, u128::MAX, 0, 100, 3] {
        index.set(key, 0);
    }
    let keys: Vec<u128> = index.scan().into_iter().map(|e| e.0).collect();
    assert_eq!(keys, vec![0, 1, 3, 7, 100, u128::MAX]);
}

#[test]
fn registry_indexes_are_independent() {
    let mut db = ClientDB::new();
    db.set_dev_type(1, BLOCK);
    db.set_dev_block_cap(1, 1000);
    db.set_dev_cpu(1, 3);
    db.set_dev_mem(2, 4);
    assert_eq!(db.get_dev_type(1), Some(BLOCK));
    assert_eq!(db.get_dev_type(2), None);
    assert_eq!(db.get_dev_block_cap(1), Some(1000));
    assert_eq!(db.get_dev_cpu(1), Some(3));
    assert_eq!(db.get_dev_mem(1), None);
    assert_eq!(db.get_dev_mem(2), Some(4));
    assert_eq!(db.get_dev_attached(1), None);
    db.del_dev_type(1);
    assert_eq!(db.get_dev_type(1), None);
    assert_eq!(db.get_dev_block_cap(1), Some(1000));
    db.del_dev_block_cap(1);
    db.del_dev_cpu(1);
    db.del_dev_mem(2);
    assert_eq!(db.get_dev_block_cap(1), None);
    assert_eq!(db.get_dev_cpu(1), None);
    assert_eq!(db.get_dev_mem(2), None);
}

#[test]
fn registry_owners() {
    let mut db = ClientDB::new();
    db.set_dev_attached(5, 100);
    db.set_dev_attached(3, 200);
    db.set_dev_attached(9, 100);
    db.set_dev_attached(1, 100);
    assert_eq!(db.get_dev_attached(5), Some(100));
    assert_eq!(db.get_dev_attached(3), Some(200));
    assert_eq!(db.get_dev_attached(4), None);
    assert_eq!(db.get_dev_attached_to(100), vec![1, 5, 9]);
    assert_eq!(db.get_dev_attached_to(200), vec![3]);
    assert_eq!(db.get_dev_attached_to(300), Vec::<u128>::new());
    db.set_dev_attached(5, 200);
    assert_eq!(db.get_dev_attached_to(100), vec![1, 9]);
    assert_eq!(db.get_dev_attached_to(200), vec![3, 5]);
    db.del_dev_attached(3);
    assert_eq!(db.get_dev_attached_to(200), vec![5]);
    assert_eq!(db.all_dev_attached(), vec![(1, 100), (5, 200), (9, 100)]);
}

#[test]
fn registry_known_machines() {
    let mut db = ClientDB::new();
    assert!(!db.is_known_machine(7));
    db.set_known_machine(7);
    db.set_known_machine(2);
    db.set_known_machine(7);
    assert!(db.is_known_machine(7));
    assert!(db.is_known_machine(2));
    assert!(!db.is_known_machine(3));
    assert_eq!(db.all_known_machines(), vec![2, 7]);
    db.del_known_machine(7);
    assert!(!db.is_known_machine(7));
    assert_eq!(db.all_known_machines(), vec![2]);
}

#[test]
fn registry_scans() {
    let mut db = ClientDB::new();
    db.set_dev_type(3, NAT);
    db.set_dev_type(1, BLOCK);
    db.set_dev_type(2, CPU);
    db.set_dev_cpu(2, 8);
    db.set_dev_mem(4, 16);
    db.set_dev_block_cap(1, 32);
    assert_eq!(db.all_dev_types(), vec![(1, BLOCK), (2, CPU), (3, NAT)]);
    assert_eq!(db.all_dev_cpu(), vec![(2, 8)]);
    assert_eq!(db.all_dev_mem(), vec![(4, 16)]);
    assert_eq!(db.all_dev_block_cap(), vec![(1, 32)]);
}

#[test]
fn registry_applies_writes_in_order() {
    let mut db = ClientDB::new();
    db.apply_all(&vec![
        RegistryWrite::SetDevType(1, BLOCK),
        RegistryWrite::SetDevBlockCap(1, 10),
        RegistryWrite::SetDevAttached(1, 9),
        RegistryWrite::SetDevType(1, NAT),
        RegistryWrite::DelDevBlockCap(1),
        RegistryWrite::SetKnownMachine(9),
        RegistryWrite::SetDevCpu(2, 1),
        RegistryWrite::SetDevMem(3, 1),
        RegistryWrite::DelDevCpu(2),
    ]);
    assert_eq!(db.get_dev_type(1), Some(NAT));
    assert_eq!(db.get_dev_block_cap(1), None);
    assert_eq!(db.get_dev_attached(1), Some(9));
    assert!(db.is_known_machine(9));
    assert_eq!(db.get_dev_cpu(2), None);
    assert_eq!(db.get_dev_mem(3), Some(1));
    db.apply(RegistryWrite::DelDevAttached(1));
    db.apply(RegistryWrite::DelDevType(1));
    db.apply(RegistryWrite::DelDevMem(3));
    db.apply(RegistryWrite::DelKnownMachine(9));
    assert_eq!(db.all_dev_types(), vec![]);
    assert_eq!(db.all_dev_attached(), vec![]);
    assert_eq!(db.all_dev_mem(), vec![]);
    assert_eq!(db.all_known_machines(), Vec::<u128>::new());
}

#[test]
fn stored_kind_that_cannot_be_read_is_corruption() {
    let mut db = ClientDB::new();
    assert_eq!(db.restore_dev_type(1, "is.storage.block"), Ok(()));
    assert_eq!(db.get_dev_type(1), Some(BLOCK));
    assert_eq!(db.restore_dev_type(2, "is.storage.tape"), Err(EngineError::Corruption));
    assert_eq!(db.get_dev_type(2), None);
    assert_eq!(db.restore_dev_type(1, "garbage"), Err(EngineError::Corruption));
    assert_eq!(db.get_dev_type(1), Some(BLOCK));
}

#[test]
fn consistent_registries() {
    assert!(is_consistent(&ClientDB::new()));
    assert!(is_consistent(&machine_registry()));
    let mut db = machine_registry();
    db.set_dev_type(20, BLOCK);
    db.set_dev_block_cap(20, 0);
    db.set_dev_type(21, NAT);
    db.set_dev_attached(21, 1);
    db.set_dev_attached(20, 777);
    assert!(is_consistent(&db));
}

#[test]
fn machine_without_its_cpu_is_not_consistent() {
    let mut db = machine_registry();
    db.del_dev_type(11);
    db.del_dev_attached(11);
    db.del_dev_cpu(11);
    assert!(!is_consistent(&db));
}

#[test]
fn machine_with_two_memories_is_not_consistent() {
    let mut db = machine_registry();
    db.set_dev_type(12, MEM);
    db.set_dev_attached(12, 1);
    db.set_dev_mem(12, 1);
    assert!(!is_consistent(&db));
}

#[test]
fn compute_device_without_a_known_owner_is_not_consistent() {
    let mut db = machine_registry();
    db.set_dev_type(12, CPU);
    db.set_dev_cpu(12, 1);
    assert!(!is_consistent(&db));
    db.set_dev_attached(12, 2);
    assert!(!is_consistent(&db));
}

#[test]
fn stray_records_are_not_consistent() {
    let mut db = machine_registry();
    db.set_dev_attached(30, 1);
    assert!(!is_consistent(&db));
    let mut db = machine_registry();
    db.set_dev_block_cap(10, 5);
    assert!(!is_consistent(&db));
    let mut db = machine_registry();
    db.set_dev_cpu(11, 0);
    assert!(!is_consistent(&db));
    let mut db = machine_registry();
    db.set_dev_mem(10, 0);
    assert!(!is_consistent(&db));
    let mut db = machine_registry();
    db.set_dev_type(40, BLOCK);
    assert!(!is_consistent(&db));
    let mut db = machine_registry();
    db.set_dev_cpu(99, 1);
    assert!(!is_consistent(&db));
}

#[test]
fn restore_takes_a_consistent_registry() {
    let client = Client::restore(machine_registry(), "/srv/block".to_string()).unwrap();
    assert_eq!(client.get_cpu_cores(11), Some(2));
    assert_eq!(client.get_mem_bytes(10), Some(4096));
    assert!(client.db().is_known_machine(1));
    assert_eq!(
        client.dev_list(1),
        Some(vec![(10, "is.compute.mem".to_string()), (11, "is.compute.cpu".to_string())])
    );
}

#[test]
fn restore_refuses_a_corrupt_registry() {
    let mut db = machine_registry();
    db.del_dev_mem(10);
    assert!(matches!(Client::restore(db, "/srv/block".to_string()), Err(EngineError::Corruption)));
}
