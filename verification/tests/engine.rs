use istruct::api::{BlockDevice, CpuDevice, MachineAction, MachineState, MemoryDevice};
use istruct::client::db::RegistryWrite;
use istruct::client::device_type::{
    ComputeDeviceType, DeviceType, NetworkDeviceType, StorageDeviceType,
};
use istruct::client::edit::{edit, DomainEdit};
use istruct::client::machine::{default_domain, LifecycleCall};
use istruct::client::rules::Operation;
use istruct::client::consistency::is_consistent;
use istruct::client::Client;
use istruct::error::{Conflict, EngineError, Missing};
use istruct::id::id_to_string;

const M1: u128 = 0x1000;
const M2: u128 = 0x2000;
const CPU1: u128 = 0x11;
const MEM1: u128 = 0x12;
const CPU2: u128 = 0x21;
const MEM2: u128 = 0x22;
const BLOCK: u128 = 0x31;
const NAT: u128 = 0x41;

const NOT_CPU: EngineError =
    EngineError::Conflict(Conflict::WrongKind(DeviceType::Compute(ComputeDeviceType::Cpu)));
const NOT_MEM: EngineError =
    EngineError::Conflict(Conflict::WrongKind(DeviceType::Compute(ComputeDeviceType::Mem)));
const NOT_BLOCK: EngineError =
    EngineError::Conflict(Conflict::WrongKind(DeviceType::Storage(StorageDeviceType::Block)));
const NOT_NAT: EngineError =
    EngineError::Conflict(Conflict::WrongKind(DeviceType::Network(NetworkDeviceType::Nat)));

fn engine() -> Client {
    Client::new("/srv/block".to_string())
}

fn engine_with_machines() -> Client {
    let mut client = engine();
    client.register_machine(M1, CPU1, MEM1).unwrap();
    client.register_machine(M2, CPU2, MEM2).unwrap();
    client.commit_create_block(BLOCK, 10_737_418_240).unwrap();
    client.register_nat(NAT).unwrap();
    client
}

fn name(kind: &str) -> String {
    kind.to_string()
}

#[test]
fn new_engine_is_empty() {
    let client = engine();
    assert!(client.all().is_empty());
    assert_eq!(client.dev_list(M1), None);
    assert_eq!(client.get_type(CPU1), None);
    assert!(is_consistent(client.db()));
}

#[test]
fn created_machine_has_a_cpu_and_a_memory() {
    let mut client = engine();
    let written = client.register_machine(M1, CPU1, MEM1).unwrap();
    assert_eq!(
        written,
        vec![
            RegistryWrite::SetDevType(MEM1, DeviceType::Compute(ComputeDeviceType::Mem)),
            RegistryWrite::SetDevAttached(MEM1, M1),
            RegistryWrite::SetDevMem(MEM1, 134217728),
            RegistryWrite::SetDevType(CPU1, DeviceType::Compute(ComputeDeviceType::Cpu)),
            RegistryWrite::SetDevAttached(CPU1, M1),
            RegistryWrite::SetDevCpu(CPU1, 1),
            RegistryWrite::SetKnownMachine(M1),
        ]
    );
    assert_eq!(
        client.dev_list(M1),
        Some(vec![(CPU1, name("is.compute.cpu")), (MEM1, name("is.compute.mem"))])
    );
    assert_eq!(client.get_cpu(CPU1), Some(CpuDevice { cores: 1 }));
    assert_eq!(client.get_memory(MEM1), Some(MemoryDevice { bytes: 128 * 1024 * 1024 }));
    assert_eq!(client.get_cpu(MEM1), None);
    assert_eq!(client.get_memory(CPU1), None);
    assert!(is_consistent(client.db()));
}

#[test]
fn created_machine_with_drawn_ids() {
    let mut client = engine();
    let (machine, descriptor) = Client::create();
    assert_eq!(descriptor, default_domain(machine));
    assert_eq!(descriptor.name, id_to_string(machine));
    assert_eq!(descriptor.uuid, Some(machine));
    let written = client.commit_create(machine).unwrap();
    assert_eq!(written.len(), 7);
    let devices = client.dev_list(machine).unwrap();
    assert_eq!(devices.len(), 2);
    let mut kinds: Vec<String> = devices.iter().map(|d| d.1.clone()).collect();
    kinds.sort();
    assert_eq!(kinds, vec![name("is.compute.cpu"), name("is.compute.mem")]);
    assert_ne!(devices[0].0, devices[1].0);
    let (other, _) = Client::create();
    assert_ne!(other, machine);
    assert!(is_consistent(client.db()));
}

#[test]
fn ids_in_use_are_refused() {
    let mut client = engine_with_machines();
    let in_use = Err(EngineError::Conflict(Conflict::IdInUse));
    assert_eq!(client.register_machine(M1, 0x91, 0x92), in_use);
    assert_eq!(client.register_machine(0x3000, CPU1, 0x92), in_use);
    assert_eq!(client.register_machine(0x3000, 0x91, BLOCK), in_use);
    assert_eq!(client.register_machine(0x3000, 0x91, 0x91), in_use);
    assert_eq!(client.commit_create_block(NAT, 5), in_use);
    assert_eq!(client.register_nat(MEM2), in_use);
    assert_eq!(client.all().len(), 6);
    client.commit_attach(0x3000, BLOCK).unwrap();
    assert_eq!(client.register_machine(0x3000, 0x91, 0x92), in_use);
    assert_eq!(client.dev_list(0x3000), None);
    assert!(is_consistent(client.db()));
}

#[test]
fn block_device_keeps_its_size() {
    let mut client = engine();
    let written = client.commit_create_block(BLOCK, 10_737_418_240).unwrap();
    assert_eq!(
        written,
        vec![
            RegistryWrite::SetDevType(BLOCK, DeviceType::Storage(StorageDeviceType::Block)),
            RegistryWrite::SetDevBlockCap(BLOCK, 10737418240),
        ]
    );
    assert_eq!(client.get_block(BLOCK), Some(BlockDevice { bytes: 10737418240 }));
    assert_eq!(client.get_block_bytes(BLOCK), Some(10737418240));
    assert_eq!(client.get_type(BLOCK), Some(name("is.storage.block")));
    assert_eq!(client.get_block(NAT), None);
}

#[test]
fn backing_file_is_made_as_a_qcow2_image() {
    assert_eq!(
        Client::create_block_file("/srv/block/block_x.qcow2", 10_737_418_240),
        vec!["create", "-f", "qcow2", "/srv/block/block_x.qcow2", "10737418240"]
    );
    assert_eq!(Client::create_block_file("a", 0), vec!["create", "-f", "qcow2", "a", "0"]);
}

#[test]
fn engine_edits_the_live_descriptor() {
    let client = engine();
    assert_eq!(
        client.edit(None, DomainEdit::AttachBlock(BLOCK)),
        Err(EngineError::NotFound(Missing::Descriptor))
    );
    let edited = client.edit(Some(default_domain(M1)), DomainEdit::AttachBlock(BLOCK)).unwrap();
    assert_eq!(
        edited.devices.disks[1].source.as_ref().unwrap().file,
        Some(client.path_for_block_device(BLOCK))
    );
    assert_eq!(
        client.path_for_block_device(BLOCK),
        "/srv/block/block_00000000-0000-0000-0000-000000000031.qcow2"
    );
}

#[test]
fn new_block_device_gets_an_id_and_a_path() {
    let client = engine();
    let (device, path) = client.create_block();
    assert_eq!(path, format!("/srv/block/block_{}.qcow2", id_to_string(device)));
    assert_eq!(path, client.path_for_block_device(device));
    assert_eq!(client.get_type(device), None);
}

#[test]
fn all_devices_with_their_kinds() {
    let client = engine_with_machines();
    assert_eq!(
        client.all(),
        vec![
            (CPU1, name("is.compute.cpu")),
            (MEM1, name("is.compute.mem")),
            (CPU2, name("is.compute.cpu")),
            (MEM2, name("is.compute.mem")),
            (BLOCK, name("is.storage.block")),
            (NAT, name("is.network.nat")),
        ]
    );
    assert_eq!(client.get_type(NAT), Some(name("is.network.nat")));
    assert_eq!(client.get_type(0x99), None);
}

#[test]
fn attach_records_the_owner() {
    let mut client = engine_with_machines();
    assert_eq!(client.attach_device(M1, BLOCK), Ok(DomainEdit::AttachBlock(BLOCK)));
    assert_eq!(client.attach_block(M1, BLOCK), Ok(DomainEdit::AttachBlock(BLOCK)));
    assert_eq!(client.attach_device(M1, NAT), Ok(DomainEdit::AttachNat));
    assert_eq!(client.attach_nat(M1, NAT), Ok(DomainEdit::AttachNat));
    assert_eq!(client.db().get_dev_attached(BLOCK), None);
    assert_eq!(
        client.commit_attach(M1, BLOCK),
        Ok(vec![RegistryWrite::SetDevAttached(BLOCK, M1)])
    );
    assert_eq!(client.db().get_dev_attached(BLOCK), Some(M1));
    assert_eq!(
        client.dev_list(M1),
        Some(vec![
            (CPU1, name("is.compute.cpu")),
            (MEM1, name("is.compute.mem")),
            (BLOCK, name("is.storage.block")),
        ])
    );
    assert_eq!(client.dev_list(M2).unwrap().len(), 2);
    assert!(is_consistent(client.db()));
}

#[test]
fn attach_twice_to_the_same_machine_is_a_conflict() {
    let mut client = engine_with_machines();
    client.commit_attach(M1, BLOCK).unwrap();
    let same = Err(EngineError::Conflict(Conflict::AttachedToThisMachine));
    assert_eq!(client.attach_device(M1, BLOCK), same);
    assert_eq!(
        client.commit_attach(M1, BLOCK),
        Err(EngineError::Conflict(Conflict::AttachedToThisMachine))
    );
    assert_eq!(client.db().get_dev_attached(BLOCK), Some(M1));
}

#[test]
fn attach_to_a_second_machine_is_a_conflict() {
    let mut client = engine_with_machines();
    client.commit_attach(M1, NAT).unwrap();
    assert_eq!(
        client.attach_device(M2, NAT),
        Err(EngineError::Conflict(Conflict::AttachedToOtherMachine))
    );
    assert_eq!(
        client.commit_attach(M2, NAT),
        Err(EngineError::Conflict(Conflict::AttachedToOtherMachine))
    );
    assert_eq!(client.attach_nat(M2, NAT), Err(EngineError::Conflict(Conflict::AttachedTo(M1))));
    assert_eq!(client.db().get_dev_attached(NAT), Some(M1));
}

#[test]
fn of_two_attachments_one_succeeds() {
    for (first, second) in [(M1, M2), (M2, M1)] {
        let mut client = engine_with_machines();
        let results = vec![client.commit_attach(first, BLOCK), client.commit_attach(second, BLOCK)];
        assert_eq!(results.iter().filter(|r| r.is_ok()).count(), 1);
        assert!(results[0].is_ok());
        assert!(matches!(results[1], Err(EngineError::Conflict(_))));
        assert_eq!(client.db().get_dev_attached(BLOCK), Some(first));
    }
}

#[test]
fn attach_of_what_is_not_there() {
    let mut client = engine_with_machines();
    let missing = Err(EngineError::NotFound(Missing::Device));
    assert_eq!(client.attach_device(M1, 0x99), missing);
    assert_eq!(client.attach_block(M1, 0x99), Err(EngineError::NotFound(Missing::Device)));
    assert_eq!(client.attach_nat(M1, 0x99), Err(EngineError::NotFound(Missing::Device)));
    assert_eq!(client.commit_attach(M1, 0x99), Err(EngineError::NotFound(Missing::Device)));
    assert_eq!(client.attach_block(M1, NAT), Err(NOT_BLOCK));
    assert_eq!(client.attach_nat(M1, BLOCK), Err(NOT_NAT));
}

#[test]
fn compute_devices_are_not_reassigned() {
    let mut client = engine_with_machines();
    let refused = Err(EngineError::Conflict(Conflict::ComputeDevice));
    assert_eq!(client.attach_device(M2, CPU1), refused);
    assert_eq!(client.attach_device(M1, MEM1), refused);
    assert_eq!(client.detach_device(M1, CPU1), refused);
    assert_eq!(client.detach_device(M1, MEM1), refused);
    assert_eq!(
        client.commit_attach(M2, CPU1),
        Err(EngineError::Conflict(Conflict::ComputeDevice))
    );
    assert_eq!(
        client.commit_detach(M1, CPU1),
        Err(EngineError::Conflict(Conflict::ComputeDevice))
    );
    assert_eq!(client.db().get_dev_attached(CPU1), Some(M1));
}

#[test]
fn detach_of_a_device_never_attached_fails() {
    let mut client = engine_with_machines();
    assert_eq!(
        client.detach_device(M1, BLOCK),
        Err(EngineError::Conflict(Conflict::NotAttached))
    );
    assert_eq!(client.detach_block(M1, BLOCK), Err(EngineError::Conflict(Conflict::NotAttached)));
    assert_eq!(client.detach_nat(M1, NAT), Err(EngineError::Conflict(Conflict::NotAttached)));
    assert_eq!(
        client.commit_detach(M1, BLOCK),
        Err(EngineError::Conflict(Conflict::NotAttached))
    );
    assert_eq!(client.detach_device(M1, 0x99), Err(EngineError::NotFound(Missing::Device)));
    assert_eq!(client.detach_block(M1, NAT), Err(NOT_BLOCK));
}

#[test]
fn detach_by_another_machine_names_the_owner() {
    let mut client = engine_with_machines();
    client.commit_attach(M1, BLOCK).unwrap();
    assert_eq!(
        client.detach_device(M2, BLOCK),
        Err(EngineError::Conflict(Conflict::AttachedTo(M1)))
    );
    assert_eq!(
        client.detach_block(M2, BLOCK),
        Err(EngineError::Conflict(Conflict::AttachedTo(M1)))
    );
    assert_eq!(
        client.commit_detach(M2, BLOCK),
        Err(EngineError::Conflict(Conflict::AttachedTo(M1)))
    );
    assert_eq!(client.db().get_dev_attached(BLOCK), Some(M1));
}

#[test]
fn detach_then_attach_again() {
    let mut client = engine_with_machines();
    client.commit_attach(M1, BLOCK).unwrap();
    assert_eq!(client.detach_device(M1, BLOCK), Ok(DomainEdit::DetachBlock(BLOCK)));
    assert_eq!(client.commit_detach(M1, BLOCK), Ok(vec![RegistryWrite::DelDevAttached(BLOCK)]));
    assert_eq!(client.db().get_dev_attached(BLOCK), None);
    assert_eq!(client.dev_list(M1).unwrap().len(), 2);
    assert_eq!(client.commit_attach(M2, BLOCK), Ok(vec![RegistryWrite::SetDevAttached(BLOCK, M2)]));
    assert_eq!(client.db().get_dev_attached(BLOCK), Some(M2));
    client.commit_attach(M2, NAT).unwrap();
    assert_eq!(client.detach_device(M2, NAT), Ok(DomainEdit::DetachNat));
    assert_eq!(client.detach_nat(M2, NAT), Ok(DomainEdit::DetachNat));
    assert!(is_consistent(client.db()));
}

#[test]
fn kinds_do_not_change() {
    let mut client = engine_with_machines();
    let before = client.all();
    client.commit_attach(M1, BLOCK).unwrap();
    client.commit_attach(M2, NAT).unwrap();
    client.commit_cpu_cores(CPU1, 8).unwrap();
    client.commit_mem_bytes(MEM2, 1 << 30).unwrap();
    client.commit_detach(M1, BLOCK).unwrap();
    client.commit_attach(M2, BLOCK).unwrap();
    let _ = client.commit_create_block(BLOCK, 1);
    let _ = client.register_nat(CPU1);
    let _ = client.register_machine(0x3000, BLOCK, NAT);
    assert_eq!(client.all(), before);
}

#[test]
fn cpu_cores_are_set() {
    let mut client = engine_with_machines();
    assert_eq!(client.set_cpu_cores(CPU1, 4), Ok((M1, DomainEdit::SetCpuCores(4))));
    assert_eq!(client.get_cpu_cores(CPU1), Some(1));
    assert_eq!(client.commit_cpu_cores(CPU1, 4), Ok(vec![RegistryWrite::SetDevCpu(CPU1, 4)]));
    assert_eq!(client.get_cpu_cores(CPU1), Some(4));
    assert_eq!(client.get_cpu_cores(CPU2), Some(1));
    assert_eq!(client.set_cpu_cores(CPU1, 0), Err(EngineError::Conflict(Conflict::ZeroCores)));
    assert_eq!(
        client.commit_cpu_cores(CPU1, 0),
        Err(EngineError::Conflict(Conflict::ZeroCores))
    );
    assert_eq!(client.set_cpu_cores(0x99, 2), Err(EngineError::NotFound(Missing::Device)));
    assert_eq!(client.set_cpu_cores(MEM1, 2), Err(NOT_CPU));
    assert_eq!(client.commit_cpu_cores(BLOCK, 2), Err(NOT_CPU));
    assert_eq!(client.get_cpu_cores(CPU1), Some(4));
}

#[test]
fn memory_size_is_set() {
    let mut client = engine_with_machines();
    assert_eq!(client.set_mem_bytes(MEM2, 1 << 32), Ok((M2, DomainEdit::SetMemBytes(1 << 32))));
    assert_eq!(client.commit_mem_bytes(MEM2, 1 << 32), Ok(vec![RegistryWrite::SetDevMem(MEM2, 1 << 32)]));
    assert_eq!(client.get_mem_bytes(MEM2), Some(1 << 32));
    assert_eq!(client.get_mem_bytes(MEM1), Some(134217728));
    assert_eq!(client.set_mem_bytes(MEM2, 0), Err(EngineError::Conflict(Conflict::ZeroBytes)));
    assert_eq!(client.set_mem_bytes(0x99, 0), Err(EngineError::Conflict(Conflict::ZeroBytes)));
    assert_eq!(client.set_mem_bytes(0x99, 2), Err(EngineError::NotFound(Missing::Device)));
    assert_eq!(client.set_mem_bytes(CPU2, 2), Err(NOT_MEM));
    assert_eq!(client.commit_mem_bytes(NAT, 2), Err(NOT_MEM));
}

#[test]
fn block_device_is_deleted_while_unowned_only() {
    let mut client = engine_with_machines();
    client.commit_attach(M1, BLOCK).unwrap();
    assert_eq!(client.delete_block(BLOCK), Err(EngineError::Conflict(Conflict::AttachedTo(M1))));
    assert_eq!(
        client.commit_delete_block(BLOCK),
        Err(EngineError::Conflict(Conflict::AttachedTo(M1)))
    );
    client.commit_detach(M1, BLOCK).unwrap();
    assert_eq!(
        client.delete_block(BLOCK),
        Ok(name("/srv/block/block_00000000-0000-0000-0000-000000000031.qcow2"))
    );
    assert_eq!(
        client.commit_delete_block(BLOCK),
        Ok(vec![RegistryWrite::DelDevType(BLOCK), RegistryWrite::DelDevBlockCap(BLOCK)])
    );
    assert_eq!(client.get_type(BLOCK), None);
    assert_eq!(client.get_block(BLOCK), None);
    assert_eq!(client.delete_block(BLOCK), Err(EngineError::NotFound(Missing::Device)));
    assert_eq!(client.delete_block(NAT), Err(NOT_BLOCK));
    assert_eq!(client.delete_block(CPU1), Err(NOT_BLOCK));
    assert!(is_consistent(client.db()));
}

#[test]
fn nat_device_is_created_and_deleted() {
    let mut client = engine_with_machines();
    let (device, written) = client.create_nat().unwrap();
    assert_eq!(
        written,
        vec![RegistryWrite::SetDevType(device, DeviceType::Network(NetworkDeviceType::Nat))]
    );
    assert_eq!(client.get_type(device), Some(name("is.network.nat")));
    client.commit_attach(M2, device).unwrap();
    assert_eq!(client.delete_nat(device), Err(EngineError::Conflict(Conflict::AttachedTo(M2))));
    client.commit_detach(M2, device).unwrap();
    assert_eq!(client.delete_nat(device), Ok(vec![RegistryWrite::DelDevType(device)]));
    assert_eq!(client.get_type(device), None);
    assert_eq!(client.delete_nat(device), Err(EngineError::NotFound(Missing::Device)));
    assert_eq!(client.delete_nat(BLOCK), Err(NOT_NAT));
    assert!(is_consistent(client.db()));
}

#[test]
fn destroy_asks_for_a_machine_that_is_off() {
    let mut client = engine_with_machines();
    let not_off = Err(EngineError::Conflict(Conflict::MachineNotOff));
    assert_eq!(client.destroy(M1, Some(MachineState::Running)), not_off);
    assert_eq!(
        client.destroy(M1, Some(MachineState::Suspended)),
        Err(EngineError::Conflict(Conflict::MachineNotOff))
    );
    assert_eq!(
        client.destroy(M1, Some(MachineState::Error)),
        Err(EngineError::Conflict(Conflict::MachineNotOff))
    );
    assert_eq!(
        client.commit_destroy(M1, Some(MachineState::Running)),
        Err(EngineError::Conflict(Conflict::MachineNotOff))
    );
    assert_eq!(client.destroy(M1, None), Err(EngineError::NotFound(Missing::Machine)));
    assert_eq!(client.commit_destroy(M1, None), Err(EngineError::NotFound(Missing::Machine)));
    assert_eq!(
        client.destroy(0x3000, Some(MachineState::Off)),
        Err(EngineError::NotFound(Missing::Machine))
    );
    assert_eq!(client.dev_list(M1).unwrap().len(), 2);
}

#[test]
fn destroy_detaches_first() {
    let mut client = engine_with_machines();
    client.commit_attach(M1, NAT).unwrap();
    client.commit_attach(M1, BLOCK).unwrap();
    assert_eq!(client.destroy(M1, Some(MachineState::Off)), Ok(vec![BLOCK, NAT]));
    assert_eq!(
        client.commit_destroy(M1, Some(MachineState::Off)),
        Err(EngineError::Conflict(Conflict::DevicesAttached))
    );
    client.commit_detach(M1, BLOCK).unwrap();
    client.commit_detach(M1, NAT).unwrap();
    assert_eq!(client.destroy(M1, Some(MachineState::Off)), Ok(vec![]));
    assert_eq!(
        client.commit_destroy(M1, Some(MachineState::Off)),
        Ok(vec![
            RegistryWrite::DelDevType(MEM1),
            RegistryWrite::DelDevAttached(MEM1),
            RegistryWrite::DelDevMem(MEM1),
            RegistryWrite::DelDevType(CPU1),
            RegistryWrite::DelDevAttached(CPU1),
            RegistryWrite::DelDevCpu(CPU1),
            RegistryWrite::DelKnownMachine(M1),
        ])
    );
    assert_eq!(client.dev_list(M1), None);
    assert_eq!(client.get_type(CPU1), None);
    assert_eq!(client.get_cpu(CPU1), None);
    assert_eq!(client.get_memory(MEM1), None);
    assert_eq!(client.dev_list(M2).unwrap().len(), 2);
    assert_eq!(client.get_type(BLOCK), Some(name("is.storage.block")));
    assert_eq!(client.db().get_dev_attached(BLOCK), None);
    assert!(is_consistent(client.db()));
}

#[test]
fn from_creation_to_destruction() {
    let mut client = engine();
    let (machine, descriptor) = Client::create();
    client.commit_create(machine).unwrap();
    let devices = client.dev_list(machine).unwrap();
    assert_eq!(devices.len(), 2);
    assert!(devices.iter().any(|d| d.1 == "is.compute.cpu"));
    assert!(devices.iter().any(|d| d.1 == "is.compute.mem"));

    let (block, path) = client.create_block();
    client.commit_create_block(block, 10_737_418_240).unwrap();
    assert_eq!(client.get_block(block), Some(BlockDevice { bytes: 10737418240 }));

    let change = client.attach_device(machine, block).unwrap();
    let descriptor = edit(Some(descriptor), change, "/srv/block").unwrap();
    assert_eq!(descriptor.devices.disks[1].source.as_ref().unwrap().file, Some(path));
    client.commit_attach(machine, block).unwrap();
    let devices = client.dev_list(machine).unwrap();
    assert_eq!(devices.len(), 3);
    assert!(devices.contains(&(block, name("is.storage.block"))));

    let running = Client::get_status(Some(1));
    assert_eq!(running, Some(MachineState::Running));
    assert_eq!(
        client.destroy(machine, running),
        Err(EngineError::Conflict(Conflict::MachineNotOff))
    );
    assert_eq!(Client::act_on(true, MachineAction::ForceShutdown), Some(LifecycleCall::DestroyGraceful));
    let off = Client::get_status(Some(5));
    assert_eq!(off, Some(MachineState::Off));
    let to_detach = client.destroy(machine, off).unwrap();
    assert_eq!(to_detach, vec![block]);
    let mut descriptor = descriptor;
    for device in to_detach {
        let change = client.detach_device(machine, device).unwrap();
        descriptor = edit(Some(descriptor), change, "/srv/block").unwrap();
        client.commit_detach(machine, device).unwrap();
    }
    assert_eq!(descriptor, default_domain(machine));
    client.commit_destroy(machine, off).unwrap();
    assert_eq!(client.dev_list(machine), None);
    assert_eq!(client.get_block(block), Some(BlockDevice { bytes: 10737418240 }));
    assert!(is_consistent(client.db()));
}

#[test]
fn actions_and_their_calls() {
    assert_eq!(Client::act_on(true, MachineAction::ForceShutdown), Some(LifecycleCall::DestroyGraceful));
    assert_eq!(Client::act_on(true, MachineAction::ForceReset), Some(LifecycleCall::Reset));
    assert_eq!(Client::act_on(true, MachineAction::Shutdown), Some(LifecycleCall::Shutdown));
    assert_eq!(Client::act_on(true, MachineAction::Suspend), Some(LifecycleCall::Suspend));
    assert_eq!(Client::act_on(true, MachineAction::Resume), Some(LifecycleCall::Resume));
    assert_eq!(Client::act_on(true, MachineAction::Boot), Some(LifecycleCall::Create));
    assert_eq!(Client::act_on(false, MachineAction::Boot), None);
    assert_eq!(Client::act_on(false, MachineAction::ForceShutdown), None);
}

#[test]
fn machines_among_the_domains_of_the_hypervisor() {
    let client = engine_with_machines();
    let domains = vec![
        id_to_string(M2),
        id_to_string(0x7777),
        "not a uuid".to_string(),
        id_to_string(M1),
        id_to_string(M2),
    ];
    assert_eq!(Client::list(&domains), vec![M2, 0x7777, M1, M2]);
    assert_eq!(client.find_domains(&domains), vec![M2, M1, M2]);
    assert_eq!(client.retain_known(&vec![1, M1, 2, M2, 3]), vec![M1, M2]);
    assert_eq!(client.find_domains(&vec![]), Vec::<u128>::new());
    assert_eq!(engine().find_domains(&domains), Vec::<u128>::new());
}

fn operation(seed: &mut u64) -> Operation {
    let mut draw = |n: u64| -> u128 {
        *seed = seed.wrapping_mul(6364136223846793005).wrapping_add(1442695040888963407);
        ((*seed >> 33) % n) as u128
    };
    let machine = 1 + draw(3);
    let device = 10 + draw(8);
    let other = 10 + draw(8);
    let status = match draw(3) {
        0 => None,
        1 => Some(MachineState::Running),
        _ => Some(MachineState::Off),
    };
    match draw(10) {
        0 => Operation::Create { machine, cpu: device, mem: other },
        1 => Operation::Destroy { machine, status },
        2 => Operation::Attach { machine, device },
        3 => Operation::Detach { machine, device },
        4 => Operation::SetCpuCores { device, cores: draw(3) as u64 },
        5 => Operation::SetMemBytes { device, bytes: draw(3) as u64 },
        6 => Operation::CreateBlock { device, bytes: draw(100) as u64 },
        7 => Operation::DeleteBlock { device },
        8 => Operation::CreateNat { device },
        _ => Operation::DeleteNat { device },
    }
}

#[test]
fn any_run_of_operations_keeps_the_registry_consistent() {
    let mut seed = 7u64;
    let mut made = 0;
    let mut client = engine();
    for _ in 0..4000 {
        let before = client.all();
        let op = operation(&mut seed);
        let done = client.commit(op);
        assert!(is_consistent(client.db()));
        let after = client.all();
        for (device, kind) in &after {
            if let Some(old) = before.iter().find(|d| d.0 == *device) {
                assert_eq!(&old.1, kind);
            }
        }
        for machine in client.db().all_known_machines() {
            let devices = client.dev_list(machine).unwrap();
            assert_eq!(devices.iter().filter(|d| d.1 == "is.compute.cpu").count(), 1);
            assert_eq!(devices.iter().filter(|d| d.1 == "is.compute.mem").count(), 1);
        }
        match done {
            Ok(writes) => {
                made += 1;
                assert!(!writes.is_empty());
            }
            Err(_) => assert_eq!(after, before),
        }
    }
    assert!(made > 100);
}

#[test]
fn writes_of_an_operation_rebuild_the_registry() {
    let mut seed = 99u64;
    let mut client = engine();
    let mut copy = istruct::client::db::ClientDB::new();
    for _ in 0..2000 {
        if let Ok(writes) = client.commit(operation(&mut seed)) {
            copy.apply_all(&writes);
        }
        assert_eq!(copy.all_dev_types(), client.db().all_dev_types());
        assert_eq!(copy.all_dev_attached(), client.db().all_dev_attached());
        assert_eq!(copy.all_dev_cpu(), client.db().all_dev_cpu());
        assert_eq!(copy.all_dev_mem(), client.db().all_dev_mem());
        assert_eq!(copy.all_dev_block_cap(), client.db().all_dev_block_cap());
        assert_eq!(copy.all_known_machines(), client.db().all_known_machines());
    }
    assert!(Client::restore(copy, "/srv/block".to_string()).is_ok());
}
