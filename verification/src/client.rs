//! The engine: registry, ownership protocol and machine life cycle.
//!
//! An operation that needs the hypervisor or a backing file comes in two calls.
//! The first decides, on the registry as it is, whether the operation may go
//! ahead and what has to be done outside; the second, made once that is done,
//! decides again and writes the registry. Each call that writes hands back the
//! writes it made, in their order, so that they can be made durable.

pub mod consistency;
pub mod db;
pub mod device_type;
pub mod disk_letter;
pub mod edit;
pub mod index;
pub mod laws;
pub mod machine;
pub mod nat_network;
pub mod rules;

use crate::api::{MachineAction, MachineState};
use crate::client::consistency::is_consistent;
use crate::client::db::{among, rises, ClientDB, Registry, RegistryWrite};
use crate::client::device_type::{
    ComputeDeviceType, DeviceType, NetworkDeviceType, StorageDeviceType,
};
use crate::client::edit::{block_path, DomainEdit};
use crate::text::{decimal, decimal_of_u64, string_of};
use crate::client::machine::{
    default_domain, is_default_domain, is_domain_state, lifecycle_call, machine_state,
    virt_domainstate_to_istruct, LifecycleCall,
};
use crate::client::laws::{
    lemma_attach_keeps, lemma_create_block_keeps, lemma_create_journal, lemma_create_keeps,
    lemma_create_nat_keeps, lemma_delete_block_keeps, lemma_delete_nat_keeps,
    lemma_destroy_journal, lemma_destroy_keeps, lemma_detach_keeps, lemma_set_cpu_keeps,
    lemma_set_mem_keeps,
};
use crate::client::rules::{
    block_kind, cpu_kind, create_journal, destroy_journal, kinds_stable, lemma_apply_all_one,
    lemma_apply_all_two, mem_kind, nat_kind, Operation, DEFAULT_CPU_CORES, DEFAULT_MEM_BYTES,
};
use crate::error::{Conflict, EngineError, Missing};
use crate::api::{BlockDevice, CpuDevice, MemoryDevice};
use crate::id::{parse_id, parsed_id, random_id, DeviceId, MachineId};
use crate::xml::domain::Domain;
use vstd::prelude::*;
use vstd::string::StringExecFns;

verus! {

/// The engine of the control plane: the registry, and the directory below
/// which the backing files of block devices lie.
pub struct Client {
    db: ClientDB,
    block_path_dir: String,
}

impl View for Client {
    type V = Registry;

    closed spec fn view(&self) -> Registry {
        self.db@
    }
}

/// Whether a list names the devices of a map of kinds: each device once, in
/// the order of the ids, with the name of its kind.
pub open spec fn names_kinds(list: Seq<(DeviceId, String)>, kinds: Map<DeviceId, DeviceType>) -> bool {
    &&& forall|i: int, j: int| 0 <= i < j < list.len() ==> list[i].0 < list[j].0
    &&& forall|i: int|
        0 <= i < list.len() ==> kinds.contains_key(#[trigger] list[i].0) && list[i].1@
            == kinds[list[i].0].wire()
    &&& forall|d: DeviceId|
        kinds.contains_key(d) ==> exists|i: int| 0 <= i < list.len() && #[trigger] list[i].0 == d
}

/// The kinds of the devices that a machine owns.
pub open spec fn owned_kinds(registry: Registry, machine: MachineId) -> Map<DeviceId, DeviceType> {
    Map::new(
        |d: DeviceId| registry.owns(machine, d) && registry.dev_type.contains_key(d),
        |d: DeviceId| registry.dev_type[d],
    )
}

/// The ids that a run of texts holds, in the order of the texts. A text that
/// is no id is passed over.
pub open spec fn parsed_ids(texts: Seq<String>) -> Seq<MachineId>
    decreases texts.len(),
{
    if texts.len() == 0 {
        Seq::empty()
    } else {
        match parsed_id(texts.last()@) {
            Some(id) => parsed_ids(texts.drop_last()).push(id),
            None => parsed_ids(texts.drop_last()),
        }
    }
}

/// The test that picks the known machines.
pub open spec fn is_known(registry: Registry) -> spec_fn(MachineId) -> bool {
    |m: MachineId| registry.known_machines.contains(m)
}

/// What a call that writes the registry leaves behind: a consistent registry,
/// one step further if the operation was allowed and as it was if not, with
/// every kind as it was, and the writes that were made.
pub open spec fn committed(
    before: Client,
    after: Client,
    op: Operation,
    done: Result<Vec<RegistryWrite>, EngineError>,
) -> bool {
    &&& after.inv()
    &&& after.block_dir() == before.block_dir()
    &&& after@ == before@.step(op)
    &&& kinds_stable(before@, after@)
    &&& match before@.journal(op) {
        Ok(writes) => done matches Ok(made) && made@ == writes,
        Err(e) => done == Err::<Vec<RegistryWrite>, EngineError>(e),
    }
}

impl Client {
    /// The directory below which the backing files of block devices lie.
    pub closed spec fn block_dir(&self) -> Seq<char> {
        self.block_path_dir@
    }

    /// The invariant of the engine: its registry is consistent.
    pub open spec fn inv(&self) -> bool {
        self@.consistent()
    }

    /// An engine with an empty registry.
    pub fn new(block_path_dir: String) -> (client: Client)
        ensures
            client@ == Registry::empty(),
            client.block_dir() == block_path_dir@,
            client.inv(),
    {
        Client { db: ClientDB::new(), block_path_dir }
    }

    /// An engine on a registry that was written earlier. A registry that is
    /// not consistent is refused as corrupt.
    pub fn restore(db: ClientDB, block_path_dir: String) -> (client: Result<Client, EngineError>)
        ensures
            match client {
                Ok(client) => db@.consistent() && client@ == db@ && client.block_dir()
                    == block_path_dir@ && client.inv(),
                Err(e) => !db@.consistent() && e == EngineError::Corruption,
            },
    {
        if is_consistent(&db) {
            Ok(Client { db, block_path_dir })
        } else {
            Err(EngineError::Corruption)
        }
    }

    /// The registry.
    pub fn db(&self) -> (db: &ClientDB)
        ensures
            db@ == self@,
    {
        &self.db
    }

    /// The path of the backing file of a block device.
    pub fn path_for_block_device(&self, dev: DeviceId) -> (path: String)
        ensures
            path@ == block_path(self.block_dir(), dev),
    {
        crate::client::edit::path_for_block_device(self.block_path_dir.as_str(), dev)
    }

    /// Edits the live descriptor of a machine. Where the hypervisor holds none
    /// for it, there is nothing to edit. The descriptor that comes back has to
    /// be handed to the hypervisor, which may reject it.
    pub fn edit(&self, live: Option<Domain>, change: DomainEdit) -> (edited: Result<
        Domain,
        EngineError,
    >)
        ensures
            match live {
                Some(before) => edited matches Ok(after) && change.turns(
                    self.block_dir(),
                    before,
                    after,
                ),
                None => edited == Err::<Domain, EngineError>(
                    EngineError::NotFound(Missing::Descriptor),
                ),
            },
    {
        crate::client::edit::edit(live, change, self.block_path_dir.as_str())
    }

    /// The arguments with which the disk image utility makes the backing file
    /// of a block device: a qcow2 image of `bytes` bytes at `path`.
    pub fn create_block_file(path: &str, bytes: u64) -> (arguments: Vec<String>)
        ensures
            arguments@.len() == 5,
            arguments@[0]@ == "create"@,
            arguments@[1]@ == "-f"@,
            arguments@[2]@ == "qcow2"@,
            arguments@[3]@ == path@,
            arguments@[4]@ == decimal(bytes as nat),
    {
        let mut arguments: Vec<String> = Vec::new();
        arguments.push(String::from_str("create"));
        arguments.push(String::from_str("-f"));
        arguments.push(String::from_str("qcow2"));
        arguments.push(String::from_str(path));
        let size = decimal_of_u64(bytes);
        arguments.push(string_of(&size));
        arguments
    }

    /// Whether a block device may be attached, and the edit that attaches it.
    pub fn attach_block(&self, machine: MachineId, device: DeviceId) -> (plan: Result<
        DomainEdit,
        EngineError,
    >)
        ensures
            plan == match self@.unowned_verdict(device, block_kind()) {
                Ok(()) => Ok::<DomainEdit, EngineError>(DomainEdit::AttachBlock(device)),
                Err(e) => Err(e),
            },
    {
        match self.db.get_dev_type(device) {
            None => Err(EngineError::NotFound(Missing::Device)),
            Some(DeviceType::Storage(StorageDeviceType::Block)) => match self.db.get_dev_attached(
                device,
            ) {
                Some(owner) => Err(EngineError::Conflict(Conflict::AttachedTo(owner))),
                None => Ok(DomainEdit::AttachBlock(device)),
            },
            Some(_) => Err(
                EngineError::Conflict(Conflict::WrongKind(DeviceType::Storage(StorageDeviceType::Block))),
            ),
        }
    }

    /// Whether a NAT device may be attached, and the edit that attaches it.
    pub fn attach_nat(&self, machine: MachineId, device: DeviceId) -> (plan: Result<
        DomainEdit,
        EngineError,
    >)
        ensures
            plan == match self@.unowned_verdict(device, nat_kind()) {
                Ok(()) => Ok::<DomainEdit, EngineError>(DomainEdit::AttachNat),
                Err(e) => Err(e),
            },
    {
        match self.db.get_dev_type(device) {
            None => Err(EngineError::NotFound(Missing::Device)),
            Some(DeviceType::Network(NetworkDeviceType::Nat)) => match self.db.get_dev_attached(
                device,
            ) {
                Some(owner) => Err(EngineError::Conflict(Conflict::AttachedTo(owner))),
                None => Ok(DomainEdit::AttachNat),
            },
            Some(_) => Err(
                EngineError::Conflict(Conflict::WrongKind(DeviceType::Network(NetworkDeviceType::Nat))),
            ),
        }
    }

    /// Whether a device may be attached to a machine, and the edit of the
    /// machine's descriptor that attaches it. Compute devices never change
    /// owner; a device that has an owner is not attached again.
    pub fn attach_device(&self, machine: MachineId, device: DeviceId) -> (plan: Result<
        DomainEdit,
        EngineError,
    >)
        ensures
            plan == self@.attach_verdict(machine, device),
    {
        let typ = match self.db.get_dev_type(device) {
            None => {
                return Err(EngineError::NotFound(Missing::Device));
            },
            Some(typ) => typ,
        };
        if let DeviceType::Compute(_) = typ {
            return Err(EngineError::Conflict(Conflict::ComputeDevice));
        }
        if let Some(attached_machine) = self.db.get_dev_attached(device) {
            if attached_machine == machine {
                return Err(EngineError::Conflict(Conflict::AttachedToThisMachine));
            } else {
                return Err(EngineError::Conflict(Conflict::AttachedToOtherMachine));
            }
        }
        match typ {
            DeviceType::Storage(StorageDeviceType::Block) => self.attach_block(machine, device),
            _ => self.attach_nat(machine, device),
        }
    }

    /// Records that a device has been attached: the machine becomes its owner.
    /// To be called once the edit that `attach_device` gave has been accepted.
    pub fn commit_attach(&mut self, machine: MachineId, device: DeviceId) -> (done: Result<
        Vec<RegistryWrite>,
        EngineError,
    >)
        requires
            old(self).inv(),
        ensures
            committed(*old(self), *final(self), Operation::Attach { machine, device }, done),
    {
        match self.attach_device(machine, device) {
            Err(e) => Err(e),
            Ok(_) => {
                let write = RegistryWrite::SetDevAttached(device, machine);
                proof {
                    lemma_attach_keeps(self@, machine, device);
                    lemma_apply_all_one(self@, write);
                }
                self.db.apply(write);
                let made = vec![write];
                assert(made@ == seq![write]);
                Ok(made)
            },
        }
    }

    /// Whether a block device may be detached from a machine, and the edit that
    /// detaches it.
    pub fn detach_block(&self, machine: MachineId, device: DeviceId) -> (plan: Result<
        DomainEdit,
        EngineError,
    >)
        ensures
            plan == match self@.owned_verdict(machine, device, block_kind()) {
                Ok(()) => Ok::<DomainEdit, EngineError>(DomainEdit::DetachBlock(device)),
                Err(e) => Err(e),
            },
    {
        match self.db.get_dev_type(device) {
            None => Err(EngineError::NotFound(Missing::Device)),
            Some(DeviceType::Storage(StorageDeviceType::Block)) => match self.db.get_dev_attached(
                device,
            ) {
                None => Err(EngineError::Conflict(Conflict::NotAttached)),
                Some(owner) => if owner != machine {
                    Err(EngineError::Conflict(Conflict::AttachedTo(owner)))
                } else {
                    Ok(DomainEdit::DetachBlock(device))
                },
            },
            Some(_) => Err(
                EngineError::Conflict(Conflict::WrongKind(DeviceType::Storage(StorageDeviceType::Block))),
            ),
        }
    }

    /// Whether a NAT device may be detached from a machine, and the edit that
    /// detaches it.
    pub fn detach_nat(&self, machine: MachineId, device: DeviceId) -> (plan: Result<
        DomainEdit,
        EngineError,
    >)
        ensures
            plan == match self@.owned_verdict(machine, device, nat_kind()) {
                Ok(()) => Ok::<DomainEdit, EngineError>(DomainEdit::DetachNat),
                Err(e) => Err(e),
            },
    {
        match self.db.get_dev_type(device) {
            None => Err(EngineError::NotFound(Missing::Device)),
            Some(DeviceType::Network(NetworkDeviceType::Nat)) => match self.db.get_dev_attached(
                device,
            ) {
                None => Err(EngineError::Conflict(Conflict::NotAttached)),
                Some(owner) => if owner != machine {
                    Err(EngineError::Conflict(Conflict::AttachedTo(owner)))
                } else {
                    Ok(DomainEdit::DetachNat)
                },
            },
            Some(_) => Err(
                EngineError::Conflict(Conflict::WrongKind(DeviceType::Network(NetworkDeviceType::Nat))),
            ),
        }
    }

    /// Whether a device may be detached from a machine, and the edit of the
    /// machine's descriptor that detaches it. Only the owner lets a device go.
    pub fn detach_device(&self, machine: MachineId, device: DeviceId) -> (plan: Result<
        DomainEdit,
        EngineError,
    >)
        ensures
            plan == self@.detach_verdict(machine, device),
    {
        let typ = match self.db.get_dev_type(device) {
            None => {
                return Err(EngineError::NotFound(Missing::Device));
            },
            Some(typ) => typ,
        };
        if let DeviceType::Compute(_) = typ {
            return Err(EngineError::Conflict(Conflict::ComputeDevice));
        }
        match self.db.get_dev_attached(device) {
            Some(attached_machine) => {
                if attached_machine != machine {
                    return Err(EngineError::Conflict(Conflict::AttachedTo(attached_machine)));
                }
            },
            None => {
                return Err(EngineError::Conflict(Conflict::NotAttached));
            },
        }
        match typ {
            DeviceType::Storage(StorageDeviceType::Block) => self.detach_block(machine, device),
            _ => self.detach_nat(machine, device),
        }
    }

    /// Records that a device has been detached: it has no owner any more. To be
    /// called once the edit that `detach_device` gave has been accepted.
    pub fn commit_detach(&mut self, machine: MachineId, device: DeviceId) -> (done: Result<
        Vec<RegistryWrite>,
        EngineError,
    >)
        requires
            old(self).inv(),
        ensures
            committed(*old(self), *final(self), Operation::Detach { machine, device }, done),
    {
        match self.detach_device(machine, device) {
            Err(e) => Err(e),
            Ok(_) => {
                let write = RegistryWrite::DelDevAttached(device);
                proof {
                    lemma_detach_keeps(self@, machine, device);
                    lemma_apply_all_one(self@, write);
                }
                self.db.apply(write);
                let made = vec![write];
                assert(made@ == seq![write]);
                Ok(made)
            },
        }
    }

    /// Whether the core count of a CPU device may be set, the machine whose
    /// descriptor has to be edited, and the edit.
    pub fn set_cpu_cores(&self, dev: DeviceId, cores: u64) -> (plan: Result<
        (MachineId, DomainEdit),
        EngineError,
    >)
        ensures
            plan == match self@.resize_verdict(dev, cpu_kind(), cores) {
                Ok(machine) => Ok::<(MachineId, DomainEdit), EngineError>(
                    (machine, DomainEdit::SetCpuCores(cores)),
                ),
                Err(e) => Err(e),
            },
    {
        if cores == 0 {
            return Err(EngineError::Conflict(Conflict::ZeroCores));
        }
        match self.db.get_dev_type(dev) {
            None => Err(EngineError::NotFound(Missing::Device)),
            Some(DeviceType::Compute(ComputeDeviceType::Cpu)) => match self.db.get_dev_attached(dev) {
                Some(machine) => Ok((machine, DomainEdit::SetCpuCores(cores))),
                None => Err(EngineError::NotFound(Missing::Machine)),
            },
            Some(_) => Err(
                EngineError::Conflict(Conflict::WrongKind(DeviceType::Compute(ComputeDeviceType::Cpu))),
            ),
        }
    }

    /// Records the new core count of a CPU device. To be called once the edit
    /// that `set_cpu_cores` gave has been accepted.
    pub fn commit_cpu_cores(&mut self, dev: DeviceId, cores: u64) -> (done: Result<
        Vec<RegistryWrite>,
        EngineError,
    >)
        requires
            old(self).inv(),
        ensures
            committed(*old(self), *final(self), Operation::SetCpuCores { device: dev, cores }, done),
    {
        match self.set_cpu_cores(dev, cores) {
            Err(e) => Err(e),
            Ok(_) => {
                let write = RegistryWrite::SetDevCpu(dev, cores);
                proof {
                    lemma_set_cpu_keeps(self@, dev, cores);
                    lemma_apply_all_one(self@, write);
                }
                self.db.apply(write);
                let made = vec![write];
                assert(made@ == seq![write]);
                Ok(made)
            },
        }
    }

    /// The core count of a CPU device.
    pub fn get_cpu_cores(&self, dev: DeviceId) -> (cores: Option<u64>)
        ensures
            cores == if self@.dev_cpu.contains_key(dev) {
                Some(self@.dev_cpu[dev])
            } else {
                None
            },
    {
        self.db.get_dev_cpu(dev)
    }

    /// Whether the size of a memory device may be set, the machine whose
    /// descriptor has to be edited, and the edit.
    pub fn set_mem_bytes(&self, dev: DeviceId, bytes: u64) -> (plan: Result<
        (MachineId, DomainEdit),
        EngineError,
    >)
        ensures
            plan == match self@.resize_verdict(dev, mem_kind(), bytes) {
                Ok(machine) => Ok::<(MachineId, DomainEdit), EngineError>(
                    (machine, DomainEdit::SetMemBytes(bytes)),
                ),
                Err(e) => Err(e),
            },
    {
        if bytes == 0 {
            return Err(EngineError::Conflict(Conflict::ZeroBytes));
        }
        match self.db.get_dev_type(dev) {
            None => Err(EngineError::NotFound(Missing::Device)),
            Some(DeviceType::Compute(ComputeDeviceType::Mem)) => match self.db.get_dev_attached(dev) {
                Some(machine) => Ok((machine, DomainEdit::SetMemBytes(bytes))),
                None => Err(EngineError::NotFound(Missing::Machine)),
            },
            Some(_) => Err(
                EngineError::Conflict(Conflict::WrongKind(DeviceType::Compute(ComputeDeviceType::Mem))),
            ),
        }
    }

    /// Records the new size of a memory device. To be called once the edit that
    /// `set_mem_bytes` gave has been accepted.
    pub fn commit_mem_bytes(&mut self, dev: DeviceId, bytes: u64) -> (done: Result<
        Vec<RegistryWrite>,
        EngineError,
    >)
        requires
            old(self).inv(),
        ensures
            committed(*old(self), *final(self), Operation::SetMemBytes { device: dev, bytes }, done),
    {
        match self.set_mem_bytes(dev, bytes) {
            Err(e) => Err(e),
            Ok(_) => {
                let write = RegistryWrite::SetDevMem(dev, bytes);
                proof {
                    lemma_set_mem_keeps(self@, dev, bytes);
                    lemma_apply_all_one(self@, write);
                }
                self.db.apply(write);
                let made = vec![write];
                assert(made@ == seq![write]);
                Ok(made)
            },
        }
    }

    /// The size in bytes of a memory device.
    pub fn get_mem_bytes(&self, dev: DeviceId) -> (bytes: Option<u64>)
        ensures
            bytes == if self@.dev_mem.contains_key(dev) {
                Some(self@.dev_mem[dev])
            } else {
                None
            },
    {
        self.db.get_dev_mem(dev)
    }

    /// Draws an id for a new block device, and says where its backing file has
    /// to be made.
    pub fn create_block(&self) -> (new: (DeviceId, String))
        ensures
            new.1@ == block_path(self.block_dir(), new.0),
    {
        let device = random_id();
        let path = self.path_for_block_device(device);
        (device, path)
    }

    /// Registers a block device of `bytes` bytes under the id `device`, which
    /// must not be in use. To be called once the backing file has been made.
    pub fn commit_create_block(&mut self, device: DeviceId, bytes: u64) -> (done: Result<
        Vec<RegistryWrite>,
        EngineError,
    >)
        requires
            old(self).inv(),
        ensures
            committed(*old(self), *final(self), Operation::CreateBlock { device, bytes }, done),
    {
        if self.db.get_dev_type(device).is_some() {
            return Err(EngineError::Conflict(Conflict::IdInUse));
        }
        let first = RegistryWrite::SetDevType(device, DeviceType::Storage(StorageDeviceType::Block));
        let second = RegistryWrite::SetDevBlockCap(device, bytes);
        proof {
            lemma_create_block_keeps(self@, device, bytes);
            lemma_apply_all_two(self@, first, second);
        }
        self.db.apply(first);
        self.db.apply(second);
        let made = vec![first, second];
        assert(made@ == seq![first, second]);
        Ok(made)
    }

    /// Whether a block device may be deleted, and the path of the backing file
    /// that has to be removed. A device that has an owner is not deleted.
    pub fn delete_block(&self, device: DeviceId) -> (plan: Result<String, EngineError>)
        ensures
            match self@.unowned_verdict(device, block_kind()) {
                Ok(()) => plan matches Ok(path) && path@ == block_path(self.block_dir(), device),
                Err(e) => plan == Err::<String, EngineError>(e),
            },
    {
        match self.db.get_dev_type(device) {
            None => Err(EngineError::NotFound(Missing::Device)),
            Some(DeviceType::Storage(StorageDeviceType::Block)) => match self.db.get_dev_attached(
                device,
            ) {
                Some(owner) => Err(EngineError::Conflict(Conflict::AttachedTo(owner))),
                None => Ok(self.path_for_block_device(device)),
            },
            Some(_) => Err(
                EngineError::Conflict(Conflict::WrongKind(DeviceType::Storage(StorageDeviceType::Block))),
            ),
        }
    }

    /// Takes a block device out of the registry. To be called once its backing
    /// file has been removed.
    pub fn commit_delete_block(&mut self, device: DeviceId) -> (done: Result<
        Vec<RegistryWrite>,
        EngineError,
    >)
        requires
            old(self).inv(),
        ensures
            committed(*old(self), *final(self), Operation::DeleteBlock { device }, done),
    {
        match self.delete_block(device) {
            Err(e) => Err(e),
            Ok(_) => {
                let first = RegistryWrite::DelDevType(device);
                let second = RegistryWrite::DelDevBlockCap(device);
                proof {
                    lemma_delete_block_keeps(self@, device);
                    lemma_apply_all_two(self@, first, second);
                }
                self.db.apply(first);
                self.db.apply(second);
                let made = vec![first, second];
                assert(made@ == seq![first, second]);
                Ok(made)
            },
        }
    }

    /// The capacity in bytes of a block device.
    pub fn get_block_bytes(&self, device: DeviceId) -> (bytes: Option<u64>)
        ensures
            bytes == if self@.dev_block_cap.contains_key(device) {
                Some(self@.dev_block_cap[device])
            } else {
                None
            },
    {
        self.db.get_dev_block_cap(device)
    }

    /// Registers a NAT device under the id `device`, which must not be in use.
    pub fn register_nat(&mut self, device: DeviceId) -> (done: Result<
        Vec<RegistryWrite>,
        EngineError,
    >)
        requires
            old(self).inv(),
        ensures
            committed(*old(self), *final(self), Operation::CreateNat { device }, done),
    {
        if self.db.get_dev_type(device).is_some() {
            return Err(EngineError::Conflict(Conflict::IdInUse));
        }
        let write = RegistryWrite::SetDevType(device, DeviceType::Network(NetworkDeviceType::Nat));
        proof {
            lemma_create_nat_keeps(self@, device);
            lemma_apply_all_one(self@, write);
        }
        self.db.apply(write);
        let made = vec![write];
        assert(made@ == seq![write]);
        Ok(made)
    }

    /// Registers a NAT device under an id drawn for it. The shared NAT network
    /// has to exist by now. Fails, and changes nothing, if the id drawn is in
    /// use.
    pub fn create_nat(&mut self) -> (done: Result<(DeviceId, Vec<RegistryWrite>), EngineError>)
        requires
            old(self).inv(),
        ensures
            match done {
                Ok((device, made)) => committed(
                    *old(self),
                    *final(self),
                    Operation::CreateNat { device },
                    Ok(made),
                ),
                Err(e) => e == EngineError::Conflict(Conflict::IdInUse) && final(self)@ == old(
                    self,
                )@ && final(self).block_dir() == old(self).block_dir() && final(self).inv(),
            },
    {
        let device = random_id();
        match self.register_nat(device) {
            Ok(made) => Ok((device, made)),
            Err(e) => Err(e),
        }
    }

    /// Takes a NAT device out of the registry. A device that has an owner is
    /// not deleted.
    pub fn delete_nat(&mut self, device: DeviceId) -> (done: Result<
        Vec<RegistryWrite>,
        EngineError,
    >)
        requires
            old(self).inv(),
        ensures
            committed(*old(self), *final(self), Operation::DeleteNat { device }, done),
    {
        match self.db.get_dev_type(device) {
            None => Err(EngineError::NotFound(Missing::Device)),
            Some(DeviceType::Network(NetworkDeviceType::Nat)) => match self.db.get_dev_attached(
                device,
            ) {
                Some(owner) => Err(EngineError::Conflict(Conflict::AttachedTo(owner))),
                None => {
                    let write = RegistryWrite::DelDevType(device);
                    proof {
                        lemma_delete_nat_keeps(self@, device);
                        lemma_apply_all_one(self@, write);
                    }
                    self.db.apply(write);
                    let made = vec![write];
                    assert(made@ == seq![write]);
                    Ok(made)
                },
            },
            Some(_) => Err(
                EngineError::Conflict(Conflict::WrongKind(DeviceType::Network(NetworkDeviceType::Nat))),
            ),
        }
    }

    /// Draws an id for a new machine and writes its descriptor, which has to be
    /// defined before the machine is registered.
    pub fn create() -> (new: (MachineId, Domain))
        ensures
            is_default_domain(new.1, new.0),
    {
        let machine = random_id();
        (machine, default_domain(machine))
    }

    /// Registers a machine with its CPU device and its memory device, under
    /// ids that must not be in use. The machine is known from then on and owns
    /// the two devices, and nothing else.
    pub fn register_machine(&mut self, machine: MachineId, cpu: DeviceId, mem: DeviceId) -> (done:
        Result<Vec<RegistryWrite>, EngineError>)
        requires
            old(self).inv(),
        ensures
            committed(*old(self), *final(self), Operation::Create { machine, cpu, mem }, done),
    {
        let owned = self.db.get_dev_attached_to(machine);
        proof {
            if owned.len() > 0 {
                assert(owned@.contains(owned[0]));
                assert(self@.owns(machine, owned[0]));
            } else {
                assert forall|d: DeviceId| !self@.owns(machine, d) by {
                    if self@.owns(machine, d) {
                        assert(owned@.contains(d));
                    }
                }
            }
        }
        if self.db.is_known_machine(machine) || owned.len() > 0 || self.db.get_dev_type(
            cpu,
        ).is_some() || self.db.get_dev_type(mem).is_some() || cpu == mem {
            return Err(EngineError::Conflict(Conflict::IdInUse));
        }
        let made = vec![
            RegistryWrite::SetDevType(mem, DeviceType::Compute(ComputeDeviceType::Mem)),
            RegistryWrite::SetDevAttached(mem, machine),
            RegistryWrite::SetDevMem(mem, DEFAULT_MEM_BYTES),
            RegistryWrite::SetDevType(cpu, DeviceType::Compute(ComputeDeviceType::Cpu)),
            RegistryWrite::SetDevAttached(cpu, machine),
            RegistryWrite::SetDevCpu(cpu, DEFAULT_CPU_CORES),
            RegistryWrite::SetKnownMachine(machine),
        ];
        proof {
            assert(made@ == create_journal(machine, cpu, mem));
            lemma_create_journal(self@, machine, cpu, mem);
            lemma_create_keeps(self@, machine, cpu, mem);
        }
        self.db.apply_all(&made);
        Ok(made)
    }

    /// Registers a machine whose descriptor has been defined, with a CPU device
    /// and a memory device under ids drawn for them. Fails, and changes nothing,
    /// if one of the ids is in use.
    pub fn commit_create(&mut self, machine: MachineId) -> (done: Result<
        Vec<RegistryWrite>,
        EngineError,
    >)
        requires
            old(self).inv(),
        ensures
            match done {
                Ok(made) => exists|cpu: DeviceId, mem: DeviceId|
                    committed(
                        *old(self),
                        *final(self),
                        Operation::Create { machine, cpu, mem },
                        Ok(made),
                    ),
                Err(e) => e == EngineError::Conflict(Conflict::IdInUse) && final(self)@ == old(
                    self,
                )@ && final(self).block_dir() == old(self).block_dir() && final(self).inv(),
            },
    {
        let mem = random_id();
        let cpu = random_id();
        match self.register_machine(machine, cpu, mem) {
            Ok(made) => {
                assert(committed(
                    *old(self),
                    *self,
                    Operation::Create { machine, cpu, mem },
                    Ok(made),
                ));
                Ok(made)
            },
            Err(e) => Err(e),
        }
    }

    /// Whether a machine may be destroyed, and the devices that have to be
    /// detached from it first: all that it owns but its compute devices, in the
    /// order of their ids. `status` is the state that the hypervisor gives for
    /// the machine; only a machine that is off is destroyed.
    pub fn destroy(&self, machine: MachineId, status: Option<MachineState>) -> (plan: Result<
        Vec<DeviceId>,
        EngineError,
    >)
        ensures
            match self@.destroy_verdict(machine, status) {
                Ok(()) => plan matches Ok(devices) && rises(devices@) && forall|d: DeviceId|
                    devices@.contains(d) <==> self@.is_attachment(machine, d),
                Err(e) => plan == Err::<Vec<DeviceId>, EngineError>(e),
            },
    {
        match status {
            None => {
                return Err(EngineError::NotFound(Missing::Machine));
            },
            Some(MachineState::Off) => {},
            Some(_) => {
                return Err(EngineError::Conflict(Conflict::MachineNotOff));
            },
        }
        if !self.db.is_known_machine(machine) {
            return Err(EngineError::NotFound(Missing::Machine));
        }
        let owned = self.db.get_dev_attached_to(machine);
        let mut devices: Vec<DeviceId> = Vec::new();
        let mut i: usize = 0;
        while i < owned.len()
            invariant
                i <= owned.len(),
                rises(owned@),
                rises(devices@),
                forall|d: DeviceId| owned@.contains(d) <==> self@.owns(machine, d),
                forall|j: int|
                    0 <= j < devices.len() ==> among(owned@, i as int, #[trigger] devices[j])
                        && self@.is_attachment(machine, devices[j]),
                forall|k: int|
                    0 <= k < i && self@.is_attachment(machine, #[trigger] owned[k])
                        ==> devices@.contains(owned[k]),
            decreases owned.len() - i,
        {
            let d = owned[i];
            assert(owned@.contains(d));
            let attachment = match self.db.get_dev_type(d) {
                Some(DeviceType::Compute(_)) => false,
                Some(_) => true,
                None => false,
            };
            if attachment {
                let ghost before = devices@;
                assert forall|j: int| 0 <= j < before.len() implies d > before[j] by {
                    let k = choose|k: int| 0 <= k < i && #[trigger] owned[k] == before[j];
                    assert(owned[k] < owned[i as int]);
                }
                devices.push(d);
                assert(forall|j: int| 0 <= j < before.len() ==> devices[j] == before[j]);
                assert(devices[before.len() as int] == d);
                assert forall|k: int|
                    0 <= k < i + 1 && self@.is_attachment(
                        machine,
                        #[trigger] owned[k],
                    ) implies devices@.contains(owned[k]) by {
                    if k < i {
                        assert(before.contains(owned[k]));
                        let j = choose|j: int| 0 <= j < before.len() && before[j] == owned[k];
                        assert(devices[j] == owned[k]);
                    }
                }
            }
            assert forall|j: int| 0 <= j < devices.len() implies among(
                owned@,
                i + 1,
                #[trigger] devices[j],
            ) by {
                if among(owned@, i as int, devices[j]) {
                    let k = choose|k: int| 0 <= k < i && #[trigger] owned[k] == devices[j];
                    assert(owned[k] == devices[j]);
                } else {
                    assert(owned[i as int] == devices[j]);
                }
            }
            i += 1;
        }
        proof {
            assert forall|d: DeviceId| devices@.contains(d) implies self@.is_attachment(
                machine,
                d,
            ) by {
                let j = choose|j: int| 0 <= j < devices.len() && devices[j] == d;
                assert(self@.is_attachment(machine, devices[j]));
            }
            assert forall|d: DeviceId| self@.is_attachment(machine, d) implies devices@.contains(
                d,
            ) by {
                assert(owned@.contains(d));
                let k = choose|k: int| 0 <= k < owned.len() && owned[k] == d;
                assert(devices@.contains(owned[k]));
            }
        }
        Ok(devices)
    }

    /// Takes a machine out of the registry, with its CPU device and its memory
    /// device. To be called once the devices that `destroy` gave have been
    /// detached and the hypervisor has forgotten the domain. A machine that
    /// still owns another device is left as it is.
    pub fn commit_destroy(&mut self, machine: MachineId, status: Option<MachineState>) -> (done:
        Result<Vec<RegistryWrite>, EngineError>)
        requires
            old(self).inv(),
        ensures
            committed(*old(self), *final(self), Operation::Destroy { machine, status }, done),
    {
        match self.destroy(machine, status) {
            Err(e) => {
                return Err(e);
            },
            Ok(attachments) => {
                if attachments.len() > 0 {
                    proof {
                        assert(attachments@.contains(attachments[0]));
                        assert(self@.is_attachment(machine, attachments[0]));
                    }
                    return Err(EngineError::Conflict(Conflict::DevicesAttached));
                }
                proof {
                    assert forall|d: DeviceId| !self@.is_attachment(machine, d) by {
                        if self@.is_attachment(machine, d) {
                            assert(attachments@.contains(d));
                        }
                    }
                }
            },
        }
        let owned = self.db.get_dev_attached_to(machine);
        let mut cpu: Option<DeviceId> = None;
        let mut mem: Option<DeviceId> = None;
        let mut i: usize = 0;
        while i < owned.len()
            invariant
                i <= owned.len(),
                forall|d: DeviceId| owned@.contains(d) <==> self@.owns(machine, d),
                cpu matches Some(c) ==> self@.owns_kind(machine, c, cpu_kind()),
                mem matches Some(c) ==> self@.owns_kind(machine, c, mem_kind()),
                cpu is None ==> forall|k: int|
                    0 <= k < i ==> !self@.owns_kind(machine, #[trigger] owned[k], cpu_kind()),
                mem is None ==> forall|k: int|
                    0 <= k < i ==> !self@.owns_kind(machine, #[trigger] owned[k], mem_kind()),
            decreases owned.len() - i,
        {
            let d = owned[i];
            assert(owned@.contains(d));
            match self.db.get_dev_type(d) {
                Some(DeviceType::Compute(ComputeDeviceType::Cpu)) => {
                    cpu = Some(d);
                },
                Some(DeviceType::Compute(ComputeDeviceType::Mem)) => {
                    mem = Some(d);
                },
                _ => {},
            }
            i += 1;
        }
        proof {
            let c = self@.the(machine, cpu_kind());
            let m = self@.the(machine, mem_kind());
            assert(self@.known_machines.contains(machine));
            assert(self@.sole(machine, cpu_kind(), c));
            assert(self@.sole(machine, mem_kind(), m));
            assert(self@.owns_kind(machine, c, cpu_kind()));
            assert(self@.owns_kind(machine, m, mem_kind()));
            assert(owned@.contains(c));
            assert(owned@.contains(m));
            let kc = choose|k: int| 0 <= k < owned.len() && owned[k] == c;
            assert(self@.owns_kind(machine, owned[kc], cpu_kind()));
            let km = choose|k: int| 0 <= k < owned.len() && owned[k] == m;
            assert(self@.owns_kind(machine, owned[km], mem_kind()));
            assert(cpu == Some(c));
            assert(mem == Some(m));
        }
        match (cpu, mem) {
            (Some(cpu), Some(mem)) => {
                let made = vec![
                    RegistryWrite::DelDevType(mem),
                    RegistryWrite::DelDevAttached(mem),
                    RegistryWrite::DelDevMem(mem),
                    RegistryWrite::DelDevType(cpu),
                    RegistryWrite::DelDevAttached(cpu),
                    RegistryWrite::DelDevCpu(cpu),
                    RegistryWrite::DelKnownMachine(machine),
                ];
                proof {
                    assert(made@ == destroy_journal(machine, cpu, mem));
                    lemma_destroy_journal(self@, machine, cpu, mem);
                    lemma_destroy_keeps(self@, machine, status);
                }
                self.db.apply_all(&made);
                Ok(made)
            },
            _ => Err(EngineError::Corruption),
        }
    }

    /// The name of the kind of a device.
    pub fn get_type(&self, dev: DeviceId) -> (name: Option<String>)
        ensures
            match self@.kind(dev) {
                Some(kind) => name matches Some(text) && text@ == kind.wire(),
                None => name is None,
            },
    {
        match self.db.get_dev_type(dev) {
            Some(kind) => Some(kind.to_string()),
            None => None,
        }
    }

    /// Every device with the name of its kind, in the order of the ids.
    pub fn all(&self) -> (list: Vec<(DeviceId, String)>)
        ensures
            names_kinds(list@, self@.dev_type),
    {
        let kinds = self.db.all_dev_types();
        let mut list: Vec<(DeviceId, String)> = Vec::new();
        let mut i: usize = 0;
        while i < kinds.len()
            invariant
                i <= kinds.len(),
                list.len() == i,
                forall|j: int|
                    0 <= j < i ==> (#[trigger] list[j]).0 == kinds[j].0 && list[j].1@
                        == kinds[j].1.wire(),
            decreases kinds.len() - i,
        {
            let (d, kind) = kinds[i];
            list.push((d, kind.to_string()));
            i += 1;
        }
        proof {
            assert forall|d: DeviceId| self@.dev_type.contains_key(d) implies exists|i: int|
                0 <= i < list.len() && #[trigger] list[i].0 == d by {
                let k = choose|k: int| 0 <= k < kinds.len() && #[trigger] kinds[k].0 == d;
                assert(list[k].0 == d);
            }
            assert forall|i: int| 0 <= i < list.len() implies self@.dev_type.contains_key(
                #[trigger] list[i].0,
            ) && list[i].1@ == self@.dev_type[list[i].0].wire() by {
                assert(self@.dev_type.contains_key(kinds[i].0));
            }
        }
        list
    }

    /// The devices that a machine owns, each with the name of its kind, in the
    /// order of the ids. Nothing for a machine that is not known.
    pub fn dev_list(&self, machine: MachineId) -> (devices: Option<Vec<(DeviceId, String)>>)
        ensures
            match devices {
                Some(list) => self@.known_machines.contains(machine) && names_kinds(
                    list@,
                    owned_kinds(self@, machine),
                ),
                None => !self@.known_machines.contains(machine),
            },
    {
        if !self.db.is_known_machine(machine) {
            return None;
        }
        let owned = self.db.get_dev_attached_to(machine);
        let ghost kinds = owned_kinds(self@, machine);
        let mut list: Vec<(DeviceId, String)> = Vec::new();
        let mut i: usize = 0;
        while i < owned.len()
            invariant
                i <= owned.len(),
                rises(owned@),
                kinds == owned_kinds(self@, machine),
                forall|d: DeviceId| owned@.contains(d) <==> self@.owns(machine, d),
                forall|a: int, b: int| 0 <= a < b < list.len() ==> list[a].0 < list[b].0,
                forall|j: int|
                    0 <= j < list.len() ==> among(owned@, i as int, (#[trigger] list[j]).0)
                        && kinds.contains_key(list[j].0) && list[j].1@ == kinds[list[j].0].wire(),
                forall|k: int|
                    0 <= k < i && kinds.contains_key(#[trigger] owned[k]) ==> exists|j: int|
                        0 <= j < list.len() && #[trigger] list[j].0 == owned[k],
            decreases owned.len() - i,
        {
            let d = owned[i];
            assert(owned@.contains(d));
            let ghost before = list@;
            match self.db.get_dev_type(d) {
                Some(kind) => {
                    assert forall|j: int| 0 <= j < before.len() implies d > before[j].0 by {
                        let k = choose|k: int| 0 <= k < i && #[trigger] owned[k] == before[j].0;
                        assert(owned[k] < owned[i as int]);
                    }
                    list.push((d, kind.to_string()));
                    assert(forall|j: int| 0 <= j < before.len() ==> list[j] == before[j]);
                    assert(list[before.len() as int].0 == d);
                    assert forall|k: int|
                        0 <= k < i + 1 && kinds.contains_key(#[trigger] owned[k]) implies exists|
                        j: int,
                    | 0 <= j < list.len() && #[trigger] list[j].0 == owned[k] by {
                        if k < i {
                            let j = choose|j: int|
                                0 <= j < before.len() && #[trigger] before[j].0 == owned[k];
                            assert(list[j].0 == owned[k]);
                        } else {
                            assert(list[before.len() as int].0 == owned[k]);
                        }
                    }
                },
                None => {},
            }
            assert forall|j: int| 0 <= j < list.len() implies among(
                owned@,
                i + 1,
                (#[trigger] list[j]).0,
            ) by {
                if among(owned@, i as int, list[j].0) {
                    let k = choose|k: int| 0 <= k < i && #[trigger] owned[k] == list[j].0;
                    assert(owned[k] == list[j].0);
                } else {
                    assert(owned[i as int] == list[j].0);
                }
            }
            i += 1;
        }
        proof {
            assert forall|d: DeviceId| kinds.contains_key(d) implies exists|j: int|
                0 <= j < list.len() && #[trigger] list[j].0 == d by {
                assert(owned@.contains(d));
                let k = choose|k: int| 0 <= k < owned.len() && owned[k] == d;
                assert(kinds.contains_key(owned[k]));
            }
        }
        Some(list)
    }

    /// The ids that a run of texts holds, in the order of the texts. A text
    /// that is no id is passed over.
    pub fn list(uuids: &Vec<String>) -> (ids: Vec<MachineId>)
        ensures
            ids@ == parsed_ids(uuids@),
    {
        let mut ids: Vec<MachineId> = Vec::new();
        let mut i: usize = 0;
        assert(uuids@.take(0) == Seq::<String>::empty());
        while i < uuids.len()
            invariant
                i <= uuids.len(),
                ids@ == parsed_ids(uuids@.take(i as int)),
            decreases uuids.len() - i,
        {
            assert(uuids@.take(i + 1).drop_last() == uuids@.take(i as int));
            match parse_id(uuids[i].as_str()) {
                Some(id) => {
                    ids.push(id);
                },
                None => {},
            }
            i += 1;
        }
        assert(uuids@.take(uuids.len() as int) == uuids@);
        ids
    }

    /// Those of a run of ids that are known machines, in the order of the run.
    pub fn retain_known(&self, ids: &Vec<MachineId>) -> (known: Vec<MachineId>)
        ensures
            known@ == ids@.filter(is_known(self@)),
    {
        let ghost keep = is_known(self@);
        let mut known: Vec<MachineId> = Vec::new();
        let mut i: usize = 0;
        assert(ids@.take(0).filter(keep) == Seq::<MachineId>::empty()) by {
            reveal(Seq::filter);
        }
        while i < ids.len()
            invariant
                i <= ids.len(),
                keep == is_known(self@),
                known@ == ids@.take(i as int).filter(keep),
            decreases ids.len() - i,
        {
            proof {
                assert(ids@.take(i + 1) == ids@.take(i as int).push(ids@[i as int]));
                ids@.take(i as int).lemma_filter_push(ids@[i as int], keep);
            }
            if self.db.is_known_machine(ids[i]) {
                known.push(ids[i]);
            }
            i += 1;
        }
        assert(ids@.take(ids.len() as int) == ids@);
        known
    }

    /// The machines of this control plane among the domains of the hypervisor,
    /// which are given by their UUIDs as the hypervisor writes them. Domains
    /// that are not known machines are foreign and left out.
    pub fn find_domains(&self, uuids: &Vec<String>) -> (machines: Vec<MachineId>)
        ensures
            machines@ == parsed_ids(uuids@).filter(is_known(self@)),
    {
        let ids = Client::list(uuids);
        self.retain_known(&ids)
    }

    /// The attributes of a memory device.
    pub fn get_memory(&self, device: DeviceId) -> (memory: Option<MemoryDevice>)
        ensures
            memory == if self@.dev_mem.contains_key(device) {
                Some(MemoryDevice { bytes: self@.dev_mem[device] })
            } else {
                None
            },
    {
        match self.get_mem_bytes(device) {
            Some(bytes) => Some(MemoryDevice { bytes }),
            None => None,
        }
    }

    /// The attributes of a CPU device.
    pub fn get_cpu(&self, device: DeviceId) -> (cpu: Option<CpuDevice>)
        ensures
            cpu == if self@.dev_cpu.contains_key(device) {
                Some(CpuDevice { cores: self@.dev_cpu[device] })
            } else {
                None
            },
    {
        match self.get_cpu_cores(device) {
            Some(cores) => Some(CpuDevice { cores }),
            None => None,
        }
    }

    /// The attributes of a block device.
    pub fn get_block(&self, device: DeviceId) -> (block: Option<BlockDevice>)
        ensures
            block == if self@.dev_block_cap.contains_key(device) {
                Some(BlockDevice { bytes: self@.dev_block_cap[device] })
            } else {
                None
            },
    {
        match self.get_block_bytes(device) {
            Some(bytes) => Some(BlockDevice { bytes }),
            None => None,
        }
    }

    /// Makes one operation on the registry. An operation that is refused leaves
    /// the registry as it is and says why; one that is made hands back its
    /// writes.
    pub fn commit(&mut self, op: Operation) -> (done: Result<Vec<RegistryWrite>, EngineError>)
        requires
            old(self).inv(),
        ensures
            committed(*old(self), *final(self), op, done),
    {
        match op {
            Operation::Create { machine, cpu, mem } => self.register_machine(machine, cpu, mem),
            Operation::Destroy { machine, status } => self.commit_destroy(machine, status),
            Operation::Attach { machine, device } => self.commit_attach(machine, device),
            Operation::Detach { machine, device } => self.commit_detach(machine, device),
            Operation::SetCpuCores { device, cores } => self.commit_cpu_cores(device, cores),
            Operation::SetMemBytes { device, bytes } => self.commit_mem_bytes(device, bytes),
            Operation::CreateBlock { device, bytes } => self.commit_create_block(device, bytes),
            Operation::DeleteBlock { device } => self.commit_delete_block(device),
            Operation::CreateNat { device } => self.register_nat(device),
            Operation::DeleteNat { device } => self.delete_nat(device),
        }
    }

    /// The state of a machine, from what the hypervisor says of its domain: no
    /// state where there is no live domain, or where its state cannot be had.
    pub fn get_status(state: Option<u32>) -> (seen: Option<MachineState>)
        requires
            state matches Some(s) ==> is_domain_state(s),
        ensures
            seen == match state {
                Some(s) => Some(machine_state(s)),
                None => None,
            },
    {
        match state {
            Some(s) => Some(virt_domainstate_to_istruct(s)),
            None => None,
        }
    }

    /// The call to make on the domain of a machine for an action. `live` says
    /// whether the hypervisor has a domain for the machine; where it has none,
    /// nothing is called. The state of the machine is not looked at: whether the
    /// action fits it is for the hypervisor to say.
    pub fn act_on(live: bool, action: MachineAction) -> (call: Option<LifecycleCall>)
        ensures
            call == if live {
                Some(lifecycle_call(action))
            } else {
                None
            },
    {
        if !live {
            return None;
        }
        Some(
            match action {
                MachineAction::ForceShutdown => LifecycleCall::DestroyGraceful,
                MachineAction::ForceReset => LifecycleCall::Reset,
                MachineAction::Shutdown => LifecycleCall::Shutdown,
                MachineAction::Suspend => LifecycleCall::Suspend,
                MachineAction::Resume => LifecycleCall::Resume,
                MachineAction::Boot => LifecycleCall::Create,
            },
        )
    }
}

} // verus!
