//! The rules of the registry: what it means for it to be consistent, what each
//! operation asks of it and what each operation writes.

use crate::api::MachineState;
use crate::client::db::{Registry, RegistryWrite};
use crate::client::device_type::{
    ComputeDeviceType, DeviceType, NetworkDeviceType, StorageDeviceType,
};
use crate::client::edit::DomainEdit;
use crate::error::{Conflict, EngineError, Missing};
use crate::id::{DeviceId, MachineId};
use vstd::prelude::*;

verus! {

/// The core count of a new machine.
pub const DEFAULT_CPU_CORES: u64 = 1;

/// The memory size of a new machine: 128 MiB.
pub const DEFAULT_MEM_BYTES: u64 = 134217728;

pub open spec fn cpu_kind() -> DeviceType {
    DeviceType::Compute(ComputeDeviceType::Cpu)
}

pub open spec fn mem_kind() -> DeviceType {
    DeviceType::Compute(ComputeDeviceType::Mem)
}

pub open spec fn block_kind() -> DeviceType {
    DeviceType::Storage(StorageDeviceType::Block)
}

pub open spec fn nat_kind() -> DeviceType {
    DeviceType::Network(NetworkDeviceType::Nat)
}

/// Whether every device that is registered before and after has kept its kind.
pub open spec fn kinds_stable(before: Registry, after: Registry) -> bool {
    forall|d: DeviceId|
        before.dev_type.contains_key(d) && #[trigger] after.dev_type.contains_key(d)
            ==> after.dev_type[d] == before.dev_type[d]
}

impl Registry {
    /// Whether `device` is the one device of kind `kind` that `machine` owns.
    pub open spec fn sole(self, machine: MachineId, kind: DeviceType, device: DeviceId) -> bool {
        forall|d: DeviceId| #[trigger] self.owns_kind(machine, d, kind) <==> d == device
    }

    /// Whether `machine` owns exactly one device of kind `kind`.
    pub open spec fn has_sole(self, machine: MachineId, kind: DeviceType) -> bool {
        exists|device: DeviceId| self.sole(machine, kind, device)
    }

    /// The one device of kind `kind` that `machine` owns.
    pub open spec fn the(self, machine: MachineId, kind: DeviceType) -> DeviceId {
        choose|device: DeviceId| self.sole(machine, kind, device)
    }

    /// Every known machine owns exactly one CPU device and exactly one memory
    /// device.
    pub open spec fn machines_whole(self) -> bool {
        forall|m: MachineId| #[trigger]
            self.known_machines.contains(m) ==> self.has_sole(m, cpu_kind()) && self.has_sole(
                m,
                mem_kind(),
            )
    }

    /// Whether a registered device has the attribute of its kind and, if it is
    /// a compute device, is owned by a known machine.
    pub open spec fn device_whole(self, d: DeviceId) -> bool {
        &&& self.dev_type[d] == cpu_kind() ==> self.dev_cpu.contains_key(d)
        &&& self.dev_type[d] == mem_kind() ==> self.dev_mem.contains_key(d)
        &&& self.dev_type[d] == block_kind() ==> self.dev_block_cap.contains_key(d)
        &&& self.dev_type[d].is_compute() ==> self.dev_attached.contains_key(d)
            && self.known_machines.contains(self.dev_attached[d])
    }

    /// Every device has the attribute of its kind, and every compute device is
    /// owned by a known machine.
    pub open spec fn devices_whole(self) -> bool {
        forall|d: DeviceId| #[trigger] self.dev_type.contains_key(d) ==> self.device_whole(d)
    }

    /// Owners and attributes are held for registered devices only, each
    /// attribute for devices of its kind, and no CPU or memory is of size zero.
    pub open spec fn nothing_stray(self) -> bool {
        &&& forall|d: DeviceId| #[trigger]
            self.dev_attached.contains_key(d) ==> self.dev_type.contains_key(d)
        &&& forall|d: DeviceId| #[trigger]
            self.dev_cpu.contains_key(d) ==> self.kind(d) == Some(cpu_kind()) && self.dev_cpu[d] > 0
        &&& forall|d: DeviceId| #[trigger]
            self.dev_mem.contains_key(d) ==> self.kind(d) == Some(mem_kind()) && self.dev_mem[d] > 0
        &&& forall|d: DeviceId| #[trigger]
            self.dev_block_cap.contains_key(d) ==> self.kind(d) == Some(block_kind())
    }

    /// The invariant of the registry.
    pub open spec fn consistent(self) -> bool {
        &&& self.machines_whole()
        &&& self.devices_whole()
        &&& self.nothing_stray()
    }

    /// Whether a machine id is in use: as a known machine, or as the owner of a
    /// device.
    pub open spec fn machine_in_use(self, machine: MachineId) -> bool {
        self.known_machines.contains(machine) || exists|d: DeviceId| self.owns(machine, d)
    }

    /// What attaching a device to a machine asks of the registry, and the edit
    /// that the machine's descriptor needs.
    pub open spec fn attach_verdict(self, machine: MachineId, device: DeviceId) -> Result<
        DomainEdit,
        EngineError,
    > {
        match self.kind(device) {
            None => Err(EngineError::NotFound(Missing::Device)),
            Some(DeviceType::Compute(_)) => Err(EngineError::Conflict(Conflict::ComputeDevice)),
            Some(kind) => match self.owner(device) {
                Some(owner) => if owner == machine {
                    Err(EngineError::Conflict(Conflict::AttachedToThisMachine))
                } else {
                    Err(EngineError::Conflict(Conflict::AttachedToOtherMachine))
                },
                None => if kind == block_kind() {
                    Ok(DomainEdit::AttachBlock(device))
                } else {
                    Ok(DomainEdit::AttachNat)
                },
            },
        }
    }

    /// What detaching a device from a machine asks of the registry, and the edit
    /// that the machine's descriptor needs.
    pub open spec fn detach_verdict(self, machine: MachineId, device: DeviceId) -> Result<
        DomainEdit,
        EngineError,
    > {
        match self.kind(device) {
            None => Err(EngineError::NotFound(Missing::Device)),
            Some(DeviceType::Compute(_)) => Err(EngineError::Conflict(Conflict::ComputeDevice)),
            Some(kind) => match self.owner(device) {
                None => Err(EngineError::Conflict(Conflict::NotAttached)),
                Some(owner) => if owner != machine {
                    Err(EngineError::Conflict(Conflict::AttachedTo(owner)))
                } else if kind == block_kind() {
                    Ok(DomainEdit::DetachBlock(device))
                } else {
                    Ok(DomainEdit::DetachNat)
                },
            },
        }
    }

    /// What an operation on an unowned device of kind `kind` asks of the
    /// registry.
    pub open spec fn unowned_verdict(self, device: DeviceId, kind: DeviceType) -> Result<
        (),
        EngineError,
    > {
        match self.kind(device) {
            None => Err(EngineError::NotFound(Missing::Device)),
            Some(found) => if found != kind {
                Err(EngineError::Conflict(Conflict::WrongKind(kind)))
            } else {
                match self.owner(device) {
                    Some(owner) => Err(EngineError::Conflict(Conflict::AttachedTo(owner))),
                    None => Ok(()),
                }
            },
        }
    }

    /// What an operation on a device of kind `kind` that `machine` owns asks of
    /// the registry.
    pub open spec fn owned_verdict(self, machine: MachineId, device: DeviceId, kind: DeviceType) -> Result<
        (),
        EngineError,
    > {
        match self.kind(device) {
            None => Err(EngineError::NotFound(Missing::Device)),
            Some(found) => if found != kind {
                Err(EngineError::Conflict(Conflict::WrongKind(kind)))
            } else {
                match self.owner(device) {
                    None => Err(EngineError::Conflict(Conflict::NotAttached)),
                    Some(owner) => if owner != machine {
                        Err(EngineError::Conflict(Conflict::AttachedTo(owner)))
                    } else {
                        Ok(())
                    },
                }
            },
        }
    }

    /// What setting an attribute of the compute device `device` asks of the
    /// registry, and the machine whose descriptor needs an edit.
    pub open spec fn resize_verdict(self, device: DeviceId, kind: DeviceType, amount: u64) -> Result<
        MachineId,
        EngineError,
    > {
        if amount == 0 {
            Err(
                EngineError::Conflict(
                    if kind == cpu_kind() {
                        Conflict::ZeroCores
                    } else {
                        Conflict::ZeroBytes
                    },
                ),
            )
        } else {
            match self.kind(device) {
                None => Err(EngineError::NotFound(Missing::Device)),
                Some(found) => if found != kind {
                    Err(EngineError::Conflict(Conflict::WrongKind(kind)))
                } else {
                    match self.owner(device) {
                        Some(owner) => Ok(owner),
                        None => Err(EngineError::NotFound(Missing::Machine)),
                    }
                },
            }
        }
    }

    /// What registering a new machine with its two compute devices asks of the
    /// registry: ids that are not in use.
    pub open spec fn create_verdict(self, machine: MachineId, cpu: DeviceId, mem: DeviceId) -> Result<
        (),
        EngineError,
    > {
        if self.machine_in_use(machine) || self.dev_type.contains_key(cpu)
            || self.dev_type.contains_key(mem) || cpu == mem {
            Err(EngineError::Conflict(Conflict::IdInUse))
        } else {
            Ok(())
        }
    }

    /// What registering a new device asks of the registry: an id that is not in
    /// use.
    pub open spec fn new_device_verdict(self, device: DeviceId) -> Result<(), EngineError> {
        if self.dev_type.contains_key(device) {
            Err(EngineError::Conflict(Conflict::IdInUse))
        } else {
            Ok(())
        }
    }

    /// Whether `machine` owns a device that is no compute device.
    pub open spec fn has_attachments(self, machine: MachineId) -> bool {
        exists|d: DeviceId| self.is_attachment(machine, d)
    }

    /// Whether `device` is owned by `machine` and is no compute device.
    pub open spec fn is_attachment(self, machine: MachineId, device: DeviceId) -> bool {
        self.owns(machine, device) && self.dev_type.contains_key(device)
            && !self.dev_type[device].is_compute()
    }

    /// What destroying a machine asks of the hypervisor and the registry: the
    /// machine is off and known.
    pub open spec fn destroy_verdict(self, machine: MachineId, status: Option<MachineState>) -> Result<
        (),
        EngineError,
    > {
        match status {
            None => Err(EngineError::NotFound(Missing::Machine)),
            Some(state) => if state != MachineState::Off {
                Err(EngineError::Conflict(Conflict::MachineNotOff))
            } else if !self.known_machines.contains(machine) {
                Err(EngineError::NotFound(Missing::Machine))
            } else {
                Ok(())
            },
        }
    }

    /// What taking the records of a machine out asks: as for destroying it, and
    /// that nothing but its compute devices is left to it.
    pub open spec fn forget_verdict(self, machine: MachineId, status: Option<MachineState>) -> Result<
        (),
        EngineError,
    > {
        match self.destroy_verdict(machine, status) {
            Err(e) => Err(e),
            Ok(()) => if self.has_attachments(machine) {
                Err(EngineError::Conflict(Conflict::DevicesAttached))
            } else {
                Ok(())
            },
        }
    }
}

/// The writes that register a machine with its CPU and memory device.
pub open spec fn create_journal(machine: MachineId, cpu: DeviceId, mem: DeviceId) -> Seq<
    RegistryWrite,
> {
    seq![
        RegistryWrite::SetDevType(mem, mem_kind()),
        RegistryWrite::SetDevAttached(mem, machine),
        RegistryWrite::SetDevMem(mem, DEFAULT_MEM_BYTES),
        RegistryWrite::SetDevType(cpu, cpu_kind()),
        RegistryWrite::SetDevAttached(cpu, machine),
        RegistryWrite::SetDevCpu(cpu, DEFAULT_CPU_CORES),
        RegistryWrite::SetKnownMachine(machine),
    ]
}

/// The writes that take a machine and its CPU and memory device out.
pub open spec fn destroy_journal(machine: MachineId, cpu: DeviceId, mem: DeviceId) -> Seq<
    RegistryWrite,
> {
    seq![
        RegistryWrite::DelDevType(mem),
        RegistryWrite::DelDevAttached(mem),
        RegistryWrite::DelDevMem(mem),
        RegistryWrite::DelDevType(cpu),
        RegistryWrite::DelDevAttached(cpu),
        RegistryWrite::DelDevCpu(cpu),
        RegistryWrite::DelKnownMachine(machine),
    ]
}

/// The writes that register a block device.
pub open spec fn create_block_journal(device: DeviceId, bytes: u64) -> Seq<RegistryWrite> {
    seq![
        RegistryWrite::SetDevType(device, block_kind()),
        RegistryWrite::SetDevBlockCap(device, bytes),
    ]
}

/// The writes that take a block device out.
pub open spec fn delete_block_journal(device: DeviceId) -> Seq<RegistryWrite> {
    seq![RegistryWrite::DelDevType(device), RegistryWrite::DelDevBlockCap(device)]
}

/// One operation that changes the registry, with all it needs to know.
#[derive(Debug, Clone, Copy, PartialEq, Eq, Structural)]
pub enum Operation {
    /// Register a machine under new ids.
    Create { machine: MachineId, cpu: DeviceId, mem: DeviceId },
    /// Take a machine out. `status` is what the hypervisor says of it.
    Destroy { machine: MachineId, status: Option<MachineState> },
    Attach { machine: MachineId, device: DeviceId },
    Detach { machine: MachineId, device: DeviceId },
    SetCpuCores { device: DeviceId, cores: u64 },
    SetMemBytes { device: DeviceId, bytes: u64 },
    CreateBlock { device: DeviceId, bytes: u64 },
    DeleteBlock { device: DeviceId },
    CreateNat { device: DeviceId },
    DeleteNat { device: DeviceId },
}

impl Registry {
    /// The writes that an operation makes, or the reason why it makes none.
    pub open spec fn journal(self, op: Operation) -> Result<Seq<RegistryWrite>, EngineError> {
        match op {
            Operation::Create { machine, cpu, mem } => match self.create_verdict(machine, cpu, mem) {
                Ok(()) => Ok(create_journal(machine, cpu, mem)),
                Err(e) => Err(e),
            },
            Operation::Destroy { machine, status } => match self.forget_verdict(machine, status) {
                Ok(()) => Ok(
                    destroy_journal(
                        machine,
                        self.the(machine, cpu_kind()),
                        self.the(machine, mem_kind()),
                    ),
                ),
                Err(e) => Err(e),
            },
            Operation::Attach { machine, device } => match self.attach_verdict(machine, device) {
                Ok(_) => Ok(seq![RegistryWrite::SetDevAttached(device, machine)]),
                Err(e) => Err(e),
            },
            Operation::Detach { machine, device } => match self.detach_verdict(machine, device) {
                Ok(_) => Ok(seq![RegistryWrite::DelDevAttached(device)]),
                Err(e) => Err(e),
            },
            Operation::SetCpuCores { device, cores } => match self.resize_verdict(
                device,
                cpu_kind(),
                cores,
            ) {
                Ok(_) => Ok(seq![RegistryWrite::SetDevCpu(device, cores)]),
                Err(e) => Err(e),
            },
            Operation::SetMemBytes { device, bytes } => match self.resize_verdict(
                device,
                mem_kind(),
                bytes,
            ) {
                Ok(_) => Ok(seq![RegistryWrite::SetDevMem(device, bytes)]),
                Err(e) => Err(e),
            },
            Operation::CreateBlock { device, bytes } => match self.new_device_verdict(device) {
                Ok(()) => Ok(create_block_journal(device, bytes)),
                Err(e) => Err(e),
            },
            Operation::DeleteBlock { device } => match self.unowned_verdict(device, block_kind()) {
                Ok(()) => Ok(delete_block_journal(device)),
                Err(e) => Err(e),
            },
            Operation::CreateNat { device } => match self.new_device_verdict(device) {
                Ok(()) => Ok(seq![RegistryWrite::SetDevType(device, nat_kind())]),
                Err(e) => Err(e),
            },
            Operation::DeleteNat { device } => match self.unowned_verdict(device, nat_kind()) {
                Ok(()) => Ok(seq![RegistryWrite::DelDevType(device)]),
                Err(e) => Err(e),
            },
        }
    }

    /// The registry after an operation. An operation that is refused leaves it
    /// as it is.
    pub open spec fn step(self, op: Operation) -> Registry {
        match self.journal(op) {
            Ok(writes) => self.apply_all(writes),
            Err(_) => self,
        }
    }

    /// The registry after a run of operations, made in their order.
    pub open spec fn run(self, ops: Seq<Operation>) -> Registry
        decreases ops.len(),
    {
        if ops.len() == 0 {
            self
        } else {
            self.run(ops.drop_last()).step(ops.last())
        }
    }
}

/// A run of writes with one more at its end is made by making the run, then the
/// one.
pub proof fn lemma_apply_all_push(registry: Registry, writes: Seq<RegistryWrite>, write: RegistryWrite)
    ensures
        registry.apply_all(writes.push(write)) == registry.apply_all(writes).apply(write),
{
    assert(writes.push(write).drop_last() == writes);
}

/// A run of no writes changes nothing.
pub proof fn lemma_apply_all_empty(registry: Registry)
    ensures
        registry.apply_all(Seq::<RegistryWrite>::empty()) == registry,
{
}

/// A run of one write is that write.
pub proof fn lemma_apply_all_one(registry: Registry, write: RegistryWrite)
    ensures
        registry.apply_all(seq![write]) == registry.apply(write),
{
    lemma_apply_all_empty(registry);
    lemma_apply_all_push(registry, Seq::empty(), write);
    assert(Seq::<RegistryWrite>::empty().push(write) == seq![write]);
}

/// A run of two writes is the first, then the second.
pub proof fn lemma_apply_all_two(registry: Registry, a: RegistryWrite, b: RegistryWrite)
    ensures
        registry.apply_all(seq![a, b]) == registry.apply(a).apply(b),
{
    lemma_apply_all_one(registry, a);
    lemma_apply_all_push(registry, seq![a], b);
    assert(seq![a].push(b) == seq![a, b]);
}

/// A run of seven writes is each of them in turn.
pub proof fn lemma_apply_all_seven(
    registry: Registry,
    a: RegistryWrite,
    b: RegistryWrite,
    c: RegistryWrite,
    d: RegistryWrite,
    e: RegistryWrite,
    f: RegistryWrite,
    g: RegistryWrite,
)
    ensures
        registry.apply_all(seq![a, b, c, d, e, f, g]) == registry.apply(a).apply(b).apply(c).apply(
            d,
        ).apply(e).apply(f).apply(g),
{
    lemma_apply_all_two(registry, a, b);
    lemma_apply_all_push(registry, seq![a, b], c);
    assert(seq![a, b].push(c) == seq![a, b, c]);
    lemma_apply_all_push(registry, seq![a, b, c], d);
    assert(seq![a, b, c].push(d) == seq![a, b, c, d]);
    lemma_apply_all_push(registry, seq![a, b, c, d], e);
    assert(seq![a, b, c, d].push(e) == seq![a, b, c, d, e]);
    lemma_apply_all_push(registry, seq![a, b, c, d, e], f);
    assert(seq![a, b, c, d, e].push(f) == seq![a, b, c, d, e, f]);
    lemma_apply_all_push(registry, seq![a, b, c, d, e, f], g);
    assert(seq![a, b, c, d, e, f].push(g) == seq![a, b, c, d, e, f, g]);
}

} // verus!
