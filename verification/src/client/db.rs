//! The device registry: six indexes under 128-bit ids.

use crate::client::device_type::DeviceType;
use crate::client::index::{lists, Index};
use crate::error::EngineError;
use crate::id::{DeviceId, MachineId};
use vstd::prelude::*;

verus! {

/// What the registry holds.
pub ghost struct Registry {
    /// The kind of each device.
    pub dev_type: Map<DeviceId, DeviceType>,
    /// The machine that owns a device, for the devices that have an owner.
    pub dev_attached: Map<DeviceId, MachineId>,
    /// The core count of each CPU device.
    pub dev_cpu: Map<DeviceId, u64>,
    /// The size in bytes of each memory device.
    pub dev_mem: Map<DeviceId, u64>,
    /// The capacity in bytes of each block device.
    pub dev_block_cap: Map<DeviceId, u64>,
    /// The machines that this control plane manages.
    pub known_machines: Set<MachineId>,
}

/// One write to one index. Each is durable by itself.
#[derive(Debug, Clone, Copy, PartialEq, Eq, Structural)]
pub enum RegistryWrite {
    SetDevType(DeviceId, DeviceType),
    DelDevType(DeviceId),
    SetDevAttached(DeviceId, MachineId),
    DelDevAttached(DeviceId),
    SetDevCpu(DeviceId, u64),
    DelDevCpu(DeviceId),
    SetDevMem(DeviceId, u64),
    DelDevMem(DeviceId),
    SetDevBlockCap(DeviceId, u64),
    DelDevBlockCap(DeviceId),
    SetKnownMachine(MachineId),
    DelKnownMachine(MachineId),
}

impl Registry {
    pub open spec fn empty() -> Registry {
        Registry {
            dev_type: Map::empty(),
            dev_attached: Map::empty(),
            dev_cpu: Map::empty(),
            dev_mem: Map::empty(),
            dev_block_cap: Map::empty(),
            known_machines: Set::empty(),
        }
    }

    /// The kind of a device, if the device is registered.
    pub open spec fn kind(self, device: DeviceId) -> Option<DeviceType> {
        if self.dev_type.contains_key(device) {
            Some(self.dev_type[device])
        } else {
            None
        }
    }

    /// The owner of a device, if it has one.
    pub open spec fn owner(self, device: DeviceId) -> Option<MachineId> {
        if self.dev_attached.contains_key(device) {
            Some(self.dev_attached[device])
        } else {
            None
        }
    }

    /// Whether a machine owns a device.
    pub open spec fn owns(self, machine: MachineId, device: DeviceId) -> bool {
        self.dev_attached.contains_key(device) && self.dev_attached[device] == machine
    }

    /// Whether a machine owns a device of a given kind.
    pub open spec fn owns_kind(self, machine: MachineId, device: DeviceId, kind: DeviceType) -> bool {
        self.owns(machine, device) && self.kind(device) == Some(kind)
    }

    /// The registry after one write.
    pub open spec fn apply(self, write: RegistryWrite) -> Registry {
        match write {
            RegistryWrite::SetDevType(d, t) => Registry {
                dev_type: self.dev_type.insert(d, t),
                ..self
            },
            RegistryWrite::DelDevType(d) => Registry { dev_type: self.dev_type.remove(d), ..self },
            RegistryWrite::SetDevAttached(d, m) => Registry {
                dev_attached: self.dev_attached.insert(d, m),
                ..self
            },
            RegistryWrite::DelDevAttached(d) => Registry {
                dev_attached: self.dev_attached.remove(d),
                ..self
            },
            RegistryWrite::SetDevCpu(d, n) => Registry { dev_cpu: self.dev_cpu.insert(d, n), ..self },
            RegistryWrite::DelDevCpu(d) => Registry { dev_cpu: self.dev_cpu.remove(d), ..self },
            RegistryWrite::SetDevMem(d, n) => Registry { dev_mem: self.dev_mem.insert(d, n), ..self },
            RegistryWrite::DelDevMem(d) => Registry { dev_mem: self.dev_mem.remove(d), ..self },
            RegistryWrite::SetDevBlockCap(d, n) => Registry {
                dev_block_cap: self.dev_block_cap.insert(d, n),
                ..self
            },
            RegistryWrite::DelDevBlockCap(d) => Registry {
                dev_block_cap: self.dev_block_cap.remove(d),
                ..self
            },
            RegistryWrite::SetKnownMachine(m) => Registry {
                known_machines: self.known_machines.insert(m),
                ..self
            },
            RegistryWrite::DelKnownMachine(m) => Registry {
                known_machines: self.known_machines.remove(m),
                ..self
            },
        }
    }

    /// The registry after a run of writes, made in their order.
    pub open spec fn apply_all(self, writes: Seq<RegistryWrite>) -> Registry
        decreases writes.len(),
    {
        if writes.len() == 0 {
            self
        } else {
            self.apply_all(writes.drop_last()).apply(writes.last())
        }
    }
}

/// Whether the ids of a run rise strictly.
pub open spec fn rises(ids: Seq<u128>) -> bool {
    forall|i: int, j: int| 0 <= i < j < ids.len() ==> ids[i] < ids[j]
}

/// Whether `id` is one of the first `upto` ids of a run.
pub open spec fn among(ids: Seq<u128>, upto: int, id: u128) -> bool {
    exists|k: int| 0 <= k < upto && #[trigger] ids[k] == id
}

/// Whether one of the first `upto` entries puts `device` under `machine`.
spec fn listed_under(all: Seq<(u128, u128)>, upto: int, device: u128, machine: u128) -> bool {
    exists|k: int| 0 <= k < upto && #[trigger] all[k] == (device, machine)
}

/// The registry, held in memory.
pub struct ClientDB {
    dev_type: Index<DeviceType>,
    dev_attached: Index<MachineId>,
    dev_cpu: Index<u64>,
    dev_mem: Index<u64>,
    dev_block_cap: Index<u64>,
    known_machines: Index<u8>,
}

impl View for ClientDB {
    type V = Registry;

    closed spec fn view(&self) -> Registry {
        Registry {
            dev_type: self.dev_type@,
            dev_attached: self.dev_attached@,
            dev_cpu: self.dev_cpu@,
            dev_mem: self.dev_mem@,
            dev_block_cap: self.dev_block_cap@,
            known_machines: self.known_machines@.dom(),
        }
    }
}

impl ClientDB {
    /// A registry that holds nothing.
    pub fn new() -> (db: ClientDB)
        ensures
            db@ == Registry::empty(),
    {
        let db = ClientDB {
            dev_type: Index::new(),
            dev_attached: Index::new(),
            dev_cpu: Index::new(),
            dev_mem: Index::new(),
            dev_block_cap: Index::new(),
            known_machines: Index::new(),
        };
        assert(db@.known_machines =~= Set::<MachineId>::empty());
        db
    }

    /// Every device with its kind, in the order of the ids.
    pub fn all_dev_types(&self) -> (all: Vec<(DeviceId, DeviceType)>)
        ensures
            lists(all@, self@.dev_type),
    {
        self.dev_type.scan()
    }

    pub fn get_dev_type(&self, dev: DeviceId) -> (kind: Option<DeviceType>)
        ensures
            kind == self@.kind(dev),
    {
        self.dev_type.get(dev)
    }

    pub fn set_dev_type(&mut self, dev: DeviceId, typ: DeviceType)
        ensures
            final(self)@ == old(self)@.apply(RegistryWrite::SetDevType(dev, typ)),
    {
        self.dev_type.set(dev, typ);
    }

    /// Puts a device under the kind that a stored name stands for. A name that
    /// stands for no kind is refused, and the registry stays as it is.
    pub fn restore_dev_type(&mut self, dev: DeviceId, name: &str) -> (done: Result<(), EngineError>)
        ensures
            match DeviceType::from_wire(name@) {
                Some(typ) => done is Ok && final(self)@ == old(self)@.apply(
                    RegistryWrite::SetDevType(dev, typ),
                ),
                None => done == Err::<(), EngineError>(EngineError::Corruption) && final(self)@
                    == old(self)@,
            },
    {
        match DeviceType::parse_str(name) {
            Some(typ) => {
                self.dev_type.set(dev, typ);
                Ok(())
            },
            None => Err(EngineError::Corruption),
        }
    }

    pub fn del_dev_type(&mut self, dev: DeviceId)
        ensures
            final(self)@ == old(self)@.apply(RegistryWrite::DelDevType(dev)),
    {
        self.dev_type.del(dev);
    }

    pub fn get_dev_attached(&self, dev: DeviceId) -> (machine: Option<MachineId>)
        ensures
            machine == self@.owner(dev),
    {
        self.dev_attached.get(dev)
    }

    /// The devices that a machine owns, in the order of their ids.
    pub fn get_dev_attached_to(&self, machine: MachineId) -> (devices: Vec<DeviceId>)
        ensures
            rises(devices@),
            forall|d: DeviceId| devices@.contains(d) <==> self@.owns(machine, d),
    {
        let all = self.dev_attached.scan();
        let mut devices: Vec<DeviceId> = Vec::new();
        let mut i: usize = 0;
        while i < all.len()
            invariant
                i <= all.len(),
                lists(all@, self.dev_attached@),
                rises(devices@),
                forall|j: int|
                    0 <= j < devices.len() ==> listed_under(
                        all@,
                        i as int,
                        #[trigger] devices[j],
                        machine,
                    ),
                forall|k: int|
                    0 <= k < i && all[k].1 == machine ==> devices@.contains(#[trigger] all[k].0),
            decreases all.len() - i,
        {
            let (dev, owner) = all[i];
            if owner == machine {
                let ghost before = devices@;
                devices.push(dev);
                assert(forall|j: int| 0 <= j < before.len() ==> devices[j] == before[j]);
                assert(devices[before.len() as int] == dev);
                assert(all[i as int] == (dev, machine));
                assert forall|j: int| 0 <= j < before.len() implies dev > before[j] by {
                    let k = choose|k: int| 0 <= k < i && #[trigger] all[k] == (before[j], machine);
                    assert(all[k].0 < all[i as int].0);
                }
                assert forall|k: int| 0 <= k < i + 1 && all[k].1 == machine implies devices@.contains(
                    #[trigger] all[k].0,
                ) by {
                    if k < i {
                        assert(before.contains(all[k].0));
                        let j = choose|j: int| 0 <= j < before.len() && before[j] == all[k].0;
                        assert(devices[j] == all[k].0);
                    }
                }
            }
            assert forall|j: int| 0 <= j < devices.len() implies listed_under(
                all@,
                i + 1,
                #[trigger] devices[j],
                machine,
            ) by {
                if listed_under(all@, i as int, devices[j], machine) {
                    let k = choose|k: int| 0 <= k < i && #[trigger] all[k] == (devices[j], machine);
                    assert(all[k] == (devices[j], machine));
                } else {
                    assert(all[i as int] == (devices[j], machine));
                }
            }
            i += 1;
        }
        proof {
            assert forall|d: DeviceId| devices@.contains(d) implies self@.owns(machine, d) by {
                let j = choose|j: int| 0 <= j < devices.len() && devices[j] == d;
                let k = choose|k: int| 0 <= k < all.len() && #[trigger] all[k] == (devices[j], machine);
                assert(self.dev_attached@.contains_key(all[k].0));
            }
            assert forall|d: DeviceId| self@.owns(machine, d) implies devices@.contains(d) by {
                let k = choose|k: int| 0 <= k < all.len() && all[k].0 == d;
                assert(self.dev_attached@[all[k].0] == all[k].1);
                assert(devices@.contains(all[k].0));
            }
        }
        devices
    }

    /// Every device that has an owner, with its owner, in the order of the ids.
    pub fn all_dev_attached(&self) -> (all: Vec<(DeviceId, MachineId)>)
        ensures
            lists(all@, self@.dev_attached),
    {
        self.dev_attached.scan()
    }

    pub fn set_dev_attached(&mut self, dev: DeviceId, machine: MachineId)
        ensures
            final(self)@ == old(self)@.apply(RegistryWrite::SetDevAttached(dev, machine)),
    {
        self.dev_attached.set(dev, machine);
    }

    pub fn del_dev_attached(&mut self, dev: DeviceId)
        ensures
            final(self)@ == old(self)@.apply(RegistryWrite::DelDevAttached(dev)),
    {
        self.dev_attached.del(dev);
    }

    pub fn get_dev_cpu(&self, dev: DeviceId) -> (cores: Option<u64>)
        ensures
            cores == if self@.dev_cpu.contains_key(dev) {
                Some(self@.dev_cpu[dev])
            } else {
                None
            },
    {
        self.dev_cpu.get(dev)
    }

    /// Every CPU device with its core count, in the order of the ids.
    pub fn all_dev_cpu(&self) -> (all: Vec<(DeviceId, u64)>)
        ensures
            lists(all@, self@.dev_cpu),
    {
        self.dev_cpu.scan()
    }

    pub fn set_dev_cpu(&mut self, dev: DeviceId, cores: u64)
        ensures
            final(self)@ == old(self)@.apply(RegistryWrite::SetDevCpu(dev, cores)),
    {
        self.dev_cpu.set(dev, cores);
    }

    pub fn del_dev_cpu(&mut self, dev: DeviceId)
        ensures
            final(self)@ == old(self)@.apply(RegistryWrite::DelDevCpu(dev)),
    {
        self.dev_cpu.del(dev);
    }

    pub fn get_dev_mem(&self, dev: DeviceId) -> (bytes: Option<u64>)
        ensures
            bytes == if self@.dev_mem.contains_key(dev) {
                Some(self@.dev_mem[dev])
            } else {
                None
            },
    {
        self.dev_mem.get(dev)
    }

    /// Every memory device with its size, in the order of the ids.
    pub fn all_dev_mem(&self) -> (all: Vec<(DeviceId, u64)>)
        ensures
            lists(all@, self@.dev_mem),
    {
        self.dev_mem.scan()
    }

    pub fn set_dev_mem(&mut self, dev: DeviceId, bytes: u64)
        ensures
            final(self)@ == old(self)@.apply(RegistryWrite::SetDevMem(dev, bytes)),
    {
        self.dev_mem.set(dev, bytes);
    }

    pub fn del_dev_mem(&mut self, dev: DeviceId)
        ensures
            final(self)@ == old(self)@.apply(RegistryWrite::DelDevMem(dev)),
    {
        self.dev_mem.del(dev);
    }

    pub fn get_dev_block_cap(&self, dev: DeviceId) -> (bytes: Option<u64>)
        ensures
            bytes == if self@.dev_block_cap.contains_key(dev) {
                Some(self@.dev_block_cap[dev])
            } else {
                None
            },
    {
        self.dev_block_cap.get(dev)
    }

    /// Every block device with its capacity, in the order of the ids.
    pub fn all_dev_block_cap(&self) -> (all: Vec<(DeviceId, u64)>)
        ensures
            lists(all@, self@.dev_block_cap),
    {
        self.dev_block_cap.scan()
    }

    pub fn set_dev_block_cap(&mut self, dev: DeviceId, bytes: u64)
        ensures
            final(self)@ == old(self)@.apply(RegistryWrite::SetDevBlockCap(dev, bytes)),
    {
        self.dev_block_cap.set(dev, bytes);
    }

    pub fn del_dev_block_cap(&mut self, dev: DeviceId)
        ensures
            final(self)@ == old(self)@.apply(RegistryWrite::DelDevBlockCap(dev)),
    {
        self.dev_block_cap.del(dev);
    }

    /// The machines that are known, in the order of their ids.
    pub fn all_known_machines(&self) -> (machines: Vec<MachineId>)
        ensures
            rises(machines@),
            forall|m: MachineId| machines@.contains(m) <==> self@.known_machines.contains(m),
    {
        let all = self.known_machines.scan();
        let mut machines: Vec<MachineId> = Vec::new();
        let mut i: usize = 0;
        while i < all.len()
            invariant
                i <= all.len(),
                lists(all@, self.known_machines@),
                machines.len() == i,
                forall|j: int| 0 <= j < i ==> machines[j] == all[j].0,
            decreases all.len() - i,
        {
            machines.push(all[i].0);
            i += 1;
        }
        proof {
            assert forall|m: MachineId| machines@.contains(m) implies self@.known_machines.contains(
                m,
            ) by {
                let j = choose|j: int| 0 <= j < machines.len() && machines[j] == m;
                assert(self.known_machines@.contains_key(all[j].0));
            }
            assert forall|m: MachineId| self@.known_machines.contains(m) implies machines@.contains(
                m,
            ) by {
                let k = choose|k: int| 0 <= k < all.len() && all[k].0 == m;
                assert(machines[k] == m);
            }
        }
        machines
    }

    pub fn is_known_machine(&self, machine: MachineId) -> (known: bool)
        ensures
            known == self@.known_machines.contains(machine),
    {
        self.known_machines.contains_key(machine)
    }

    pub fn set_known_machine(&mut self, machine: MachineId)
        ensures
            final(self)@ == old(self)@.apply(RegistryWrite::SetKnownMachine(machine)),
    {
        self.known_machines.set(machine, 0);
        assert(self@.known_machines =~= old(self)@.known_machines.insert(machine));
    }

    pub fn del_known_machine(&mut self, machine: MachineId)
        ensures
            final(self)@ == old(self)@.apply(RegistryWrite::DelKnownMachine(machine)),
    {
        self.known_machines.del(machine);
        assert(self@.known_machines =~= old(self)@.known_machines.remove(machine));
    }

    /// Makes a run of writes, in their order.
    pub fn apply_all(&mut self, writes: &Vec<RegistryWrite>)
        ensures
            final(self)@ == old(self)@.apply_all(writes@),
    {
        let mut i: usize = 0;
        assert(writes@.take(0) == Seq::<RegistryWrite>::empty());
        while i < writes.len()
            invariant
                i <= writes.len(),
                self@ == old(self)@.apply_all(writes@.take(i as int)),
            decreases writes.len() - i,
        {
            self.apply(writes[i]);
            assert(writes@.take(i + 1).drop_last() == writes@.take(i as int));
            i += 1;
        }
        assert(writes@.take(writes.len() as int) == writes@);
    }

    /// Makes one write.
    pub fn apply(&mut self, write: RegistryWrite)
        ensures
            final(self)@ == old(self)@.apply(write),
    {
        match write {
            RegistryWrite::SetDevType(d, t) => self.set_dev_type(d, t),
            RegistryWrite::DelDevType(d) => self.del_dev_type(d),
            RegistryWrite::SetDevAttached(d, m) => self.set_dev_attached(d, m),
            RegistryWrite::DelDevAttached(d) => self.del_dev_attached(d),
            RegistryWrite::SetDevCpu(d, n) => self.set_dev_cpu(d, n),
            RegistryWrite::DelDevCpu(d) => self.del_dev_cpu(d),
            RegistryWrite::SetDevMem(d, n) => self.set_dev_mem(d, n),
            RegistryWrite::DelDevMem(d) => self.del_dev_mem(d),
            RegistryWrite::SetDevBlockCap(d, n) => self.set_dev_block_cap(d, n),
            RegistryWrite::DelDevBlockCap(d) => self.del_dev_block_cap(d),
            RegistryWrite::SetKnownMachine(m) => self.set_known_machine(m),
            RegistryWrite::DelKnownMachine(m) => self.del_known_machine(m),
        }
    }
}

} // verus!
