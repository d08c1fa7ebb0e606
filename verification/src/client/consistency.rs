//! Whether a registry is consistent, found out by looking through it.

use crate::client::db::{among, rises, ClientDB};
use crate::client::device_type::{
    ComputeDeviceType, DeviceType, NetworkDeviceType, StorageDeviceType,
};
use crate::client::index::lists;
use crate::client::rules::{block_kind, cpu_kind, mem_kind};
use crate::id::{DeviceId, MachineId};
use vstd::prelude::*;

verus! {

/// Whether a compute device is owned by a known machine.
fn owner_known(db: &ClientDB, device: DeviceId) -> (known: bool)
    ensures
        known == (db@.dev_attached.contains_key(device) && db@.known_machines.contains(
            db@.dev_attached[device],
        )),
{
    match db.get_dev_attached(device) {
        Some(machine) => db.is_known_machine(machine),
        None => false,
    }
}

/// Whether every device has the attribute of its kind, and every compute
/// device is owned by a known machine.
fn devices_whole(db: &ClientDB) -> (whole: bool)
    ensures
        whole == db@.devices_whole(),
{
    let all = db.all_dev_types();
    let mut i: usize = 0;
    while i < all.len()
        invariant
            i <= all.len(),
            lists(all@, db@.dev_type),
            forall|k: int| 0 <= k < i ==> db@.device_whole(#[trigger] all[k].0),
        decreases all.len() - i,
    {
        let (d, kind) = all[i];
        assert(db@.dev_type.contains_key(all[i as int].0));
        let whole = match kind {
            DeviceType::Compute(ComputeDeviceType::Cpu) => db.get_dev_cpu(d).is_some()
                && owner_known(db, d),
            DeviceType::Compute(ComputeDeviceType::Mem) => db.get_dev_mem(d).is_some()
                && owner_known(db, d),
            DeviceType::Storage(StorageDeviceType::Block) => db.get_dev_block_cap(d).is_some(),
            DeviceType::Network(NetworkDeviceType::Nat) => true,
        };
        if !whole {
            assert(!db@.device_whole(d));
            return false;
        }
        i += 1;
    }
    proof {
        assert forall|d: DeviceId| #[trigger] db@.dev_type.contains_key(d) implies db@.device_whole(
            d,
        ) by {
            let k = choose|k: int| 0 <= k < all.len() && #[trigger] all[k].0 == d;
            assert(db@.device_whole(all[k].0));
        }
    }
    true
}

/// Whether each of the devices listed is of kind `kind` and, where `positive`
/// is set, has an attribute above zero.
fn attributes_fit(db: &ClientDB, all: &Vec<(DeviceId, u64)>, kind: DeviceType, positive: bool) -> (fit:
    bool)
    ensures
        fit == forall|k: int|
            0 <= k < all.len() ==> db@.kind((#[trigger] all[k]).0) == Some(kind) && (positive
                ==> all[k].1 > 0),
{
    let mut i: usize = 0;
    while i < all.len()
        invariant
            i <= all.len(),
            forall|k: int|
                0 <= k < i ==> db@.kind((#[trigger] all[k]).0) == Some(kind) && (positive
                    ==> all[k].1 > 0),
        decreases all.len() - i,
    {
        let (d, amount) = all[i];
        let fits = match db.get_dev_type(d) {
            Some(found) => found == kind && (!positive || amount > 0),
            None => false,
        };
        if !fits {
            assert(!(db@.kind(all[i as int].0) == Some(kind) && (positive ==> all[i as int].1 > 0)));
            return false;
        }
        i += 1;
    }
    true
}

/// Whether owners and attributes are held for registered devices only, each
/// attribute for devices of its kind, and no CPU or memory is of size zero.
fn nothing_stray(db: &ClientDB) -> (clean: bool)
    ensures
        clean == db@.nothing_stray(),
{
    let owners = db.all_dev_attached();
    let mut i: usize = 0;
    while i < owners.len()
        invariant
            i <= owners.len(),
            lists(owners@, db@.dev_attached),
            forall|k: int| 0 <= k < i ==> db@.dev_type.contains_key(#[trigger] owners[k].0),
        decreases owners.len() - i,
    {
        if db.get_dev_type(owners[i].0).is_none() {
            assert(db@.dev_attached.contains_key(owners[i as int].0));
            return false;
        }
        i += 1;
    }
    let cpus = db.all_dev_cpu();
    let mems = db.all_dev_mem();
    let blocks = db.all_dev_block_cap();
    let cpus_fit = attributes_fit(db, &cpus, DeviceType::Compute(ComputeDeviceType::Cpu), true);
    let mems_fit = attributes_fit(db, &mems, DeviceType::Compute(ComputeDeviceType::Mem), true);
    let blocks_fit = attributes_fit(
        db,
        &blocks,
        DeviceType::Storage(StorageDeviceType::Block),
        false,
    );
    proof {
        assert forall|d: DeviceId| #[trigger]
            db@.dev_attached.contains_key(d) implies db@.dev_type.contains_key(d) by {
            let k = choose|k: int| 0 <= k < owners.len() && #[trigger] owners[k].0 == d;
            assert(db@.dev_type.contains_key(owners[k].0));
        }
        if cpus_fit {
            assert forall|d: DeviceId| #[trigger] db@.dev_cpu.contains_key(d) implies db@.kind(d)
                == Some(cpu_kind()) && db@.dev_cpu[d] > 0 by {
                let k = choose|k: int| 0 <= k < cpus.len() && #[trigger] cpus[k].0 == d;
                assert(db@.kind(cpus[k].0) == Some(cpu_kind()));
                assert(db@.dev_cpu[cpus[k].0] == cpus[k].1);
            }
        } else {
            let k = choose|k: int|
                0 <= k < cpus.len() && !(db@.kind((#[trigger] cpus[k]).0) == Some(cpu_kind())
                    && cpus[k].1 > 0);
            assert(db@.dev_cpu.contains_key(cpus[k].0));
            assert(db@.dev_cpu[cpus[k].0] == cpus[k].1);
        }
        if mems_fit {
            assert forall|d: DeviceId| #[trigger] db@.dev_mem.contains_key(d) implies db@.kind(d)
                == Some(mem_kind()) && db@.dev_mem[d] > 0 by {
                let k = choose|k: int| 0 <= k < mems.len() && #[trigger] mems[k].0 == d;
                assert(db@.kind(mems[k].0) == Some(mem_kind()));
                assert(db@.dev_mem[mems[k].0] == mems[k].1);
            }
        } else {
            let k = choose|k: int|
                0 <= k < mems.len() && !(db@.kind((#[trigger] mems[k]).0) == Some(mem_kind())
                    && mems[k].1 > 0);
            assert(db@.dev_mem.contains_key(mems[k].0));
            assert(db@.dev_mem[mems[k].0] == mems[k].1);
        }
        if blocks_fit {
            assert forall|d: DeviceId| #[trigger]
                db@.dev_block_cap.contains_key(d) implies db@.kind(d) == Some(block_kind()) by {
                let k = choose|k: int| 0 <= k < blocks.len() && #[trigger] blocks[k].0 == d;
                assert(db@.kind(blocks[k].0) == Some(block_kind()));
            }
        } else {
            let k = choose|k: int|
                0 <= k < blocks.len() && !(db@.kind((#[trigger] blocks[k]).0) == Some(
                    block_kind(),
                ));
            assert(db@.dev_block_cap.contains_key(blocks[k].0));
        }
    }
    cpus_fit && mems_fit && blocks_fit
}

/// Whether a machine owns exactly one device of kind `kind`. `owned` lists the
/// devices that the machine owns.
fn has_sole(db: &ClientDB, machine: MachineId, kind: DeviceType, owned: &Vec<DeviceId>) -> (sole:
    bool)
    requires
        rises(owned@),
        forall|d: DeviceId| owned@.contains(d) <==> db@.owns(machine, d),
    ensures
        sole == db@.has_sole(machine, kind),
{
    let mut found: Option<DeviceId> = None;
    let mut i: usize = 0;
    while i < owned.len()
        invariant
            i <= owned.len(),
            rises(owned@),
            forall|d: DeviceId| owned@.contains(d) <==> db@.owns(machine, d),
            found matches Some(c) ==> among(owned@, i as int, c) && db@.owns_kind(machine, c, kind),
            forall|k: int|
                0 <= k < i && db@.owns_kind(machine, #[trigger] owned[k], kind) ==> found == Some(
                    owned[k],
                ),
        decreases owned.len() - i,
    {
        let d = owned[i];
        assert(owned@.contains(d));
        let of_kind = match db.get_dev_type(d) {
            Some(k) => k == kind,
            None => false,
        };
        if of_kind {
            match found {
                Some(c) => {
                    proof {
                        let k = choose|k: int| 0 <= k < i && #[trigger] owned[k] == c;
                        assert(owned[k] < owned[i as int]);
                        assert(db@.owns_kind(machine, c, kind));
                        assert(db@.owns_kind(machine, d, kind));
                        if db@.has_sole(machine, kind) {
                            let s = db@.the(machine, kind);
                            assert(db@.sole(machine, kind, s));
                            assert(c == s);
                            assert(d == s);
                        }
                    }
                    return false;
                },
                None => {
                    found = Some(d);
                },
            }
        }
        proof {
            match found {
                Some(c) => {
                    if among(owned@, i as int, c) {
                        let k = choose|k: int| 0 <= k < i && #[trigger] owned[k] == c;
                        assert(owned[k] == c);
                    } else {
                        assert(owned[i as int] == c);
                    }
                    assert(among(owned@, i + 1, c));
                },
                None => {},
            }
        }
        i += 1;
    }
    proof {
        match found {
            Some(c) => {
                assert forall|d: DeviceId| #[trigger] db@.owns_kind(machine, d, kind) <==> d
                    == c by {
                    if db@.owns_kind(machine, d, kind) {
                        assert(owned@.contains(d));
                        let k = choose|k: int| 0 <= k < owned.len() && owned[k] == d;
                        assert(db@.owns_kind(machine, owned[k], kind));
                    }
                }
                assert(db@.sole(machine, kind, c));
            },
            None => {
                if db@.has_sole(machine, kind) {
                    let s = db@.the(machine, kind);
                    assert(db@.sole(machine, kind, s));
                    assert(db@.owns_kind(machine, s, kind));
                    assert(owned@.contains(s));
                    let k = choose|k: int| 0 <= k < owned.len() && owned[k] == s;
                    assert(db@.owns_kind(machine, owned[k], kind));
                }
            },
        }
    }
    found.is_some()
}

/// Whether every known machine owns exactly one CPU device and exactly one
/// memory device.
fn machines_whole(db: &ClientDB) -> (whole: bool)
    ensures
        whole == db@.machines_whole(),
{
    let machines = db.all_known_machines();
    let mut i: usize = 0;
    while i < machines.len()
        invariant
            i <= machines.len(),
            forall|m: MachineId| machines@.contains(m) <==> db@.known_machines.contains(m),
            forall|k: int|
                0 <= k < i ==> db@.has_sole(#[trigger] machines[k], cpu_kind()) && db@.has_sole(
                    machines[k],
                    mem_kind(),
                ),
        decreases machines.len() - i,
    {
        let m = machines[i];
        assert(machines@.contains(m));
        let owned = db.get_dev_attached_to(m);
        if !has_sole(db, m, DeviceType::Compute(ComputeDeviceType::Cpu), &owned) || !has_sole(
            db,
            m,
            DeviceType::Compute(ComputeDeviceType::Mem),
            &owned,
        ) {
            assert(db@.known_machines.contains(m));
            return false;
        }
        i += 1;
    }
    proof {
        assert forall|m: MachineId| #[trigger] db@.known_machines.contains(m) implies db@.has_sole(
            m,
            cpu_kind(),
        ) && db@.has_sole(m, mem_kind()) by {
            assert(machines@.contains(m));
            let k = choose|k: int| 0 <= k < machines.len() && machines[k] == m;
            assert(db@.has_sole(machines[k], cpu_kind()));
        }
    }
    true
}

/// Whether a registry is consistent.
pub fn is_consistent(db: &ClientDB) -> (consistent: bool)
    ensures
        consistent == db@.consistent(),
{
    machines_whole(db) && devices_whole(db) && nothing_stray(db)
}

} // verus!
