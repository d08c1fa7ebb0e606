//! What holds of the registry whatever is done to it.

use crate::api::MachineState;
use crate::client::db::{Registry, RegistryWrite};
use crate::client::rules::{
    block_kind, cpu_kind, create_journal, destroy_journal, kinds_stable, lemma_apply_all_one, lemma_apply_all_seven,
    lemma_apply_all_two, mem_kind, nat_kind, Operation, DEFAULT_CPU_CORES, DEFAULT_MEM_BYTES,
};
use crate::error::{Conflict, EngineError, Missing};
use crate::id::{DeviceId, MachineId};
use vstd::prelude::*;

verus! {

/// A change that adds no machine, and leaves to every machine the compute
/// devices it owned, keeps every machine whole.
proof fn lemma_machines_stay_whole(before: Registry, after: Registry)
    requires
        before.machines_whole(),
        forall|m: MachineId| #[trigger]
            after.known_machines.contains(m) ==> before.known_machines.contains(m),
        forall|m: MachineId, d: DeviceId|
            after.known_machines.contains(m) ==> (#[trigger] after.owns_kind(m, d, cpu_kind())
                <==> before.owns_kind(m, d, cpu_kind())),
        forall|m: MachineId, d: DeviceId|
            after.known_machines.contains(m) ==> (#[trigger] after.owns_kind(m, d, mem_kind())
                <==> before.owns_kind(m, d, mem_kind())),
    ensures
        after.machines_whole(),
{
    assert forall|m: MachineId| #[trigger] after.known_machines.contains(m) implies after.has_sole(
        m,
        cpu_kind(),
    ) && after.has_sole(m, mem_kind()) by {
        assert(before.known_machines.contains(m));
        let c = before.the(m, cpu_kind());
        assert(before.sole(m, cpu_kind(), c));
        assert forall|d: DeviceId| #[trigger] after.owns_kind(m, d, cpu_kind()) <==> d == c by {
            assert(before.owns_kind(m, d, cpu_kind()) <==> d == c);
        }
        assert(after.sole(m, cpu_kind(), c));
        let e = before.the(m, mem_kind());
        assert(before.sole(m, mem_kind(), e));
        assert forall|d: DeviceId| #[trigger] after.owns_kind(m, d, mem_kind()) <==> d == e by {
            assert(before.owns_kind(m, d, mem_kind()) <==> d == e);
        }
        assert(after.sole(m, mem_kind(), e));
    }
}

/// Recording an attachment keeps the registry consistent and every kind as it
/// was.
pub proof fn lemma_attach_keeps(registry: Registry, machine: MachineId, device: DeviceId)
    requires
        registry.consistent(),
        registry.attach_verdict(machine, device) is Ok,
    ensures
        registry.apply(RegistryWrite::SetDevAttached(device, machine)).consistent(),
        kinds_stable(registry, registry.apply(RegistryWrite::SetDevAttached(device, machine))),
{
    let after = registry.apply(RegistryWrite::SetDevAttached(device, machine));
    lemma_machines_stay_whole(registry, after);
}

/// Recording a detachment keeps the registry consistent and every kind as it
/// was.
pub proof fn lemma_detach_keeps(registry: Registry, machine: MachineId, device: DeviceId)
    requires
        registry.consistent(),
        registry.detach_verdict(machine, device) is Ok,
    ensures
        registry.apply(RegistryWrite::DelDevAttached(device)).consistent(),
        kinds_stable(registry, registry.apply(RegistryWrite::DelDevAttached(device))),
{
    let after = registry.apply(RegistryWrite::DelDevAttached(device));
    lemma_machines_stay_whole(registry, after);
}

/// Setting the core count of a CPU device keeps the registry consistent.
pub proof fn lemma_set_cpu_keeps(registry: Registry, device: DeviceId, cores: u64)
    requires
        registry.consistent(),
        registry.resize_verdict(device, cpu_kind(), cores) is Ok,
    ensures
        registry.apply(RegistryWrite::SetDevCpu(device, cores)).consistent(),
        kinds_stable(registry, registry.apply(RegistryWrite::SetDevCpu(device, cores))),
{
    let after = registry.apply(RegistryWrite::SetDevCpu(device, cores));
    lemma_machines_stay_whole(registry, after);
}

/// Setting the size of a memory device keeps the registry consistent.
pub proof fn lemma_set_mem_keeps(registry: Registry, device: DeviceId, bytes: u64)
    requires
        registry.consistent(),
        registry.resize_verdict(device, mem_kind(), bytes) is Ok,
    ensures
        registry.apply(RegistryWrite::SetDevMem(device, bytes)).consistent(),
        kinds_stable(registry, registry.apply(RegistryWrite::SetDevMem(device, bytes))),
{
    let after = registry.apply(RegistryWrite::SetDevMem(device, bytes));
    lemma_machines_stay_whole(registry, after);
}

/// The registry after a block device has been registered.
pub open spec fn with_block(registry: Registry, device: DeviceId, bytes: u64) -> Registry {
    registry.apply(RegistryWrite::SetDevType(device, block_kind())).apply(
        RegistryWrite::SetDevBlockCap(device, bytes),
    )
}

/// The registry after a block device has been taken out.
pub open spec fn without_block(registry: Registry, device: DeviceId) -> Registry {
    registry.apply(RegistryWrite::DelDevType(device)).apply(RegistryWrite::DelDevBlockCap(device))
}

/// Registering a block device under an unused id keeps the registry consistent.
pub proof fn lemma_create_block_keeps(registry: Registry, device: DeviceId, bytes: u64)
    requires
        registry.consistent(),
        registry.new_device_verdict(device) is Ok,
    ensures
        with_block(registry, device, bytes).consistent(),
        kinds_stable(registry, with_block(registry, device, bytes)),
{
    let after = with_block(registry, device, bytes);
    lemma_machines_stay_whole(registry, after);
}

/// Taking an unowned block device out keeps the registry consistent.
pub proof fn lemma_delete_block_keeps(registry: Registry, device: DeviceId)
    requires
        registry.consistent(),
        registry.unowned_verdict(device, block_kind()) is Ok,
    ensures
        without_block(registry, device).consistent(),
        kinds_stable(registry, without_block(registry, device)),
{
    let after = without_block(registry, device);
    lemma_machines_stay_whole(registry, after);
}

/// Registering a NAT device under an unused id keeps the registry consistent.
pub proof fn lemma_create_nat_keeps(registry: Registry, device: DeviceId)
    requires
        registry.consistent(),
        registry.new_device_verdict(device) is Ok,
    ensures
        registry.apply(RegistryWrite::SetDevType(device, nat_kind())).consistent(),
        kinds_stable(registry, registry.apply(RegistryWrite::SetDevType(device, nat_kind()))),
{
    let after = registry.apply(RegistryWrite::SetDevType(device, nat_kind()));
    lemma_machines_stay_whole(registry, after);
}

/// Taking an unowned NAT device out keeps the registry consistent.
pub proof fn lemma_delete_nat_keeps(registry: Registry, device: DeviceId)
    requires
        registry.consistent(),
        registry.unowned_verdict(device, nat_kind()) is Ok,
    ensures
        registry.apply(RegistryWrite::DelDevType(device)).consistent(),
        kinds_stable(registry, registry.apply(RegistryWrite::DelDevType(device))),
{
    let after = registry.apply(RegistryWrite::DelDevType(device));
    lemma_machines_stay_whole(registry, after);
}

/// The registry after a machine has been registered with its two compute
/// devices.
pub open spec fn with_machine(registry: Registry, machine: MachineId, cpu: DeviceId, mem: DeviceId) -> Registry {
    Registry {
        dev_type: registry.dev_type.insert(mem, mem_kind()).insert(cpu, cpu_kind()),
        dev_attached: registry.dev_attached.insert(mem, machine).insert(cpu, machine),
        dev_cpu: registry.dev_cpu.insert(cpu, DEFAULT_CPU_CORES),
        dev_mem: registry.dev_mem.insert(mem, DEFAULT_MEM_BYTES),
        dev_block_cap: registry.dev_block_cap,
        known_machines: registry.known_machines.insert(machine),
    }
}

/// The registry after a machine has been taken out with its two compute
/// devices.
pub open spec fn without_machine(registry: Registry, machine: MachineId, cpu: DeviceId, mem: DeviceId) -> Registry {
    Registry {
        dev_type: registry.dev_type.remove(mem).remove(cpu),
        dev_attached: registry.dev_attached.remove(mem).remove(cpu),
        dev_cpu: registry.dev_cpu.remove(cpu),
        dev_mem: registry.dev_mem.remove(mem),
        dev_block_cap: registry.dev_block_cap,
        known_machines: registry.known_machines.remove(machine),
    }
}

/// The writes of a creation, made in their order, give the registry with the
/// machine in it.
pub proof fn lemma_create_journal(registry: Registry, machine: MachineId, cpu: DeviceId, mem: DeviceId)
    ensures
        registry.apply_all(create_journal(machine, cpu, mem)) == with_machine(
            registry,
            machine,
            cpu,
            mem,
        ),
{
    lemma_apply_all_seven(
        registry,
        RegistryWrite::SetDevType(mem, mem_kind()),
        RegistryWrite::SetDevAttached(mem, machine),
        RegistryWrite::SetDevMem(mem, DEFAULT_MEM_BYTES),
        RegistryWrite::SetDevType(cpu, cpu_kind()),
        RegistryWrite::SetDevAttached(cpu, machine),
        RegistryWrite::SetDevCpu(cpu, DEFAULT_CPU_CORES),
        RegistryWrite::SetKnownMachine(machine),
    );
}

/// The writes of a destruction, made in their order, give the registry without
/// the machine.
pub proof fn lemma_destroy_journal(registry: Registry, machine: MachineId, cpu: DeviceId, mem: DeviceId)
    ensures
        registry.apply_all(destroy_journal(machine, cpu, mem)) == without_machine(
            registry,
            machine,
            cpu,
            mem,
        ),
{
    lemma_apply_all_seven(
        registry,
        RegistryWrite::DelDevType(mem),
        RegistryWrite::DelDevAttached(mem),
        RegistryWrite::DelDevMem(mem),
        RegistryWrite::DelDevType(cpu),
        RegistryWrite::DelDevAttached(cpu),
        RegistryWrite::DelDevCpu(cpu),
        RegistryWrite::DelKnownMachine(machine),
    );
}

/// Registering a machine under unused ids keeps the registry consistent, and
/// the machine then owns its two compute devices and nothing else.
pub proof fn lemma_create_keeps(registry: Registry, machine: MachineId, cpu: DeviceId, mem: DeviceId)
    requires
        registry.consistent(),
        registry.create_verdict(machine, cpu, mem) is Ok,
    ensures
        with_machine(registry, machine, cpu, mem).consistent(),
        kinds_stable(registry, with_machine(registry, machine, cpu, mem)),
        with_machine(registry, machine, cpu, mem).sole(machine, cpu_kind(), cpu),
        with_machine(registry, machine, cpu, mem).sole(machine, mem_kind(), mem),
        forall|d: DeviceId| #[trigger]
            with_machine(registry, machine, cpu, mem).owns(machine, d) <==> d == cpu || d == mem,
{
    let after = with_machine(registry, machine, cpu, mem);
    assert forall|d: DeviceId| #[trigger] after.owns(machine, d) <==> d == cpu || d == mem by {
        if d != cpu && d != mem {
            assert(!registry.owns(machine, d));
        }
    }
    assert(after.sole(machine, cpu_kind(), cpu));
    assert(after.sole(machine, mem_kind(), mem));
    assert forall|m: MachineId| #[trigger] after.known_machines.contains(m) implies after.has_sole(
        m,
        cpu_kind(),
    ) && after.has_sole(m, mem_kind()) by {
        if m != machine {
            assert(registry.known_machines.contains(m));
            let c = registry.the(m, cpu_kind());
            assert(registry.sole(m, cpu_kind(), c));
            assert(registry.owns_kind(m, c, cpu_kind()));
            assert forall|d: DeviceId| #[trigger] after.owns_kind(m, d, cpu_kind()) <==> d == c by {
                assert(registry.owns_kind(m, d, cpu_kind()) <==> d == c);
            }
            assert(after.sole(m, cpu_kind(), c));
            let e = registry.the(m, mem_kind());
            assert(registry.sole(m, mem_kind(), e));
            assert(registry.owns_kind(m, e, mem_kind()));
            assert forall|d: DeviceId| #[trigger] after.owns_kind(m, d, mem_kind()) <==> d == e by {
                assert(registry.owns_kind(m, d, mem_kind()) <==> d == e);
            }
            assert(after.sole(m, mem_kind(), e));
        }
    }
    assert(after.devices_whole());
    assert(after.nothing_stray());
}

/// Taking out a machine that owns nothing but its two compute devices keeps
/// the registry consistent.
pub proof fn lemma_destroy_keeps(registry: Registry, machine: MachineId, status: Option<MachineState>)
    requires
        registry.consistent(),
        registry.forget_verdict(machine, status) is Ok,
    ensures
        without_machine(
            registry,
            machine,
            registry.the(machine, cpu_kind()),
            registry.the(machine, mem_kind()),
        ).consistent(),
        kinds_stable(
            registry,
            without_machine(
                registry,
                machine,
                registry.the(machine, cpu_kind()),
                registry.the(machine, mem_kind()),
            ),
        ),
        forall|d: DeviceId|
            !#[trigger] without_machine(
                registry,
                machine,
                registry.the(machine, cpu_kind()),
                registry.the(machine, mem_kind()),
            ).owns(machine, d),
{
    let cpu = registry.the(machine, cpu_kind());
    let mem = registry.the(machine, mem_kind());
    let after = without_machine(registry, machine, cpu, mem);
    assert(registry.known_machines.contains(machine));
    assert(registry.sole(machine, cpu_kind(), cpu));
    assert(registry.sole(machine, mem_kind(), mem));
    assert(registry.owns_kind(machine, cpu, cpu_kind()));
    assert(registry.owns_kind(machine, mem, mem_kind()));
    assert forall|d: DeviceId| registry.owns(machine, d) implies d == cpu || d == mem by {
        assert(registry.dev_attached.contains_key(d));
        assert(registry.dev_type.contains_key(d));
        if !registry.dev_type[d].is_compute() {
            assert(registry.is_attachment(machine, d));
        } else if registry.dev_type[d] == cpu_kind() {
            assert(registry.owns_kind(machine, d, cpu_kind()));
        } else {
            assert(registry.dev_type[d] == mem_kind());
            assert(registry.owns_kind(machine, d, mem_kind()));
        }
    }
    assert forall|d: DeviceId| !#[trigger] after.owns(machine, d) by {
        if after.owns(machine, d) {
            assert(registry.owns(machine, d));
        }
    }
    assert forall|m: MachineId, d: DeviceId| after.known_machines.contains(m) implies (
    #[trigger] after.owns_kind(m, d, cpu_kind()) <==> registry.owns_kind(m, d, cpu_kind())) by {
        if d == cpu || d == mem {
            assert(registry.owns(machine, d));
        }
    }
    assert forall|m: MachineId, d: DeviceId| after.known_machines.contains(m) implies (
    #[trigger] after.owns_kind(m, d, mem_kind()) <==> registry.owns_kind(m, d, mem_kind())) by {
        if d == cpu || d == mem {
            assert(registry.owns(machine, d));
        }
    }
    lemma_machines_stay_whole(registry, after);
    assert forall|d: DeviceId| #[trigger] after.dev_type.contains_key(d) implies after.device_whole(
        d,
    ) by {
        assert(registry.dev_type.contains_key(d));
        if registry.dev_type[d].is_compute() {
            assert(registry.dev_attached.contains_key(d));
            if registry.dev_attached[d] == machine {
                assert(registry.owns(machine, d));
            }
        }
    }
    assert(after.nothing_stray());
}

/// An operation keeps a consistent registry consistent, and leaves every
/// device that stays registered its kind.
pub proof fn law_step_keeps(registry: Registry, op: Operation)
    requires
        registry.consistent(),
    ensures
        registry.step(op).consistent(),
        kinds_stable(registry, registry.step(op)),
{
    if registry.journal(op) is Ok {
        match op {
            Operation::Create { machine, cpu, mem } => {
                lemma_create_journal(registry, machine, cpu, mem);
                lemma_create_keeps(registry, machine, cpu, mem);
            },
            Operation::Destroy { machine, status } => {
                lemma_destroy_journal(
                    registry,
                    machine,
                    registry.the(machine, cpu_kind()),
                    registry.the(machine, mem_kind()),
                );
                lemma_destroy_keeps(registry, machine, status);
            },
            Operation::Attach { machine, device } => {
                lemma_apply_all_one(registry, RegistryWrite::SetDevAttached(device, machine));
                lemma_attach_keeps(registry, machine, device);
            },
            Operation::Detach { machine, device } => {
                lemma_apply_all_one(registry, RegistryWrite::DelDevAttached(device));
                lemma_detach_keeps(registry, machine, device);
            },
            Operation::SetCpuCores { device, cores } => {
                lemma_apply_all_one(registry, RegistryWrite::SetDevCpu(device, cores));
                lemma_set_cpu_keeps(registry, device, cores);
            },
            Operation::SetMemBytes { device, bytes } => {
                lemma_apply_all_one(registry, RegistryWrite::SetDevMem(device, bytes));
                lemma_set_mem_keeps(registry, device, bytes);
            },
            Operation::CreateBlock { device, bytes } => {
                lemma_apply_all_two(
                    registry,
                    RegistryWrite::SetDevType(device, block_kind()),
                    RegistryWrite::SetDevBlockCap(device, bytes),
                );
                lemma_create_block_keeps(registry, device, bytes);
            },
            Operation::DeleteBlock { device } => {
                lemma_apply_all_two(
                    registry,
                    RegistryWrite::DelDevType(device),
                    RegistryWrite::DelDevBlockCap(device),
                );
                lemma_delete_block_keeps(registry, device);
            },
            Operation::CreateNat { device } => {
                lemma_apply_all_one(registry, RegistryWrite::SetDevType(device, nat_kind()));
                lemma_create_nat_keeps(registry, device);
            },
            Operation::DeleteNat { device } => {
                lemma_apply_all_one(registry, RegistryWrite::DelDevType(device));
                lemma_delete_nat_keeps(registry, device);
            },
        }
    }
}

/// Whatever operations are made, in whatever order, every known machine owns
/// exactly one CPU device and exactly one memory device after each of them.
pub proof fn law_machines_always_whole(registry: Registry, ops: Seq<Operation>)
    requires
        registry.consistent(),
    ensures
        registry.run(ops).consistent(),
        registry.run(ops).machines_whole(),
    decreases ops.len(),
{
    if ops.len() > 0 {
        law_machines_always_whole(registry, ops.drop_last());
        law_step_keeps(registry.run(ops.drop_last()), ops.last());
    }
}

/// Whether a device is registered after every prefix of a run of operations.
pub open spec fn registered_throughout(registry: Registry, ops: Seq<Operation>, device: DeviceId) -> bool {
    forall|n: int| 0 <= n <= ops.len() ==> #[trigger] registry.run(ops.take(n)).dev_type.contains_key(device)
}

/// A device keeps its kind for as long as it stays registered, whatever
/// operations are made.
pub proof fn law_kind_never_changes(registry: Registry, ops: Seq<Operation>, device: DeviceId)
    requires
        registry.consistent(),
        registered_throughout(registry, ops, device),
    ensures
        registry.run(ops).kind(device) == registry.kind(device),
    decreases ops.len(),
{
    assert(ops.take(0) == Seq::<Operation>::empty());
    assert(registry.run(ops.take(0)).dev_type.contains_key(device));
    assert(ops.take(ops.len() as int) == ops);
    assert(registry.run(ops.take(ops.len() as int)).dev_type.contains_key(device));
    if ops.len() > 0 {
        let shorter = ops.drop_last();
        assert forall|n: int| 0 <= n <= shorter.len() implies #[trigger] registry.run(
            shorter.take(n),
        ).dev_type.contains_key(device) by {
            assert(shorter.take(n) == ops.take(n));
        }
        law_kind_never_changes(registry, shorter, device);
        law_machines_always_whole(registry, shorter);
        law_step_keeps(registry.run(shorter), ops.last());
    }
}

/// A device that has been attached is not attached again: not to the machine
/// that owns it, which is told so, and not to another, which is told that
/// another machine owns it.
pub proof fn law_attach_twice(registry: Registry, first: MachineId, second: MachineId, device: DeviceId)
    requires
        registry.attach_verdict(first, device) is Ok,
    ensures
        registry.step(Operation::Attach { machine: first, device }).owner(device) == Some(first),
        registry.step(Operation::Attach { machine: first, device }).attach_verdict(second, device)
            == Err::<crate::client::edit::DomainEdit, EngineError>(
            EngineError::Conflict(
                if second == first {
                    Conflict::AttachedToThisMachine
                } else {
                    Conflict::AttachedToOtherMachine
                },
            ),
        ),
        registry.step(Operation::Attach { machine: first, device }).step(
            Operation::Attach { machine: second, device },
        ) == registry.step(Operation::Attach { machine: first, device }),
{
    lemma_apply_all_one(registry, RegistryWrite::SetDevAttached(device, first));
}

/// Of two attachments of one device, made one after the other in either
/// order, the first succeeds and the second is refused as a conflict: exactly
/// one machine becomes the owner.
pub proof fn law_one_attach_wins(registry: Registry, a: MachineId, b: MachineId, device: DeviceId)
    requires
        registry.attach_verdict(a, device) is Ok,
        registry.attach_verdict(b, device) is Ok,
    ensures
        registry.step(Operation::Attach { machine: a, device }).attach_verdict(b, device)
            matches Err(e) && e.is_conflict(),
        registry.step(Operation::Attach { machine: b, device }).attach_verdict(a, device)
            matches Err(e) && e.is_conflict(),
        registry.run(
            seq![Operation::Attach { machine: a, device }, Operation::Attach { machine: b, device }],
        ).owner(device) == Some(a),
        registry.run(
            seq![Operation::Attach { machine: b, device }, Operation::Attach { machine: a, device }],
        ).owner(device) == Some(b),
{
    law_attach_twice(registry, a, b, device);
    law_attach_twice(registry, b, a, device);
    lemma_run_two(
        registry,
        Operation::Attach { machine: a, device },
        Operation::Attach { machine: b, device },
    );
    lemma_run_two(
        registry,
        Operation::Attach { machine: b, device },
        Operation::Attach { machine: a, device },
    );
}

/// A run of two operations is the first, then the second.
pub proof fn lemma_run_two(registry: Registry, first: Operation, second: Operation)
    ensures
        registry.run(seq![first, second]) == registry.step(first).step(second),
{
    let ops = seq![first, second];
    assert(ops.drop_last() == seq![first]);
    assert(seq![first].drop_last() == Seq::<Operation>::empty());
    assert(registry.run(Seq::<Operation>::empty()) == registry);
    assert(registry.run(seq![first]) == registry.step(first));
}

/// A device that has no owner is not detached: the call fails, as not found
/// where the device is not registered and as a conflict where it is.
pub proof fn law_detach_unattached(registry: Registry, machine: MachineId, device: DeviceId)
    requires
        registry.owner(device) is None,
    ensures
        registry.detach_verdict(machine, device) == Err::<
            crate::client::edit::DomainEdit,
            EngineError,
        >(
            match registry.kind(device) {
                None => EngineError::NotFound(Missing::Device),
                Some(kind) => if kind.is_compute() {
                    EngineError::Conflict(Conflict::ComputeDevice)
                } else {
                    EngineError::Conflict(Conflict::NotAttached)
                },
            },
        ),
        registry.step(Operation::Detach { machine, device }) == registry,
{
}

/// Only the owner lets a device go: a detachment asked for by another machine
/// is refused, and names the owner.
pub proof fn law_detach_by_owner_only(registry: Registry, machine: MachineId, device: DeviceId)
    requires
        registry.kind(device) matches Some(kind) && !kind.is_compute(),
        registry.owner(device) matches Some(owner) && owner != machine,
    ensures
        registry.detach_verdict(machine, device) == Err::<
            crate::client::edit::DomainEdit,
            EngineError,
        >(EngineError::Conflict(Conflict::AttachedTo(registry.owner(device)->0))),
{
}

/// A device that has been detached has no owner, and can then be attached to
/// any machine, which becomes its owner.
pub proof fn law_detach_then_attach(registry: Registry, machine: MachineId, next: MachineId, device: DeviceId)
    requires
        registry.detach_verdict(machine, device) is Ok,
    ensures
        registry.step(Operation::Detach { machine, device }).owner(device) is None,
        registry.step(Operation::Detach { machine, device }).attach_verdict(next, device) is Ok,
        registry.step(Operation::Detach { machine, device }).step(
            Operation::Attach { machine: next, device },
        ).owner(device) == Some(next),
        registry.step(Operation::Detach { machine, device }).step(
            Operation::Attach { machine, device },
        ) == registry,
{
    let detached = registry.step(Operation::Detach { machine, device });
    lemma_apply_all_one(registry, RegistryWrite::DelDevAttached(device));
    lemma_apply_all_one(detached, RegistryWrite::SetDevAttached(device, next));
    lemma_apply_all_one(detached, RegistryWrite::SetDevAttached(device, machine));
    let back = detached.step(Operation::Attach { machine, device });
    assert(back.dev_attached =~= registry.dev_attached);
}

/// Compute devices never change owner: they are neither attached nor
/// detached.
pub proof fn law_compute_devices_stay(registry: Registry, machine: MachineId, device: DeviceId)
    requires
        registry.kind(device) matches Some(kind) && kind.is_compute(),
    ensures
        registry.attach_verdict(machine, device) == Err::<
            crate::client::edit::DomainEdit,
            EngineError,
        >(EngineError::Conflict(Conflict::ComputeDevice)),
        registry.detach_verdict(machine, device) == Err::<
            crate::client::edit::DomainEdit,
            EngineError,
        >(EngineError::Conflict(Conflict::ComputeDevice)),
{
}

/// A machine that has just been registered is known, and owns its CPU device
/// and its memory device and nothing else.
pub proof fn law_new_machine_owns_two(registry: Registry, machine: MachineId, cpu: DeviceId, mem: DeviceId)
    requires
        registry.consistent(),
        registry.create_verdict(machine, cpu, mem) is Ok,
    ensures
        registry.step(Operation::Create { machine, cpu, mem }).known_machines.contains(machine),
        registry.step(Operation::Create { machine, cpu, mem }).kind(cpu) == Some(cpu_kind()),
        registry.step(Operation::Create { machine, cpu, mem }).kind(mem) == Some(mem_kind()),
        cpu != mem,
        forall|d: DeviceId| #[trigger]
            registry.step(Operation::Create { machine, cpu, mem }).owns(machine, d) <==> d == cpu
                || d == mem,
{
    lemma_create_journal(registry, machine, cpu, mem);
    lemma_create_keeps(registry, machine, cpu, mem);
}

/// Only a machine that is off is destroyed: in any other state the call is
/// refused as a conflict, and the registry stays as it is.
pub proof fn law_destroy_needs_off(registry: Registry, machine: MachineId, state: MachineState)
    requires
        state != MachineState::Off,
    ensures
        registry.destroy_verdict(machine, Some(state)) == Err::<(), EngineError>(
            EngineError::Conflict(Conflict::MachineNotOff),
        ),
        registry.step(Operation::Destroy { machine, status: Some(state) }) == registry,
{
}

/// A machine that has been destroyed is not known any more and owns nothing.
pub proof fn law_destroyed_is_gone(registry: Registry, machine: MachineId, status: Option<MachineState>)
    requires
        registry.consistent(),
        registry.forget_verdict(machine, status) is Ok,
    ensures
        !registry.step(Operation::Destroy { machine, status }).known_machines.contains(machine),
        forall|d: DeviceId| !#[trigger] registry.step(Operation::Destroy { machine, status }).owns(
            machine,
            d,
        ),
{
    lemma_destroy_journal(
        registry,
        machine,
        registry.the(machine, cpu_kind()),
        registry.the(machine, mem_kind()),
    );
    lemma_destroy_keeps(registry, machine, status);
}

/// A block device that has just been registered has the size it was
/// registered with, and no owner.
pub proof fn law_new_block_has_its_size(registry: Registry, device: DeviceId, bytes: u64)
    requires
        registry.consistent(),
        registry.new_device_verdict(device) is Ok,
    ensures
        registry.step(Operation::CreateBlock { device, bytes }).kind(device) == Some(block_kind()),
        registry.step(Operation::CreateBlock { device, bytes }).dev_block_cap.contains_key(device),
        registry.step(Operation::CreateBlock { device, bytes }).dev_block_cap[device] == bytes,
        registry.step(Operation::CreateBlock { device, bytes }).owner(device) is None,
{
    lemma_apply_all_two(
        registry,
        RegistryWrite::SetDevType(device, block_kind()),
        RegistryWrite::SetDevBlockCap(device, bytes),
    );
}

} // verus!
