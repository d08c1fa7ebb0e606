//! Machines: the descriptor of a new one, and the states the hypervisor knows.

use crate::api::{MachineAction, MachineState};
use crate::client::rules::{DEFAULT_CPU_CORES, DEFAULT_MEM_BYTES};
use crate::id::{hyphenated, id_text, MachineId};
use crate::xml::domain::{
    Devices, Disk, DiskBoot, DiskDevice, DiskTarget, DiskType, Domain, Empty, Graphics,
    GraphicsListener, Memory, OSType, OperatingSystem, Unit, VCpu,
};
use vstd::prelude::*;
use vstd::string::StringExecFns;

verus! {

/// The states of a domain, by the numbers the hypervisor gives them.
pub const VIR_DOMAIN_NOSTATE: u32 = 0;

pub const VIR_DOMAIN_RUNNING: u32 = 1;

pub const VIR_DOMAIN_BLOCKED: u32 = 2;

pub const VIR_DOMAIN_PAUSED: u32 = 3;

pub const VIR_DOMAIN_SHUTDOWN: u32 = 4;

pub const VIR_DOMAIN_SHUTOFF: u32 = 5;

pub const VIR_DOMAIN_CRASHED: u32 = 6;

pub const VIR_DOMAIN_PMSUSPENDED: u32 = 7;

/// The emulator that runs a new machine.
pub const EMULATOR: &'static str = "/usr/bin/qemu-system-x86_64";

/// Whether a number is one of the states of a domain.
pub open spec fn is_domain_state(state: u32) -> bool {
    state <= VIR_DOMAIN_PMSUSPENDED
}

/// The state that callers see for a state of the hypervisor. A domain that is
/// shutting down still counts as running; one that is blocked counts as failed,
/// as does one that has crashed.
pub open spec fn machine_state(state: u32) -> MachineState {
    if state == VIR_DOMAIN_NOSTATE {
        MachineState::Off
    } else if state == VIR_DOMAIN_RUNNING {
        MachineState::Running
    } else if state == VIR_DOMAIN_BLOCKED {
        MachineState::Error
    } else if state == VIR_DOMAIN_PAUSED {
        MachineState::Suspended
    } else if state == VIR_DOMAIN_SHUTDOWN {
        MachineState::Running
    } else if state == VIR_DOMAIN_SHUTOFF {
        MachineState::Off
    } else if state == VIR_DOMAIN_CRASHED {
        MachineState::Error
    } else {
        MachineState::Suspended
    }
}

/// Whether a number is one of the states of a domain.
pub fn known_domain_state(state: u32) -> (known: bool)
    ensures
        known == is_domain_state(state),
{
    state <= VIR_DOMAIN_PMSUSPENDED
}

/// The state that callers see for a state of the hypervisor.
pub fn virt_domainstate_to_istruct(state: u32) -> (seen: MachineState)
    requires
        is_domain_state(state),
    ensures
        seen == machine_state(state),
{
    if state == VIR_DOMAIN_NOSTATE {
        MachineState::Off
    } else if state == VIR_DOMAIN_RUNNING {
        MachineState::Running
    } else if state == VIR_DOMAIN_BLOCKED {
        MachineState::Error
    } else if state == VIR_DOMAIN_PAUSED {
        MachineState::Suspended
    } else if state == VIR_DOMAIN_SHUTDOWN {
        MachineState::Running
    } else if state == VIR_DOMAIN_SHUTOFF {
        MachineState::Off
    } else if state == VIR_DOMAIN_CRASHED {
        MachineState::Error
    } else {
        MachineState::Suspended
    }
}

/// The mapping of states is fixed: each state of the hypervisor has one state
/// that callers see.
pub proof fn law_status_mapping()
    ensures
        machine_state(VIR_DOMAIN_NOSTATE) == MachineState::Off,
        machine_state(VIR_DOMAIN_RUNNING) == MachineState::Running,
        machine_state(VIR_DOMAIN_BLOCKED) == MachineState::Error,
        machine_state(VIR_DOMAIN_PAUSED) == MachineState::Suspended,
        machine_state(VIR_DOMAIN_SHUTDOWN) == MachineState::Running,
        machine_state(VIR_DOMAIN_SHUTOFF) == MachineState::Off,
        machine_state(VIR_DOMAIN_CRASHED) == MachineState::Error,
        machine_state(VIR_DOMAIN_PMSUSPENDED) == MachineState::Suspended,
        forall|state: u32|
            is_domain_state(state) <==> state == VIR_DOMAIN_NOSTATE || state == VIR_DOMAIN_RUNNING
                || state == VIR_DOMAIN_BLOCKED || state == VIR_DOMAIN_PAUSED || state
                == VIR_DOMAIN_SHUTDOWN || state == VIR_DOMAIN_SHUTOFF || state == VIR_DOMAIN_CRASHED
                || state == VIR_DOMAIN_PMSUSPENDED,
{
}

/// The calls by which the hypervisor is told to change the state of a domain.
#[derive(Debug, Clone, Copy, PartialEq, Eq, Structural)]
pub enum LifecycleCall {
    /// Stop the domain at once, giving it the chance to end cleanly.
    DestroyGraceful,
    /// Reset the domain at once.
    Reset,
    /// Ask the guest to shut down.
    Shutdown,
    /// Pause the domain.
    Suspend,
    /// Let a paused domain go on.
    Resume,
    /// Start the domain.
    Create,
}

/// The call that an action stands for.
pub open spec fn lifecycle_call(action: MachineAction) -> LifecycleCall {
    match action {
        MachineAction::ForceShutdown => LifecycleCall::DestroyGraceful,
        MachineAction::ForceReset => LifecycleCall::Reset,
        MachineAction::Shutdown => LifecycleCall::Shutdown,
        MachineAction::Suspend => LifecycleCall::Suspend,
        MachineAction::Resume => LifecycleCall::Resume,
        MachineAction::Boot => LifecycleCall::Create,
    }
}

/// Whether a descriptor is that of a new machine: a KVM domain named after the
/// machine, with one virtual CPU, 128 MiB of memory, an empty CD-ROM drive to
/// boot from and a SPICE display, and nothing else.
pub open spec fn is_default_domain(domain: Domain, machine: MachineId) -> bool {
    &&& domain.typ@ == "kvm"@
    &&& domain.id is None
    &&& domain.name@ == id_text(machine)
    &&& domain.uuid == Some(machine)
    &&& domain.genid is None
    &&& domain.title is None
    &&& domain.description is None
    &&& domain.memory.unit == Unit::Bytes
    &&& domain.memory.dump_core is None
    &&& domain.memory.amount == DEFAULT_MEM_BYTES
    &&& domain.max_memory is None
    &&& domain.current_memory is None
    &&& domain.vcpu.placement is None
    &&& domain.vcpu.cpuset is None
    &&& domain.vcpu.amount == DEFAULT_CPU_CORES
    &&& domain.os.firmware is None
    &&& domain.os.typ.arch is None
    &&& domain.os.typ.machine is None
    &&& domain.os.typ.hypervisor@ == "hvm"@
    &&& domain.features is None
    &&& domain.devices.emulator@ == EMULATOR@
    &&& domain.devices.disks@.len() == 1
    &&& domain.devices.disks@[0].is_boot_cdrom()
    &&& domain.devices.controllers@.len() == 0
    &&& domain.devices.interfaces@.len() == 0
    &&& domain.devices.parallels@.len() == 0
    &&& domain.devices.serials@.len() == 0
    &&& domain.devices.consoles@.len() == 0
    &&& domain.devices.channels@.len() == 0
    &&& domain.devices.inputs@.len() == 0
    &&& domain.devices.graphics@.len() == 1
    &&& domain.devices.graphics@[0].is_spice()
}

/// The descriptor of a new machine.
pub fn default_domain(machine: MachineId) -> (domain: Domain)
    ensures
        is_default_domain(domain, machine),
{
    let mut readonly: Vec<Empty> = Vec::new();
    readonly.push(Empty::new());
    let cdrom = Disk {
        typ: DiskType::File,
        device: Some(DiskDevice::CDROM),
        driver: None,
        source: None,
        target: Some(
            DiskTarget {
                dev: String::from_str("sda"),
                bus: Some(String::from_str("sata")),
                tray: None,
                removable: None,
                rotation_rate: None,
            },
        ),
        boot: Some(DiskBoot { order: 1, loadparm: None }),
        readonly: readonly,
        shareable: Vec::new(),
        serial: None,
        wwn: None,
        vendor: None,
        product: None,
        address: None,
    };
    let mut disks: Vec<Disk> = Vec::new();
    disks.push(cdrom);
    let mut listeners: Vec<GraphicsListener> = Vec::new();
    listeners.push(GraphicsListener { typ: Some(String::from_str("address")) });
    let display = Graphics {
        typ: Some(String::from_str("spice")),
        port: None,
        tls_port: None,
        auto_port: Some(String::from_str("yes")),
        listeners: listeners,
        image: None,
        streaming: None,
        gl: None,
    };
    let mut graphics: Vec<Graphics> = Vec::new();
    graphics.push(display);
    Domain {
        typ: String::from_str("kvm"),
        id: None,
        name: hyphenated(machine),
        uuid: Some(machine),
        genid: None,
        title: None,
        description: None,
        memory: Memory { unit: Unit::Bytes, dump_core: None, amount: DEFAULT_MEM_BYTES },
        max_memory: None,
        current_memory: None,
        vcpu: VCpu { placement: None, cpuset: None, amount: DEFAULT_CPU_CORES },
        os: OperatingSystem {
            firmware: None,
            typ: OSType { arch: None, machine: None, hypervisor: String::from_str("hvm") },
        },
        features: None,
        devices: Devices {
            emulator: String::from_str(EMULATOR),
            disks: disks,
            controllers: Vec::new(),
            interfaces: Vec::new(),
            parallels: Vec::new(),
            serials: Vec::new(),
            consoles: Vec::new(),
            channels: Vec::new(),
            inputs: Vec::new(),
            graphics: graphics,
        },
    }
}

} // verus!
