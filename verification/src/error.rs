//! The failures of the control plane.

use crate::client::device_type::{
    ComputeDeviceType, DeviceType, NetworkDeviceType, StorageDeviceType,
};
use crate::id::{hyphenated, id_text, MachineId};
use vstd::prelude::*;
use vstd::string::StringExecFns;

verus! {

/// What was looked for and not found.
#[derive(Debug, Clone, Copy, PartialEq, Eq, Structural)]
pub enum Missing {
    /// No device of that id is registered.
    Device,
    /// No machine of that id is known, or the hypervisor has no domain for it.
    Machine,
    /// The hypervisor holds no live descriptor for the machine.
    Descriptor,
}

/// An operation that would break an invariant of the registry.
#[derive(Debug, Clone, Copy, PartialEq, Eq, Structural)]
pub enum Conflict {
    /// Compute devices live and die with their machine.
    ComputeDevice,
    /// The device is already attached to the machine named in the call.
    AttachedToThisMachine,
    /// The device is already attached to another machine.
    AttachedToOtherMachine,
    /// The device is attached to no machine.
    NotAttached,
    /// The device is attached to the machine given here.
    AttachedTo(MachineId),
    /// The machine is not off.
    MachineNotOff,
    /// The device is not of the kind given here, which the call is for.
    WrongKind(DeviceType),
    /// A core count of zero.
    ZeroCores,
    /// A memory size of zero.
    ZeroBytes,
    /// A new id is already in use.
    IdInUse,
    /// The machine still owns devices that are not compute devices.
    DevicesAttached,
}

#[derive(Debug, Clone, Copy, PartialEq, Eq, Structural)]
pub enum EngineError {
    /// A device or machine id is unknown to the registry or the hypervisor.
    NotFound(Missing),
    /// An invariant would be violated.
    Conflict(Conflict),
    /// The hypervisor rejected a descriptor.
    InvalidConfiguration,
    /// The registry holds a device kind that cannot be read.
    Corruption,
    /// The hypervisor or a backing file operation failed.
    BackendFailure,
}

impl Missing {
    pub open spec fn message(self) -> Seq<char> {
        match self {
            Missing::Device => "could not find device"@,
            Missing::Machine => "machine does not exist"@,
            Missing::Descriptor => "cannot fetch domain"@,
        }
    }
}

impl Conflict {
    pub open spec fn message(self) -> Seq<char> {
        match self {
            Conflict::ComputeDevice => "cannot reassign compute devices"@,
            Conflict::AttachedToThisMachine => "device already attached to this machine"@,
            Conflict::AttachedToOtherMachine => "device already attached to other machine"@,
            Conflict::NotAttached => "device is not attached"@,
            Conflict::AttachedTo(machine) => "device is attached to "@ + id_text(machine),
            Conflict::MachineNotOff => "machine is not off"@,
            Conflict::WrongKind(DeviceType::Compute(ComputeDeviceType::Cpu)) => "device is not cpu"@,
            Conflict::WrongKind(DeviceType::Compute(ComputeDeviceType::Mem)) => "device is not memory"@,
            Conflict::WrongKind(DeviceType::Storage(StorageDeviceType::Block)) => "device was not a storage block"@,
            Conflict::WrongKind(DeviceType::Network(NetworkDeviceType::Nat)) => "device was not a nat network"@,
            Conflict::ZeroCores => "cores have to be above 0"@,
            Conflict::ZeroBytes => "memory bytes have to be above 0"@,
            Conflict::IdInUse => "id is already in use"@,
            Conflict::DevicesAttached => "machine still has devices attached"@,
        }
    }
}

impl EngineError {
    /// The text shown to a caller.
    pub open spec fn message(self) -> Seq<char> {
        match self {
            EngineError::NotFound(what) => what.message(),
            EngineError::Conflict(what) => what.message(),
            EngineError::InvalidConfiguration => "descriptor was rejected"@,
            EngineError::Corruption => "registry holds an unknown device type"@,
            EngineError::BackendFailure => "backend failure"@,
        }
    }

    pub open spec fn is_not_found(self) -> bool {
        self is NotFound
    }

    pub open spec fn is_conflict(self) -> bool {
        self is Conflict
    }

    /// The text shown to a caller.
    pub fn to_string(&self) -> (text: String)
        ensures
            text@ == self.message(),
    {
        match self {
            EngineError::NotFound(Missing::Device) => String::from_str("could not find device"),
            EngineError::NotFound(Missing::Machine) => String::from_str("machine does not exist"),
            EngineError::NotFound(Missing::Descriptor) => String::from_str("cannot fetch domain"),
            EngineError::Conflict(Conflict::ComputeDevice) => String::from_str(
                "cannot reassign compute devices",
            ),
            EngineError::Conflict(Conflict::AttachedToThisMachine) => String::from_str(
                "device already attached to this machine",
            ),
            EngineError::Conflict(Conflict::AttachedToOtherMachine) => String::from_str(
                "device already attached to other machine",
            ),
            EngineError::Conflict(Conflict::NotAttached) => String::from_str(
                "device is not attached",
            ),
            EngineError::Conflict(Conflict::AttachedTo(machine)) => {
                let owner = hyphenated(*machine);
                String::from_str("device is attached to ").concat(owner.as_str())
            },
            EngineError::Conflict(Conflict::MachineNotOff) => String::from_str(
                "machine is not off",
            ),
            EngineError::Conflict(
                Conflict::WrongKind(DeviceType::Compute(ComputeDeviceType::Cpu)),
            ) => String::from_str("device is not cpu"),
            EngineError::Conflict(
                Conflict::WrongKind(DeviceType::Compute(ComputeDeviceType::Mem)),
            ) => String::from_str("device is not memory"),
            EngineError::Conflict(
                Conflict::WrongKind(DeviceType::Storage(StorageDeviceType::Block)),
            ) => String::from_str("device was not a storage block"),
            EngineError::Conflict(
                Conflict::WrongKind(DeviceType::Network(NetworkDeviceType::Nat)),
            ) => String::from_str("device was not a nat network"),
            EngineError::Conflict(Conflict::ZeroCores) => String::from_str(
                "cores have to be above 0",
            ),
            EngineError::Conflict(Conflict::ZeroBytes) => String::from_str(
                "memory bytes have to be above 0",
            ),
            EngineError::Conflict(Conflict::IdInUse) => String::from_str("id is already in use"),
            EngineError::Conflict(Conflict::DevicesAttached) => String::from_str(
                "machine still has devices attached",
            ),
            EngineError::InvalidConfiguration => String::from_str("descriptor was rejected"),
            EngineError::Corruption => String::from_str("registry holds an unknown device type"),
            EngineError::BackendFailure => String::from_str("backend failure"),
        }
    }
}

} // verus!
