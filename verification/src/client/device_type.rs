//! The kinds of device and the names under which they are stored and shown.

use crate::text::same_str;
use vstd::prelude::*;
use vstd::string::StringExecFns;

verus! {

#[derive(Debug, Clone, Copy, PartialEq, Eq, Structural)]
pub enum ComputeDeviceType {
    Cpu,
    Mem,
}

#[derive(Debug, Clone, Copy, PartialEq, Eq, Structural)]
pub enum StorageDeviceType {
    Block,
}

#[derive(Debug, Clone, Copy, PartialEq, Eq, Structural)]
pub enum NetworkDeviceType {
    Nat,
}

#[derive(Debug, Clone, Copy, PartialEq, Eq, Structural)]
pub enum DeviceType {
    Compute(ComputeDeviceType),
    Storage(StorageDeviceType),
    Network(NetworkDeviceType),
}

impl DeviceType {
    /// The name of a kind, as it is stored and shown.
    pub open spec fn wire(self) -> Seq<char> {
        match self {
            DeviceType::Compute(ComputeDeviceType::Cpu) => "is.compute.cpu"@,
            DeviceType::Compute(ComputeDeviceType::Mem) => "is.compute.mem"@,
            DeviceType::Storage(StorageDeviceType::Block) => "is.storage.block"@,
            DeviceType::Network(NetworkDeviceType::Nat) => "is.network.nat"@,
        }
    }

    /// The kind that a name stands for, if it stands for one.
    pub open spec fn from_wire(s: Seq<char>) -> Option<DeviceType> {
        if s == "is.compute.cpu"@ {
            Some(DeviceType::Compute(ComputeDeviceType::Cpu))
        } else if s == "is.compute.mem"@ {
            Some(DeviceType::Compute(ComputeDeviceType::Mem))
        } else if s == "is.storage.block"@ {
            Some(DeviceType::Storage(StorageDeviceType::Block))
        } else if s == "is.network.nat"@ {
            Some(DeviceType::Network(NetworkDeviceType::Nat))
        } else {
            None
        }
    }

    pub open spec fn is_compute(self) -> bool {
        self is Compute
    }

    pub fn parse_str(s: &str) -> (kind: Option<DeviceType>)
        ensures
            kind == DeviceType::from_wire(s@),
    {
        if same_str(s, "is.compute.cpu") {
            Some(DeviceType::Compute(ComputeDeviceType::Cpu))
        } else if same_str(s, "is.compute.mem") {
            Some(DeviceType::Compute(ComputeDeviceType::Mem))
        } else if same_str(s, "is.storage.block") {
            Some(DeviceType::Storage(StorageDeviceType::Block))
        } else if same_str(s, "is.network.nat") {
            Some(DeviceType::Network(NetworkDeviceType::Nat))
        } else {
            None
        }
    }

    pub fn to_string(self) -> (name: String)
        ensures
            name@ == self.wire(),
    {
        match self {
            DeviceType::Compute(ComputeDeviceType::Cpu) => String::from_str("is.compute.cpu"),
            DeviceType::Compute(ComputeDeviceType::Mem) => String::from_str("is.compute.mem"),
            DeviceType::Storage(StorageDeviceType::Block) => String::from_str("is.storage.block"),
            DeviceType::Network(NetworkDeviceType::Nat) => String::from_str("is.network.nat"),
        }
    }
}

/// The four names differ from one another.
pub proof fn lemma_wire_names_differ()
    ensures
        "is.compute.cpu"@ != "is.compute.mem"@,
        "is.compute.cpu"@ != "is.storage.block"@,
        "is.compute.cpu"@ != "is.network.nat"@,
        "is.compute.mem"@ != "is.storage.block"@,
        "is.compute.mem"@ != "is.network.nat"@,
        "is.storage.block"@ != "is.network.nat"@,
{
    reveal_strlit("is.compute.cpu");
    reveal_strlit("is.compute.mem");
    reveal_strlit("is.storage.block");
    reveal_strlit("is.network.nat");
    assert("is.compute.cpu"@[11] == 'c');
    assert("is.compute.mem"@[11] == 'm');
    assert("is.network.nat"@[3] == 'n');
    assert("is.compute.cpu"@[3] == 'c');
    assert("is.compute.mem"@[3] == 'c');
    assert("is.storage.block"@.len() == 16);
    assert("is.network.nat"@.len() == 14);
}

/// Reading the name of a kind gives the kind back.
pub proof fn law_parse_of_name(kind: DeviceType)
    ensures
        DeviceType::from_wire(kind.wire()) == Some(kind),
{
    lemma_wire_names_differ();
}

/// A text that is read as a kind is the name of that kind.
pub proof fn law_name_of_parse(s: Seq<char>)
    ensures
        DeviceType::from_wire(s) matches Some(kind) ==> kind.wire() == s,
{
}

/// Two kinds with the same name are the same kind.
pub proof fn law_names_are_distinct(a: DeviceType, b: DeviceType)
    ensures
        a.wire() == b.wire() ==> a == b,
{
    lemma_wire_names_differ();
}

} // verus!
