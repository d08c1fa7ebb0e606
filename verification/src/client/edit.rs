//! The edits that the control plane makes to a machine's domain descriptor.

use crate::client::disk_letter::{calculate_next_vd, next_vd};
use crate::error::{EngineError, Missing};
use crate::id::{hyphenated, id_text, DeviceId};
use crate::text::{chars_of, contains_chars, contains_text, occurs_at, same_str};
use crate::xml::domain::{
    Devices, Disk, DiskDriver, DiskTarget, DiskType, Domain, Memory, NetworkInterface,
    NetworkSource, Source, Unit, VCpu,
};
use vstd::prelude::*;
use vstd::string::StringExecFns;

verus! {

/// The name of the virtual network that all NAT devices share.
pub const NAT_NETWORK: &'static str = "istruct_nat";

/// One edit of a domain descriptor.
#[derive(Debug, Clone, Copy, PartialEq, Eq, Structural)]
pub enum DomainEdit {
    /// Add the backing file of a block device as a disk.
    AttachBlock(DeviceId),
    /// Take out the disks whose backing file is that of a block device.
    DetachBlock(DeviceId),
    /// Add an interface on the shared NAT network.
    AttachNat,
    /// Take out the interfaces on the shared NAT network.
    DetachNat,
    /// Set the number of virtual CPUs.
    SetCpuCores(u64),
    /// Set the memory size, in bytes.
    SetMemBytes(u64),
}

/// The name of the backing file of a block device.
pub open spec fn block_file_name(device: DeviceId) -> Seq<char> {
    "block_"@ + id_text(device) + ".qcow2"@
}

/// The path of the backing file of a block device, below the directory `dir`.
pub open spec fn block_path(dir: Seq<char>, device: DeviceId) -> Seq<char> {
    if dir.len() == 0 {
        block_file_name(device)
    } else if dir.last() == '/' {
        dir + block_file_name(device)
    } else {
        dir + "/"@ + block_file_name(device)
    }
}

/// The disks that stay when those of a block device leave.
pub open spec fn disk_stays(id: Seq<char>) -> spec_fn(Disk) -> bool {
    |disk: Disk| !disk.names_file_with(id)
}

/// The interfaces that stay when those on a network leave.
pub open spec fn interface_stays(network: Seq<char>) -> spec_fn(NetworkInterface) -> bool {
    |interface: NetworkInterface| !interface.is_bound_to(network)
}

/// Whether `after` is `before` with one more disk at the end: the backing file
/// `file`, under the next free `vd` name.
pub open spec fn block_disk_added(before: Seq<Disk>, file: Seq<char>, after: Seq<Disk>) -> bool {
    &&& after.len() == before.len() + 1
    &&& after.drop_last() == before
    &&& exists|name: Seq<char>| next_vd(before, name) && after.last().is_block_disk(file, name)
}

/// Whether `after` is `before` with one more interface at the end, on the
/// shared NAT network.
pub open spec fn nat_interface_added(
    before: Seq<NetworkInterface>,
    after: Seq<NetworkInterface>,
) -> bool {
    &&& after.len() == before.len() + 1
    &&& after.drop_last() == before
    &&& after.last().is_on_network(NAT_NETWORK@)
}

impl DomainEdit {
    /// Whether the shared NAT network has to exist before the edit is made.
    pub open spec fn needs_nat_network(self) -> bool {
        self is AttachNat
    }

    /// Whether the edit turns the descriptor `before` into `after`, where the
    /// backing files of block devices lie below the directory `dir`.
    pub open spec fn turns(self, dir: Seq<char>, before: Domain, after: Domain) -> bool {
        match self {
            DomainEdit::AttachBlock(device) => {
                &&& after == (Domain {
                    devices: Devices { disks: after.devices.disks, ..before.devices },
                    ..before
                })
                &&& block_disk_added(
                    before.devices.disks@,
                    block_path(dir, device),
                    after.devices.disks@,
                )
            },
            DomainEdit::DetachBlock(device) => {
                &&& after == (Domain {
                    devices: Devices { disks: after.devices.disks, ..before.devices },
                    ..before
                })
                &&& after.devices.disks@ == before.devices.disks@.filter(disk_stays(id_text(device)))
            },
            DomainEdit::AttachNat => {
                &&& after == (Domain {
                    devices: Devices { interfaces: after.devices.interfaces, ..before.devices },
                    ..before
                })
                &&& nat_interface_added(before.devices.interfaces@, after.devices.interfaces@)
            },
            DomainEdit::DetachNat => {
                &&& after == (Domain {
                    devices: Devices { interfaces: after.devices.interfaces, ..before.devices },
                    ..before
                })
                &&& after.devices.interfaces@ == before.devices.interfaces@.filter(
                    interface_stays(NAT_NETWORK@),
                )
            },
            DomainEdit::SetCpuCores(cores) => after == (Domain {
                vcpu: VCpu { amount: cores, ..before.vcpu },
                ..before
            }),
            DomainEdit::SetMemBytes(bytes) => after == (Domain {
                memory: Memory { amount: bytes, unit: Unit::Bytes, ..before.memory },
                current_memory: None,
                ..before
            }),
        }
    }

    /// Whether the shared NAT network has to exist before the edit is made.
    pub fn requires_nat_network(&self) -> (needed: bool)
        ensures
            needed == self.needs_nat_network(),
    {
        match self {
            DomainEdit::AttachNat => true,
            _ => false,
        }
    }
}

/// The path of the backing file of a block device: `block_<id>.qcow2` below the
/// directory `dir`.
pub fn path_for_block_device(dir: &str, dev: DeviceId) -> (path: String)
    ensures
        path@ == block_path(dir@, dev),
{
    let id = hyphenated(dev);
    let name = String::from_str("block_").concat(id.as_str()).concat(".qcow2");
    let dir_chars = chars_of(dir);
    if dir_chars.len() == 0 {
        name
    } else if dir_chars[dir_chars.len() - 1] == '/' {
        String::from_str(dir).concat(name.as_str())
    } else {
        String::from_str(dir).concat("/").concat(name.as_str())
    }
}

/// Adds the backing file `file` as a disk, under the next free `vd` name, on the
/// IDE bus, in the qcow2 format.
pub fn attach_block_disk(disks: &mut Vec<Disk>, file: &str)
    ensures
        block_disk_added(old(disks)@, file@, final(disks)@),
{
    let name = calculate_next_vd(disks.as_slice());
    let ghost before = disks@;
    let ghost dev = name@;
    let disk = Disk {
        typ: DiskType::File,
        device: None,
        driver: Some(
            DiskDriver {
                name: String::from_str("qemu"),
                typ: Some(String::from_str("qcow2")),
                cache: None,
                error_policy: None,
                read_error_policy: None,
                io: None,
                ioeventfd: None,
                event_idx: None,
                copy_on_read: None,
                discard: None,
                detect_zeroes: None,
                iommu: None,
                ats: None,
                packed: None,
                page_per_vq: None,
            },
        ),
        source: Some(Source::file(file)),
        target: Some(
            DiskTarget {
                dev: name,
                bus: Some(String::from_str("ide")),
                tray: None,
                removable: None,
                rotation_rate: None,
            },
        ),
        boot: None,
        readonly: Vec::new(),
        shareable: Vec::new(),
        serial: None,
        wwn: None,
        vendor: None,
        product: None,
        address: None,
    };
    assert(disk.is_block_disk(file@, dev));
    disks.push(disk);
    assert(disks@.drop_last() == before);
    assert(next_vd(before, dev) && disks@.last().is_block_disk(file@, dev));
}

/// Whether the backing file of a disk has the characters `id` in its name.
fn disk_names(disk: &Disk, id: &Vec<char>) -> (named: bool)
    ensures
        named == disk.names_file_with(id@),
{
    match &disk.source {
        Some(source) => match &source.file {
            Some(file) => {
                let file_chars = chars_of(file.as_str());
                contains_chars(&file_chars, id)
            },
            None => false,
        },
        None => false,
    }
}

/// Takes out the disks whose backing file has the id of `dev` in its name.
pub fn detach_block_disk(disks: Vec<Disk>, dev: DeviceId) -> (kept: Vec<Disk>)
    ensures
        kept@ == disks@.filter(disk_stays(id_text(dev))),
{
    let id = hyphenated(dev);
    let id_chars = chars_of(id.as_str());
    let ghost stays = disk_stays(id_text(dev));
    let mut kept: Vec<Disk> = Vec::new();
    assert(disks@.take(0).filter(stays) == Seq::<Disk>::empty()) by {
        reveal(Seq::filter);
    }
    for disk in it: disks
        invariant
            id_chars@ == id_text(dev),
            stays == disk_stays(id_text(dev)),
            it.seq() == disks@,
            kept@ == disks@.take(it.index() as int).filter(stays),
    {
        proof {
            let i = it.index() as int;
            assert(disks@.take(i + 1) == disks@.take(i).push(disks@[i]));
            disks@.take(i).lemma_filter_push(disks@[i], stays);
        }
        if !disk_names(&disk, &id_chars) {
            kept.push(disk);
        }
    }
    assert(disks@.take(disks@.len() as int) == disks@);
    kept
}

/// Adds an interface on the shared NAT network.
pub fn attach_nat_interface(interfaces: &mut Vec<NetworkInterface>)
    ensures
        nat_interface_added(old(interfaces)@, final(interfaces)@),
{
    let ghost before = interfaces@;
    let interface = NetworkInterface {
        typ: String::from_str("network"),
        mac: None,
        source: Some(NetworkSource { bridge: None, network: Some(String::from_str(NAT_NETWORK)) }),
        model: None,
        address: None,
    };
    interfaces.push(interface);
    assert(interfaces@.drop_last() == before);
}

/// Whether an interface is bound to the shared NAT network.
fn on_nat_network(interface: &NetworkInterface) -> (bound: bool)
    ensures
        bound == interface.is_bound_to(NAT_NETWORK@),
{
    match &interface.source {
        Some(source) => match &source.network {
            Some(name) => same_str(name.as_str(), NAT_NETWORK),
            None => false,
        },
        None => false,
    }
}

/// Takes out the interfaces on the shared NAT network.
pub fn detach_nat_interfaces(interfaces: Vec<NetworkInterface>) -> (kept: Vec<NetworkInterface>)
    ensures
        kept@ == interfaces@.filter(interface_stays(NAT_NETWORK@)),
{
    let ghost stays = interface_stays(NAT_NETWORK@);
    let mut kept: Vec<NetworkInterface> = Vec::new();
    assert(interfaces@.take(0).filter(stays) == Seq::<NetworkInterface>::empty()) by {
        reveal(Seq::filter);
    }
    for interface in it: interfaces
        invariant
            stays == interface_stays(NAT_NETWORK@),
            it.seq() == interfaces@,
            kept@ == interfaces@.take(it.index() as int).filter(stays),
    {
        proof {
            let i = it.index() as int;
            assert(interfaces@.take(i + 1) == interfaces@.take(i).push(interfaces@[i]));
            interfaces@.take(i).lemma_filter_push(interfaces@[i], stays);
        }
        if !on_nat_network(&interface) {
            kept.push(interface);
        }
    }
    assert(interfaces@.take(interfaces@.len() as int) == interfaces@);
    kept
}

/// Makes one edit to a descriptor.
pub fn apply_edit(domain: Domain, change: DomainEdit, block_dir: &str) -> (after: Domain)
    ensures
        change.turns(block_dir@, domain, after),
{
    match change {
        DomainEdit::AttachBlock(device) => {
            let file = path_for_block_device(block_dir, device);
            let mut devices = domain.devices;
            let mut disks = devices.disks;
            attach_block_disk(&mut disks, file.as_str());
            Domain { devices: Devices { disks: disks, ..devices }, ..domain }
        },
        DomainEdit::DetachBlock(device) => {
            let devices = domain.devices;
            let disks = detach_block_disk(devices.disks, device);
            Domain { devices: Devices { disks: disks, ..devices }, ..domain }
        },
        DomainEdit::AttachNat => {
            let devices = domain.devices;
            let mut interfaces = devices.interfaces;
            attach_nat_interface(&mut interfaces);
            Domain { devices: Devices { interfaces: interfaces, ..devices }, ..domain }
        },
        DomainEdit::DetachNat => {
            let devices = domain.devices;
            let interfaces = detach_nat_interfaces(devices.interfaces);
            Domain { devices: Devices { interfaces: interfaces, ..devices }, ..domain }
        },
        DomainEdit::SetCpuCores(cores) => {
            Domain { vcpu: VCpu { amount: cores, ..domain.vcpu }, ..domain }
        },
        DomainEdit::SetMemBytes(bytes) => {
            Domain {
                memory: Memory { amount: bytes, unit: Unit::Bytes, ..domain.memory },
                current_memory: None,
                ..domain
            }
        },
    }
}

/// Edits the live descriptor of a machine. Where the hypervisor holds none for
/// it, there is nothing to edit.
pub fn edit(live: Option<Domain>, change: DomainEdit, block_dir: &str) -> (edited: Result<
    Domain,
    EngineError,
>)
    ensures
        match live {
            Some(before) => edited matches Ok(after) && change.turns(block_dir@, before, after),
            None => edited == Err::<Domain, EngineError>(EngineError::NotFound(Missing::Descriptor)),
        },
{
    match live {
        Some(domain) => Ok(apply_edit(domain, change, block_dir)),
        None => Err(EngineError::NotFound(Missing::Descriptor)),
    }
}

/// The path of the backing file of a block device has the id of the device in
/// it.
pub proof fn lemma_block_path_names_device(dir: Seq<char>, device: DeviceId)
    ensures
        contains_text(block_path(dir, device), id_text(device)),
{
    reveal_strlit("block_");
    reveal_strlit(".qcow2");
    reveal_strlit("/");
    let path = block_path(dir, device);
    let id = id_text(device);
    let at: int = if dir.len() == 0 {
        6
    } else if dir.last() == '/' {
        dir.len() as int + 6
    } else {
        dir.len() as int + 7
    };
    assert(path.subrange(at, at + id.len()) == id);
    assert(occurs_at(path, id, at));
}

/// A run of which every element passes a test stays whole when it is
/// filtered by the test.
pub proof fn lemma_filter_keeps_all<A>(run: Seq<A>, test: spec_fn(A) -> bool)
    requires
        forall|i: int| 0 <= i < run.len() ==> test(#[trigger] run[i]),
    ensures
        run.filter(test) == run,
    decreases run.len(),
{
    reveal(Seq::filter);
    if run.len() > 0 {
        lemma_filter_keeps_all(run.drop_last(), test);
        assert(run.drop_last().push(run.last()) == run);
    }
}

/// Detaching a block device takes back what attaching it added: where no
/// other disk of the descriptor has the id of the device in the name of its
/// backing file, the disks are as they were before.
pub proof fn law_detach_block_undoes_attach(
    dir: Seq<char>,
    device: DeviceId,
    before: Domain,
    attached: Domain,
    detached: Domain,
)
    requires
        forall|i: int|
            0 <= i < before.devices.disks@.len() ==> !(#[trigger] before.devices.disks@[i]).names_file_with(
                id_text(device),
            ),
        DomainEdit::AttachBlock(device).turns(dir, before, attached),
        DomainEdit::DetachBlock(device).turns(dir, attached, detached),
    ensures
        attached.devices.disks@.len() == before.devices.disks@.len() + 1,
        detached.devices.disks@ == before.devices.disks@,
{
    let stays = disk_stays(id_text(device));
    let disks = before.devices.disks@;
    let more = attached.devices.disks@;
    lemma_block_path_names_device(dir, device);
    assert(more.last().names_file_with(id_text(device)));
    assert(more == disks.push(more.last()));
    disks.lemma_filter_push(more.last(), stays);
    lemma_filter_keeps_all(disks, stays);
}

/// Detaching a NAT device takes back what attaching it added: where no other
/// interface of the descriptor is bound to the shared NAT network, the
/// interfaces are as they were before.
pub proof fn law_detach_nat_undoes_attach(
    dir: Seq<char>,
    before: Domain,
    attached: Domain,
    detached: Domain,
)
    requires
        forall|i: int|
            0 <= i < before.devices.interfaces@.len() ==> !(#[trigger] before.devices.interfaces@[i]).is_bound_to(
                NAT_NETWORK@,
            ),
        DomainEdit::AttachNat.turns(dir, before, attached),
        DomainEdit::DetachNat.turns(dir, attached, detached),
    ensures
        attached.devices.interfaces@.len() == before.devices.interfaces@.len() + 1,
        detached.devices.interfaces@ == before.devices.interfaces@,
{
    let stays = interface_stays(NAT_NETWORK@);
    let interfaces = before.devices.interfaces@;
    let more = attached.devices.interfaces@;
    assert(more.last().is_bound_to(NAT_NETWORK@));
    assert(more == interfaces.push(more.last()));
    interfaces.lemma_filter_push(more.last(), stays);
    lemma_filter_keeps_all(interfaces, stays);
}

} // verus!
