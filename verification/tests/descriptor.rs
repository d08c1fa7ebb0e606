use istruct::client::edit::{
    apply_edit, attach_block_disk, attach_nat_interface, detach_block_disk,
    detach_nat_interfaces, edit, path_for_block_device, DomainEdit, NAT_NETWORK,
};
use istruct::client::machine::{default_domain, EMULATOR};
use istruct::error::{EngineError, Missing};
use istruct::xml::domain::{
    Disk, DiskDevice, DiskType, Empty, NetworkInterface, NetworkSource, Source, Unit,
};

const DEVICE: u128 = 0x936DA01F9ABD4D9D80C702AF85C822A8;
const OTHER: u128 = 0x11111111222233334444555555555555;
const MACHINE: u128 = 0x0123456789abcdef0123456789abcdef;

fn bridge_interface() -> NetworkInterface {
    NetworkInterface {
        typ: "bridge".to_string(),
        mac: None,
        source: Some(NetworkSource { bridge: Some("br0".to_string()), network: None }),
        model: None,
        address: None,
    }
}

#[test]
fn empty_element() {
    assert_eq!(Empty::new(), Empty { mark: () });
}

#[test]
fn source_of_a_file() {
    let source = Source::file("/srv/images/a.qcow2");
    assert_eq!(source.file, Some("/srv/images/a.qcow2".to_string()));
    assert_eq!(source.dev, None);
    assert_eq!(source.dir, None);
    assert_eq!(source.protocol, None);
    assert_eq!(source.name, None);
    assert_eq!(source.tls, None);
    assert_eq!(source.query, None);
    assert_eq!(source.pool, None);
    assert_eq!(source.volume, None);
    assert_eq!(source.mode, None);
    assert_eq!(source.typ, None);
    assert_eq!(source.nvme_managed, None);
    assert_eq!(source.nvme_namespace, None);
    assert_eq!(source.index, None);
    assert!(source.hosts.is_empty());
    assert_eq!(source.snapshot, None);
    assert_eq!(source.config, None);
    assert_eq!(source.auth, None);
    assert_eq!(source.encryption, None);
    assert_eq!(source.reservations, None);
    assert_eq!(source.address, None);
    assert_eq!(source.slices, None);
}

#[test]
fn block_device_path() {
    assert_eq!(
        path_for_block_device("/srv/istruct/block", DEVICE),
        "/srv/istruct/block/block_936da01f-9abd-4d9d-80c7-02af85c822a8.qcow2"
    );
    assert_eq!(
        path_for_block_device("/srv/istruct/block/", DEVICE),
        "/srv/istruct/block/block_936da01f-9abd-4d9d-80c7-02af85c822a8.qcow2"
    );
    assert_eq!(
        path_for_block_device("/", DEVICE),
        "/block_936da01f-9abd-4d9d-80c7-02af85c822a8.qcow2"
    );
    assert_eq!(
        path_for_block_device("", DEVICE),
        "block_936da01f-9abd-4d9d-80c7-02af85c822a8.qcow2"
    );
}

#[test]
fn default_descriptor() {
    let domain = default_domain(MACHINE);
    assert_eq!(domain.typ, "kvm");
    assert_eq!(domain.id, None);
    assert_eq!(domain.name, "01234567-89ab-cdef-0123-456789abcdef");
    assert_eq!(domain.uuid, Some(MACHINE));
    assert_eq!(domain.genid, None);
    assert_eq!(domain.title, None);
    assert_eq!(domain.description, None);
    assert_eq!(domain.memory.unit, Unit::Bytes);
    assert_eq!(domain.memory.dump_core, None);
    assert_eq!(domain.memory.amount, 128 * 1024 * 1024);
    assert_eq!(domain.max_memory, None);
    assert_eq!(domain.current_memory, None);
    assert_eq!(domain.vcpu.amount, 1);
    assert_eq!(domain.vcpu.placement, None);
    assert_eq!(domain.vcpu.cpuset, None);
    assert_eq!(domain.os.firmware, None);
    assert_eq!(domain.os.typ.hypervisor, "hvm");
    assert_eq!(domain.os.typ.arch, None);
    assert_eq!(domain.os.typ.machine, None);
    assert_eq!(domain.features, None);
    assert_eq!(domain.devices.emulator, "/usr/bin/qemu-system-x86_64");
    assert_eq!(EMULATOR, "/usr/bin/qemu-system-x86_64");
    assert_eq!(domain.devices.disks.len(), 1);
    let cdrom = &domain.devices.disks[0];
    assert_eq!(cdrom.typ, DiskType::File);
    assert_eq!(cdrom.device, Some(DiskDevice::CDROM));
    assert_eq!(cdrom.driver, None);
    assert_eq!(cdrom.source, None);
    let target = cdrom.target.as_ref().unwrap();
    assert_eq!(target.dev, "sda");
    assert_eq!(target.bus, Some("sata".to_string()));
    assert_eq!(cdrom.readonly.len(), 1);
    let boot = cdrom.boot.as_ref().unwrap();
    assert_eq!(boot.order, 1);
    assert_eq!(boot.loadparm, None);
    assert!(domain.devices.controllers.is_empty());
    assert!(domain.devices.interfaces.is_empty());
    assert!(domain.devices.parallels.is_empty());
    assert!(domain.devices.serials.is_empty());
    assert!(domain.devices.consoles.is_empty());
    assert!(domain.devices.channels.is_empty());
    assert!(domain.devices.inputs.is_empty());
    assert_eq!(domain.devices.graphics.len(), 1);
    let display = &domain.devices.graphics[0];
    assert_eq!(display.typ, Some("spice".to_string()));
    assert_eq!(display.auto_port, Some("yes".to_string()));
    assert_eq!(display.port, None);
    assert_eq!(display.tls_port, None);
    assert_eq!(display.listeners.len(), 1);
    assert_eq!(display.listeners[0].typ, Some("address".to_string()));
}

#[test]
fn attached_block_disk() {
    let mut disks: Vec<Disk> = default_domain(MACHINE).devices.disks;
    attach_block_disk(&mut disks, "/srv/block/block_x.qcow2");
    assert_eq!(disks.len(), 2);
    assert_eq!(disks[0].target.as_ref().unwrap().dev, "sda");
    let disk = &disks[1];
    assert_eq!(disk.typ, DiskType::File);
    assert_eq!(disk.device, None);
    let driver = disk.driver.as_ref().unwrap();
    assert_eq!(driver.name, "qemu");
    assert_eq!(driver.typ, Some("qcow2".to_string()));
    assert_eq!(driver.cache, None);
    assert_eq!(disk.source, Some(Source::file("/srv/block/block_x.qcow2")));
    let target = disk.target.as_ref().unwrap();
    assert_eq!(target.dev, "vda");
    assert_eq!(target.bus, Some("ide".to_string()));
    assert_eq!(target.tray, None);
    assert_eq!(disk.boot, None);
    assert!(disk.readonly.is_empty());
    assert!(disk.shareable.is_empty());
    attach_block_disk(&mut disks, "/srv/block/block_y.qcow2");
    assert_eq!(disks.len(), 3);
    assert_eq!(disks[2].target.as_ref().unwrap().dev, "vdb");
}

#[test]
fn attach_fills_the_lowest_free_name() {
    let mut disks: Vec<Disk> = Vec::new();
    attach_block_disk(&mut disks, "a");
    attach_block_disk(&mut disks, "b");
    attach_block_disk(&mut disks, "c");
    attach_block_disk(&mut disks, "d");
    disks.remove(2);
    attach_block_disk(&mut disks, "e");
    let names: Vec<&str> = disks.iter().map(|d| d.target.as_ref().unwrap().dev.as_str()).collect();
    assert_eq!(names, vec!["vda", "vdb", "vdd", "vdc"]);
}

#[test]
fn detached_block_disk() {
    let domain = default_domain(MACHINE);
    let domain = apply_edit(domain, DomainEdit::AttachBlock(DEVICE), "/srv/block");
    let domain = apply_edit(domain, DomainEdit::AttachBlock(OTHER), "/srv/block");
    assert_eq!(domain.devices.disks.len(), 3);
    let kept = detach_block_disk(domain.devices.disks, DEVICE);
    assert_eq!(kept.len(), 2);
    assert_eq!(kept[0].target.as_ref().unwrap().dev, "sda");
    assert_eq!(
        kept[1].source.as_ref().unwrap().file,
        Some("/srv/block/block_11111111-2222-3333-4444-555555555555.qcow2".to_string())
    );
    assert_eq!(kept[1].target.as_ref().unwrap().dev, "vdb");
    let kept = detach_block_disk(kept, DEVICE);
    assert_eq!(kept.len(), 2);
}

#[test]
fn attach_block_then_detach_gives_the_descriptor_back() {
    let before = default_domain(MACHINE);
    let after = apply_edit(default_domain(MACHINE), DomainEdit::AttachBlock(DEVICE), "/srv/block");
    assert_ne!(after, before);
    assert_eq!(
        after.devices.disks[1].source.as_ref().unwrap().file,
        Some("/srv/block/block_936da01f-9abd-4d9d-80c7-02af85c822a8.qcow2".to_string())
    );
    let back = apply_edit(after, DomainEdit::DetachBlock(DEVICE), "/srv/block");
    assert_eq!(back, before);
}

#[test]
fn attached_nat_interface() {
    let mut interfaces = vec![bridge_interface()];
    attach_nat_interface(&mut interfaces);
    assert_eq!(interfaces.len(), 2);
    assert_eq!(interfaces[0], bridge_interface());
    let nat = &interfaces[1];
    assert_eq!(nat.typ, "network");
    assert_eq!(nat.mac, None);
    assert_eq!(nat.model, None);
    assert_eq!(nat.address, None);
    let source = nat.source.as_ref().unwrap();
    assert_eq!(source.network, Some("istruct_nat".to_string()));
    assert_eq!(source.bridge, None);
    assert_eq!(NAT_NETWORK, "istruct_nat");
}

#[test]
fn detached_nat_interfaces() {
    let mut interfaces = vec![bridge_interface()];
    attach_nat_interface(&mut interfaces);
    interfaces.push(bridge_interface());
    attach_nat_interface(&mut interfaces);
    let kept = detach_nat_interfaces(interfaces);
    assert_eq!(kept, vec![bridge_interface(), bridge_interface()]);
}

#[test]
fn attach_nat_then_detach_gives_the_descriptor_back() {
    let after = apply_edit(default_domain(MACHINE), DomainEdit::AttachNat, "/srv/block");
    assert_eq!(after.devices.interfaces.len(), 1);
    let back = apply_edit(after, DomainEdit::DetachNat, "/srv/block");
    assert_eq!(back, default_domain(MACHINE));
}

#[test]
fn cpu_and_memory_edits() {
    let domain = apply_edit(default_domain(MACHINE), DomainEdit::SetCpuCores(4), "/srv/block");
    assert_eq!(domain.vcpu.amount, 4);
    assert_eq!(domain.memory.amount, 134217728);
    let domain = apply_edit(domain, DomainEdit::SetMemBytes(2_000_000_000), "/srv/block");
    assert_eq!(domain.vcpu.amount, 4);
    assert_eq!(domain.memory.amount, 2_000_000_000);
    assert_eq!(domain.memory.unit, Unit::Bytes);
    assert_eq!(domain.current_memory, None);
    let mut expected = default_domain(MACHINE);
    expected.vcpu.amount = 4;
    expected.memory.amount = 2_000_000_000;
    assert_eq!(domain, expected);
}

#[test]
fn edit_without_a_live_descriptor() {
    assert_eq!(
        edit(None, DomainEdit::AttachNat, "/srv/block"),
        Err(EngineError::NotFound(Missing::Descriptor))
    );
    let edited = edit(Some(default_domain(MACHINE)), DomainEdit::SetCpuCores(2), "/srv/block");
    assert_eq!(edited.unwrap().vcpu.amount, 2);
}

#[test]
fn only_attaching_a_nat_device_needs_the_network() {
    assert!(DomainEdit::AttachNat.requires_nat_network());
    assert!(!DomainEdit::DetachNat.requires_nat_network());
    assert!(!DomainEdit::AttachBlock(DEVICE).requires_nat_network());
    assert!(!DomainEdit::DetachBlock(DEVICE).requires_nat_network());
    assert!(!DomainEdit::SetCpuCores(1).requires_nat_network());
    assert!(!DomainEdit::SetMemBytes(1).requires_nat_network());
}
