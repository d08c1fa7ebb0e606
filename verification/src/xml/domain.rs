//! The domain descriptor: the document by which the hypervisor is told what a
//! machine is made of.

use crate::xml::hyperv::{STimer, SpinLocks, VendorId};
use crate::xml::{OnOff, YesNo};
use vstd::prelude::*;
use vstd::string::StringExecFns;

verus! {

#[derive(Debug, PartialEq, Eq)]
pub struct Domain {
    pub typ: String,
    pub id: Option<isize>,
    pub name: String,
    pub uuid: Option<u128>,
    pub genid: Option<u128>,
    pub title: Option<String>,
    pub description: Option<String>,
    pub memory: Memory,
    pub max_memory: Option<MaxMemory>,
    pub current_memory: Option<CurrentMemory>,
    pub vcpu: VCpu,
    pub os: OperatingSystem,
    pub features: Option<Features>,
    pub devices: Devices,
}

#[derive(Debug, PartialEq, Eq)]
pub struct OperatingSystem {
    pub firmware: Option<Firmware>,
    pub typ: OSType,
}

#[derive(Debug, Clone, Copy, PartialEq, Eq)]
pub enum Firmware {
    BIOS,
    EFI,
}

#[derive(Debug, PartialEq, Eq)]
pub struct OSType {
    pub arch: Option<String>,
    pub machine: Option<String>,
    pub hypervisor: String,
}

#[derive(Debug, PartialEq, Eq)]
pub struct Features {
    pub pae: Vec<Empty>,
    pub acpi: Vec<Empty>,
    pub apic: Vec<Empty>,
    pub hap: Vec<Empty>,
    pub viridian: Vec<Empty>,
    pub privnet: Vec<Empty>,
    pub hyperv: Option<FeaturesHyperV>,
    pub vmport: Option<WithOnOff>,
}

#[derive(Debug, PartialEq, Eq)]
pub struct FeaturesHyperV {
    pub relaxed: Option<WithOnOff>,
    pub vapic: Option<WithOnOff>,
    pub spinlocks: Option<SpinLocks>,
    pub vpindex: Option<WithOnOff>,
    pub runtime: Option<WithOnOff>,
    pub synic: Option<WithOnOff>,
    pub stimer: Option<STimer>,
    pub reset: Option<WithOnOff>,
    pub vendor_id: Option<VendorId>,
    pub frequencies: Option<WithOnOff>,
    pub reenlightenment: Option<WithOnOff>,
    pub tlbflush: Option<WithOnOff>,
    pub ipi: Option<WithOnOff>,
    pub evmcs: Option<WithOnOff>,
}

#[derive(Debug, PartialEq, Eq)]
pub struct WithOnOff {
    pub status: OnOff,
}

#[derive(Debug, PartialEq, Eq)]
pub struct VCpu {
    pub placement: Option<String>,
    pub cpuset: Option<String>,
    pub amount: u64,
}

#[derive(Debug, PartialEq, Eq)]
pub struct Memory {
    pub unit: Unit,
    pub dump_core: Option<OnOff>,
    pub amount: u64,
}

#[derive(Debug, PartialEq, Eq)]
pub struct MaxMemory {
    pub unit: Unit,
    pub slots: Option<usize>,
    pub amount: u64,
}

#[derive(Debug, PartialEq, Eq)]
pub struct CurrentMemory {
    pub unit: Unit,
    pub amount: u64,
}

#[derive(Debug, Clone, Copy, PartialEq, Eq)]
pub enum Unit {
    Bytes,
    B,
    KB,
    KiB,
    K,
    MB,
    MiB,
    M,
    GB,
    GiB,
    G,
    TB,
    TiB,
    T,
}

#[derive(Debug, PartialEq, Eq)]
pub struct Devices {
    pub emulator: String,
    pub disks: Vec<Disk>,
    pub controllers: Vec<Controller>,
    pub interfaces: Vec<NetworkInterface>,
    pub parallels: Vec<FromToDevice>,
    pub serials: Vec<FromToDevice>,
    pub consoles: Vec<FromToDevice>,
    pub channels: Vec<FromToDevice>,
    pub inputs: Vec<Input>,
    pub graphics: Vec<Graphics>,
}

#[derive(Debug, PartialEq, Eq)]
pub struct Disk {
    pub typ: DiskType,
    pub device: Option<DiskDevice>,
    pub driver: Option<DiskDriver>,
    pub source: Option<Source>,
    pub target: Option<DiskTarget>,
    pub boot: Option<DiskBoot>,
    pub readonly: Vec<Empty>,
    pub shareable: Vec<Empty>,
    pub serial: Option<String>,
    pub wwn: Option<String>,
    pub vendor: Option<String>,
    pub product: Option<String>,
    pub address: Option<Address>,
}

#[derive(Debug, Clone, Copy, PartialEq, Eq)]
pub enum DiskType {
    File,
    Block,
    Dir,
    Network,
    Volume,
    NVME,
    VHostUser,
}

#[derive(Debug, Clone, Copy, PartialEq, Eq)]
pub enum DiskDevice {
    Disk,
    CDROM,
    LUN,
}

#[derive(Debug, PartialEq, Eq)]
pub struct Source {
    pub file: Option<String>,
    pub dev: Option<String>,
    pub dir: Option<String>,
    pub protocol: Option<DiskSourceProtocol>,
    pub name: Option<String>,
    pub tls: Option<YesNo>,
    pub query: Option<String>,
    pub pool: Option<String>,
    pub volume: Option<String>,
    pub mode: Option<DiskMode>,
    pub typ: Option<String>,
    pub nvme_managed: Option<YesNo>,
    pub nvme_namespace: Option<usize>,
    pub index: Option<usize>,
    pub hosts: Vec<DiskSourceHost>,
    pub snapshot: Option<DiskSourceSnapshot>,
    pub config: Option<DiskSourceConfig>,
    pub auth: Option<DiskSourceAuth>,
    pub encryption: Option<DiskSourceEncryption>,
    pub reservations: Option<DiskSourceReservations>,
    pub address: Option<DiskSourceAddress>,
    pub slices: Option<DiskSourceSlices>,
}

#[allow(non_camel_case_types)]
#[derive(Debug, Clone, Copy, PartialEq, Eq)]
pub enum DiskSourceProtocol {
    NBD,
    iSCSI,
    RBD,
    SheepDog,
    Gluster,
    vXHS,
    NFS,
    HTTP,
    HTTPS,
    FTP,
    FTPS,
    TFTP,
}

#[derive(Debug, Clone, Copy, PartialEq, Eq)]
pub enum DiskMode {
    Direct,
    Host,
}

#[derive(Debug, PartialEq, Eq)]
pub struct DiskSourceHost {
    pub name: Option<String>,
    pub port: Option<u16>,
    pub transport: Option<String>,
    pub socket: Option<String>,
}

#[derive(Debug, PartialEq, Eq)]
pub struct DiskSourceSnapshot {
    pub name: String,
}

#[derive(Debug, PartialEq, Eq)]
pub struct DiskSourceConfig {
    pub file: String,
}

#[derive(Debug, PartialEq, Eq)]
pub struct DiskSourceAuth {
    pub username: String,
    pub secret: DiskSourceAuthSecret,
}

#[derive(Debug, PartialEq, Eq)]
pub struct DiskSourceAuthSecret {
    pub typ: String,
    pub uuid: Option<u128>,
    pub usage: Option<String>,
}

#[derive(Debug, PartialEq, Eq)]
pub struct DiskSourceEncryption {
}

#[derive(Debug, PartialEq, Eq)]
pub struct DiskSourceReservations {
    pub managed: YesNo,
    pub source: Option<DiskSourceReservationsSource>,
}

#[derive(Debug, PartialEq, Eq)]
pub struct DiskSourceReservationsSource {
    pub typ: String,
    pub path: String,
    pub mode: String,
}

#[derive(Debug, PartialEq, Eq)]
pub struct DiskSourceInitiator {
    pub name: String,
}

#[derive(Debug, PartialEq, Eq)]
pub struct DiskSourceAddress {
    pub pci: String,
}

#[derive(Debug, PartialEq, Eq)]
pub struct DiskSourceSlices {
}

#[derive(Debug, PartialEq, Eq)]
pub struct DiskTarget {
    pub dev: String,
    pub bus: Option<String>,
    pub tray: Option<DiskTargetTray>,
    pub removable: Option<OnOff>,
    pub rotation_rate: Option<usize>,
}

#[derive(Debug, Clone, Copy, PartialEq, Eq)]
pub enum DiskTargetTray {
    Open,
    Closed,
}

#[derive(Debug, PartialEq, Eq)]
pub struct DiskDriver {
    pub name: String,
    pub typ: Option<String>,
    pub cache: Option<DiskDriverCache>,
    pub error_policy: Option<DiskDriverErrorPolicy>,
    pub read_error_policy: Option<DiskDriverErrorPolicy>,
    pub io: Option<String>,
    pub ioeventfd: Option<OnOff>,
    pub event_idx: Option<OnOff>,
    pub copy_on_read: Option<OnOff>,
    pub discard: Option<DiskDriverTargetDiscard>,
    pub detect_zeroes: Option<DiskDriverDetectZeroes>,
    pub iommu: Option<OnOff>,
    pub ats: Option<OnOff>,
    pub packed: Option<OnOff>,
    pub page_per_vq: Option<OnOff>,
}

#[derive(Debug, Clone, Copy, PartialEq, Eq)]
pub enum DiskDriverCache {
    Default,
    NoCache,
    WriteThrough,
    WriteBack,
    DirectSync,
    Unsafe,
}

#[derive(Debug, Clone, Copy, PartialEq, Eq)]
pub enum DiskDriverErrorPolicy {
    Stop,
    Report,
    Ignore,
    ENOSPACE,
}

#[derive(Debug, Clone, Copy, PartialEq, Eq)]
pub enum DiskDriverTargetDiscard {
    Unmap,
    Ignore,
}

#[derive(Debug, Clone, Copy, PartialEq, Eq)]
pub enum DiskDriverDetectZeroes {
    On,
    Off,
    Unmap,
}

#[derive(Debug, PartialEq, Eq)]
pub struct DiskBoot {
    pub order: usize,
    pub loadparm: Option<String>,
}

#[derive(Debug, Clone, Copy, PartialEq, Eq)]
pub struct Empty {
    pub mark: (),
}

#[derive(Debug, PartialEq, Eq)]
pub struct Address {
    pub typ: String,
    pub controller: Option<String>,
    pub domain: Option<String>,
    pub bus: Option<String>,
    pub target: Option<String>,
    pub unit: Option<String>,
    pub slot: Option<String>,
    pub function: Option<String>,
    pub multifunction: Option<String>,
    pub port: Option<String>,
}

#[derive(Debug, PartialEq, Eq)]
pub struct Controller {
    pub typ: String,
    pub index: Option<u64>,
    pub ports: Option<String>,
    pub vectors: Option<String>,
    pub model: Option<String>,
    pub max_grant_frames: Option<String>,
    pub max_event_channels: Option<String>,
    pub driver: Option<ControllerDriver>,
    pub master: Option<ControllerMaster>,
    pub address: Option<Address>,
}

#[derive(Debug, PartialEq, Eq)]
pub struct ControllerDriver {
    pub queues: Option<String>,
    pub cmd_per_lun: Option<String>,
    pub max_sectors: Option<String>,
    pub ioeventfd: Option<String>,
    pub iothread: Option<String>,
}

#[derive(Debug, PartialEq, Eq)]
pub struct ControllerMaster {
    pub startport: Option<String>,
}

#[derive(Debug, PartialEq, Eq)]
pub struct NetworkInterface {
    pub typ: String,
    pub mac: Option<NetworkMac>,
    pub source: Option<NetworkSource>,
    pub model: Option<NetworkModel>,
    pub address: Option<Address>,
}

#[derive(Debug, PartialEq, Eq)]
pub struct NetworkMac {
    pub address: String,
    pub typ: Option<String>,
    pub check: Option<String>,
}

#[derive(Debug, PartialEq, Eq)]
pub struct NetworkSource {
    pub bridge: Option<String>,
    pub network: Option<String>,
}

#[derive(Debug, PartialEq, Eq)]
pub struct NetworkModel {
    pub typ: Option<String>,
}

#[derive(Debug, PartialEq, Eq)]
pub struct FromToDevice {
    pub typ: Option<String>,
    pub source: Option<Source>,
    pub target: FromToTarget,
    pub address: Option<Address>,
}

#[derive(Debug, PartialEq, Eq)]
pub struct FromToSource {
    pub path: Option<String>,
}

#[derive(Debug, PartialEq, Eq)]
pub struct FromToTarget {
    pub typ: Option<String>,
    pub path: Option<String>,
    pub port: Option<String>,
    pub name: Option<String>,
    pub model: Option<FromToTargetModel>,
}

#[derive(Debug, PartialEq, Eq)]
pub struct FromToTargetModel {
    pub name: Option<String>,
}

#[derive(Debug, PartialEq, Eq)]
pub struct Input {
    pub typ: String,
    pub bus: Option<String>,
    pub model: Option<String>,
    pub driver: Option<InputDriver>,
    pub source: Option<InputSource>,
    pub address: Option<Address>,
}

#[derive(Debug, PartialEq, Eq)]
pub struct InputDriver {
    pub iommu: Option<String>,
    pub ats: Option<String>,
    pub packed: Option<String>,
}

#[derive(Debug, PartialEq, Eq)]
pub struct InputSource {
    pub evdev: Option<String>,
    pub dev: Option<String>,
    pub grab: Option<String>,
    pub repeat: Option<String>,
}

#[derive(Debug, PartialEq, Eq)]
pub struct Graphics {
    pub typ: Option<String>,
    pub port: Option<usize>,
    pub tls_port: Option<usize>,
    pub auto_port: Option<String>,
    pub listeners: Vec<GraphicsListener>,
    pub image: Option<GraphicsImage>,
    pub streaming: Option<GraphicsStreaming>,
    pub gl: Option<GraphicsGL>,
}

#[derive(Debug, PartialEq, Eq)]
pub struct GraphicsListener {
    pub typ: Option<String>,
}

#[derive(Debug, PartialEq, Eq)]
pub struct GraphicsImage {
    pub compression: Option<String>,
}

#[derive(Debug, PartialEq, Eq)]
pub struct GraphicsStreaming {
    pub mode: String,
}

#[derive(Debug, PartialEq, Eq)]
pub struct GraphicsGL {
    pub enable: Option<String>,
    pub rendernode: Option<String>,
}

impl Empty {
    pub fn new() -> (empty: Empty)
        ensures
            empty == (Empty { mark: () }),
    {
        Empty { mark: () }
    }
}

impl Source {
    /// Whether a source names the file at `path` and nothing else.
    pub open spec fn is_file(self, path: Seq<char>) -> bool {
        &&& self.file matches Some(file) && file@ == path
        &&& self.dev is None
        &&& self.dir is None
        &&& self.protocol is None
        &&& self.name is None
        &&& self.tls is None
        &&& self.query is None
        &&& self.pool is None
        &&& self.volume is None
        &&& self.mode is None
        &&& self.typ is None
        &&& self.nvme_managed is None
        &&& self.nvme_namespace is None
        &&& self.index is None
        &&& self.hosts@.len() == 0
        &&& self.snapshot is None
        &&& self.config is None
        &&& self.auth is None
        &&& self.encryption is None
        &&& self.reservations is None
        &&& self.address is None
        &&& self.slices is None
    }

    /// A source that names a file.
    pub fn file(f: &str) -> (source: Source)
        ensures
            source.is_file(f@),
    {
        Source {
            file: Some(String::from_str(f)),
            dev: None,
            dir: None,
            protocol: None,
            name: None,
            tls: None,
            query: None,
            pool: None,
            volume: None,
            mode: None,
            typ: None,
            nvme_managed: None,
            nvme_namespace: None,
            index: None,
            hosts: Vec::new(),
            snapshot: None,
            config: None,
            auth: None,
            encryption: None,
            reservations: None,
            address: None,
            slices: None,
        }
    }
}

impl DiskTarget {
    /// Whether a target is the device `dev` on the bus `bus`, with nothing else set.
    pub open spec fn is_on_bus(self, dev: Seq<char>, bus: Seq<char>) -> bool {
        &&& self.dev@ == dev
        &&& self.bus matches Some(b) && b@ == bus
        &&& self.tray is None
        &&& self.removable is None
        &&& self.rotation_rate is None
    }
}

impl DiskDriver {
    /// Whether a driver is qemu's for the qcow2 format, with nothing else set.
    pub open spec fn is_qcow2(self) -> bool {
        &&& self.name@ == "qemu"@
        &&& self.typ matches Some(format) && format@ == "qcow2"@
        &&& self.cache is None
        &&& self.error_policy is None
        &&& self.read_error_policy is None
        &&& self.io is None
        &&& self.ioeventfd is None
        &&& self.event_idx is None
        &&& self.copy_on_read is None
        &&& self.discard is None
        &&& self.detect_zeroes is None
        &&& self.iommu is None
        &&& self.ats is None
        &&& self.packed is None
        &&& self.page_per_vq is None
    }
}

impl Disk {
    /// Whether nothing is set of a disk beyond its type, device, driver, source,
    /// target, boot order and read-only mark.
    pub open spec fn is_plain(self) -> bool {
        &&& self.shareable@.len() == 0
        &&& self.serial is None
        &&& self.wwn is None
        &&& self.vendor is None
        &&& self.product is None
        &&& self.address is None
    }

    /// Whether a disk is the qcow2 image at `file`, shown to the machine as the
    /// device `dev` on the IDE bus.
    pub open spec fn is_block_disk(self, file: Seq<char>, dev: Seq<char>) -> bool {
        &&& self.typ == DiskType::File
        &&& self.device is None
        &&& self.driver matches Some(driver) && driver.is_qcow2()
        &&& self.source matches Some(source) && source.is_file(file)
        &&& self.target matches Some(target) && target.is_on_bus(dev, "ide"@)
        &&& self.boot is None
        &&& self.readonly@.len() == 0
        &&& self.is_plain()
    }

    /// Whether a disk is an empty, read-only CD-ROM drive, `sda` on the SATA
    /// bus, first in the boot order.
    pub open spec fn is_boot_cdrom(self) -> bool {
        &&& self.typ == DiskType::File
        &&& self.device == Some(DiskDevice::CDROM)
        &&& self.driver is None
        &&& self.source is None
        &&& self.target matches Some(target) && target.is_on_bus("sda"@, "sata"@)
        &&& self.boot matches Some(boot) && boot.order == 1 && boot.loadparm is None
        &&& self.readonly@.len() == 1
        &&& self.is_plain()
    }

    /// Whether the backing file of a disk has `text` in its name.
    pub open spec fn names_file_with(self, text: Seq<char>) -> bool {
        self.source matches Some(source) && (source.file matches Some(file)
            && crate::text::contains_text(file@, text))
    }
}

impl NetworkInterface {
    /// Whether an interface is bound to the virtual network called `network`.
    pub open spec fn is_bound_to(self, network: Seq<char>) -> bool {
        self.source matches Some(source) && (source.network matches Some(name) && name@ == network)
    }

    /// Whether an interface is one on the virtual network called `network`, with
    /// nothing else set.
    pub open spec fn is_on_network(self, network: Seq<char>) -> bool {
        &&& self.typ@ == "network"@
        &&& self.mac is None
        &&& self.source matches Some(source) && (source.network matches Some(name) && name@
            == network) && source.bridge is None
        &&& self.model is None
        &&& self.address is None
    }
}

impl Graphics {
    /// Whether a display is a SPICE display on a port of the hypervisor's
    /// choice, listening on an address.
    pub open spec fn is_spice(self) -> bool {
        &&& self.typ matches Some(typ) && typ@ == "spice"@
        &&& self.port is None
        &&& self.tls_port is None
        &&& self.auto_port matches Some(auto) && auto@ == "yes"@
        &&& self.listeners@.len() == 1
        &&& self.listeners@[0].typ matches Some(listen) && listen@ == "address"@
        &&& self.image is None
        &&& self.streaming is None
        &&& self.gl is None
    }
}

} // verus!
