use istruct::client::disk_letter::{calculate_next_vd, suffix_of};
use istruct::xml::domain::{Disk, DiskTarget, DiskType};

fn disk_named(dev: &str) -> Disk {
    Disk {
        typ: DiskType::File,
        device: None,
        driver: None,
        source: None,
        target: Some(DiskTarget {
            dev: dev.to_string(),
            bus: None,
            tray: None,
            removable: None,
            rotation_rate: None,
        }),
        boot: None,
        readonly: vec![],
        shareable: vec![],
        serial: None,
        wwn: None,
        vendor: None,
        product: None,
        address: None,
    }
}

fn disk_without_target() -> Disk {
    let mut disk = disk_named("x");
    disk.target = None;
    disk
}

fn disks_named(names: &[&str]) -> Vec<Disk> {
    names.iter().map(|n| disk_named(n)).collect()
}

fn letters(n: usize) -> String {
    suffix_of(n).into_iter().collect()
}

#[test]
fn next_vd_fills_the_gap() {
    let disks = disks_named(&["vda", "vdb", "vdd"]);
    assert_eq!(calculate_next_vd(&disks), "vdc");
}

#[test]
fn next_vd_of_no_disks_is_vda() {
    assert_eq!(calculate_next_vd(&[]), "vda");
}

#[test]
fn next_vd_appends_where_there_is_no_gap() {
    assert_eq!(calculate_next_vd(&disks_named(&["vda"])), "vdb");
    assert_eq!(calculate_next_vd(&disks_named(&["vda", "vdb", "vdc"])), "vdd");
}

#[test]
fn next_vd_does_not_depend_on_the_order() {
    assert_eq!(calculate_next_vd(&disks_named(&["vdd", "vdb", "vda"])), "vdc");
    assert_eq!(calculate_next_vd(&disks_named(&["vdb", "vda"])), "vdc");
    assert_eq!(calculate_next_vd(&disks_named(&["vdb"])), "vda");
}

#[test]
fn next_vd_passes_over_other_names() {
    let mut disks = disks_named(&["sda", "hdb", "vda", "vd", "vd1", "vdA", "xvdb", "v"]);
    disks.push(disk_without_target());
    assert_eq!(calculate_next_vd(&disks), "vdb");
}

#[test]
fn next_vd_with_names_twice() {
    assert_eq!(calculate_next_vd(&disks_named(&["vda", "vda", "vdb"])), "vdc");
}

#[test]
fn next_vd_after_z_is_aa() {
    let names: Vec<String> = (0..26).map(|n| format!("vd{}", letters(n))).collect();
    let refs: Vec<&str> = names.iter().map(|s| s.as_str()).collect();
    assert_eq!(calculate_next_vd(&disks_named(&refs)), "vdaa");
}

#[test]
fn next_vd_goes_on_in_two_letters() {
    let names: Vec<String> = (0..27).map(|n| format!("vd{}", letters(n))).collect();
    let refs: Vec<&str> = names.iter().map(|s| s.as_str()).collect();
    assert_eq!(calculate_next_vd(&disks_named(&refs)), "vdab");
    let names: Vec<String> = (0..52).map(|n| format!("vd{}", letters(n))).collect();
    let refs: Vec<&str> = names.iter().map(|s| s.as_str()).collect();
    assert_eq!(calculate_next_vd(&disks_named(&refs)), "vdba");
}

#[test]
fn next_vd_fills_a_gap_among_two_letters() {
    let mut names: Vec<String> = (0..40).map(|n| format!("vd{}", letters(n))).collect();
    names.remove(30);
    let refs: Vec<&str> = names.iter().map(|s| s.as_str()).collect();
    assert_eq!(calculate_next_vd(&disks_named(&refs)), format!("vd{}", letters(30)));
    assert_eq!(letters(30), "ae");
}

#[test]
fn suffixes_in_their_order() {
    assert_eq!(letters(0), "a");
    assert_eq!(letters(1), "b");
    assert_eq!(letters(25), "z");
    assert_eq!(letters(26), "aa");
    assert_eq!(letters(27), "ab");
    assert_eq!(letters(51), "az");
    assert_eq!(letters(52), "ba");
    assert_eq!(letters(701), "zz");
    assert_eq!(letters(702), "aaa");
}
