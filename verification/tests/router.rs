use istruct::router::{CompositeRouter, Mount, RouterError, VersionedRouter};
use istruct::text::{decimal_of, decimal_of_u64};

fn router(prefix: &str, major: usize, minor: usize) -> VersionedRouter {
    VersionedRouter::new(prefix.to_string(), major, minor)
}

fn mount(path: &str, slot: usize) -> Mount {
    Mount { path: path.to_string(), slot }
}

fn written(n: usize) -> String {
    decimal_of(n).into_iter().collect()
}

#[test]
fn numbers_in_decimal() {
    assert_eq!(written(0), "0");
    assert_eq!(written(7), "7");
    assert_eq!(written(10), "10");
    assert_eq!(written(42), "42");
    assert_eq!(written(1009), "1009");
    assert_eq!(written(usize::MAX), usize::MAX.to_string());
    let bytes: String = decimal_of_u64(10_737_418_240).into_iter().collect();
    assert_eq!(bytes, "10737418240");
    let most: String = decimal_of_u64(u64::MAX).into_iter().collect();
    assert_eq!(most, "18446744073709551615");
}

#[test]
fn no_routers_no_mounts() {
    let composite = CompositeRouter::new();
    assert_eq!(composite.len(), 0);
    assert_eq!(composite.assemble(), vec![]);
}

#[test]
fn routers_get_their_slots() {
    let mut composite = CompositeRouter::new();
    assert_eq!(composite.add(router("is.compute.machine", 0, 1)), Ok(0));
    assert_eq!(composite.add(router("is.compute.devadm", 0, 1)), Ok(1));
    assert_eq!(composite.add(router("is.compute.machine", 0, 2)), Ok(2));
    assert_eq!(composite.add(router("is.compute.machine", 1, 1)), Ok(3));
    assert_eq!(composite.len(), 4);
}

#[test]
fn prefix_with_a_slash_is_refused() {
    let mut composite = CompositeRouter::new();
    assert_eq!(composite.add(router("is/compute", 0, 1)), Err(RouterError::SlashInPrefix));
    assert_eq!(composite.add(router("/", 0, 1)), Err(RouterError::SlashInPrefix));
    assert_eq!(composite.add(router("compute/", 0, 1)), Err(RouterError::SlashInPrefix));
    assert_eq!(composite.len(), 0);
    assert_eq!(composite.add(router("", 0, 1)), Ok(0));
}

#[test]
fn router_added_twice_is_refused() {
    let mut composite = CompositeRouter::new();
    assert_eq!(composite.add(router("a", 1, 2)), Ok(0));
    assert_eq!(composite.add(router("a", 1, 2)), Err(RouterError::AlreadyAdded));
    assert_eq!(composite.add(router("a", 1, 3)), Ok(1));
    assert_eq!(composite.add(router("a", 2, 2)), Ok(2));
    assert_eq!(composite.add(router("b", 1, 2)), Ok(3));
    assert_eq!(composite.add(router("b", 1, 2)), Err(RouterError::AlreadyAdded));
    assert_eq!(composite.add(router("a/", 1, 2)), Err(RouterError::SlashInPrefix));
    assert_eq!(composite.len(), 4);
}

#[test]
fn router_error_texts() {
    assert_eq!(
        RouterError::SlashInPrefix.to_string(),
        "routing prefixes cannot contain slashes"
    );
    assert_eq!(RouterError::AlreadyAdded.to_string(), "router already known and added");
}

#[test]
fn one_router_is_mounted_twice() {
    let mut composite = CompositeRouter::new();
    composite.add(router("is.storage.device", 0, 1)).unwrap();
    assert_eq!(
        composite.assemble(),
        vec![mount("/is.storage.device/v0.1", 0), mount("/is.storage.device/v0", 0)]
    );
}

#[test]
fn highest_minor_serves_the_major_version() {
    let mut composite = CompositeRouter::new();
    composite.add(router("m", 1, 2)).unwrap();
    composite.add(router("m", 1, 10)).unwrap();
    composite.add(router("m", 1, 9)).unwrap();
    composite.add(router("m", 2, 0)).unwrap();
    composite.add(router("d", 1, 3)).unwrap();
    assert_eq!(
        composite.assemble(),
        vec![
            mount("/m/v1.2", 0),
            mount("/m/v1.10", 1),
            mount("/m/v1.9", 2),
            mount("/m/v2.0", 3),
            mount("/d/v1.3", 4),
            mount("/m/v1", 1),
            mount("/m/v2", 3),
            mount("/d/v1", 4),
        ]
    );
}

#[test]
fn routers_of_a_run() {
    let composite = CompositeRouter::new_with(vec![
        router("is.compute.machine", 0, 1),
        router("is.compute.machine.device", 0, 1),
        router("is.compute.devadm", 0, 1),
        router("is.storage.device", 0, 1),
        router("is.network.device", 0, 1),
    ])
    .ok()
    .unwrap();
    assert_eq!(composite.len(), 5);
    let mounts = composite.assemble();
    assert_eq!(mounts.len(), 10);
    assert_eq!(mounts[0], mount("/is.compute.machine/v0.1", 0));
    assert_eq!(mounts[4], mount("/is.network.device/v0.1", 4));
    assert_eq!(mounts[5], mount("/is.compute.machine/v0", 0));
    assert_eq!(mounts[9], mount("/is.network.device/v0", 4));
}

#[test]
fn first_refusal_ends_a_run() {
    let refused = CompositeRouter::new_with(vec![
        router("a", 0, 1),
        router("a", 0, 1),
        router("b/c", 0, 1),
    ]);
    assert!(matches!(refused, Err(RouterError::AlreadyAdded)));
    let refused = CompositeRouter::new_with(vec![
        router("a", 0, 1),
        router("b/c", 0, 1),
        router("a", 0, 1),
    ]);
    assert!(matches!(refused, Err(RouterError::SlashInPrefix)));
    assert!(CompositeRouter::new_with(vec![]).is_ok());
}
