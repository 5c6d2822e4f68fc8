use pci_config::cam::compose_address;
use pci_config::cam::Device;
use pci_config::cam::IdTable;
use pci_config::error::Error;

#[test]
fn address_composition_base() {
    assert_eq!(compose_address(0, 0, 0, 0), 0x8000_0000);
}

#[test]
fn address_composition_fields() {
    let a = compose_address(0xab, 0x1c, 0x05, 0xf3);
    assert_eq!(a, 0x80ab_e5f0);
    assert_eq!((a >> 31) & 0x01, 1);
    assert_eq!((a >> 16) & 0xff, 0xab);
    assert_eq!((a >> 11) & 0x1f, 0x1c);
    assert_eq!((a >> 8) & 0x07, 0x05);
    assert_eq!((a >> 2) & 0x3f, (0xf3 & 0xfc) >> 2);
    assert_eq!((a >> 24) & 0x7f, 0);
    assert_eq!(a & 0x03, 0);
}

#[test]
fn address_composition_masks_wide_values() {
    assert_eq!(compose_address(0, 0xff, 0xff, 0xff), 0x8000_fffc);
}

#[test]
fn device_open_accessors() {
    let d = Device::open(1, 2, 3).unwrap();
    assert_eq!(d.bus(), 1);
    assert_eq!(d.device(), 2);
    assert_eq!(d.function(), 3);
}

#[test]
fn enumeration_candidate_count_and_termination() {
    let mut it = Device::enumerate().unwrap();
    let mut count: u64 = 0;
    let mut last = None;
    while let Some(d) = it.next_candidate() {
        last = Some((d.bus(), d.device(), d.function()));
        count += 1;
    }
    // Every candidate but the final triple, which the terminal wrap consumes.
    assert_eq!(count, 256 * 32 * 8 - 1);
    assert_eq!(last, Some((255, 31, 6)));
    // Exhaustion is sticky.
    assert!(it.next_candidate().is_none());
    assert!(it.next_candidate().is_none());
}

#[test]
fn enumeration_candidate_order() {
    let mut it = Device::enumerate().unwrap();
    let first = it.next_candidate().unwrap();
    assert_eq!((first.bus(), first.device(), first.function()), (0, 0, 0));
    let second = it.next_candidate().unwrap();
    assert_eq!((second.bus(), second.device(), second.function()), (0, 0, 1));
    for _ in 0..6 {
        it.next_candidate().unwrap();
    }
    let ninth = it.next_candidate().unwrap();
    assert_eq!((ninth.bus(), ninth.device(), ninth.function()), (0, 1, 0));
}

#[test]
fn empty_table_answers_sentinel() {
    let t = IdTable::new();
    assert_eq!(t.lookup(0, 0, 0), (0xffff, 0xffff));
    assert_eq!(t.lookup(255, 31, 7), (0xffff, 0xffff));
}

#[test]
fn table_insert_and_override() {
    let mut t = IdTable::new();
    t.insert(0, 3, 0, 0x8086, 0x1234);
    assert_eq!(t.lookup(0, 3, 0), (0x8086, 0x1234));
    assert_eq!(t.lookup(0, 3, 1), (0xffff, 0xffff));
    t.insert(0, 3, 0, 0x10de, 0x5678);
    assert_eq!(t.lookup(0, 3, 0), (0x10de, 0x5678));
}

#[test]
fn enumeration_of_empty_bus_terminates_with_nothing() {
    let t = IdTable::new();
    let mut it = Device::enumerate().unwrap();
    assert!(it.next_in(&t).is_none());
    assert!(it.next_in(&t).is_none());
}

#[test]
fn sentinel_vendor_or_device_is_never_yielded() {
    let mut t = IdTable::new();
    t.insert(0, 0, 0, 0xffff, 0x1234);
    t.insert(0, 1, 0, 0x8086, 0xffff);
    t.insert(0, 2, 0, 0x1111, 0x2222);
    let mut it = Device::enumerate().unwrap();
    let mut yielded = Vec::new();
    while let Some(d) = it.next_in(&t) {
        yielded.push((d.bus(), d.device(), d.function()));
    }
    assert_eq!(yielded, vec![(0, 2, 0)]);
}

#[test]
fn one_present_device_scenario() {
    let mut t = IdTable::new();
    t.insert(0, 3, 0, 0x8086, 0x1234);
    let mut it = Device::enumerate().unwrap();
    let mut yielded = Vec::new();
    while let Some(d) = it.next_in(&t) {
        yielded.push((d.bus(), d.device(), d.function()));
    }
    assert_eq!(yielded, vec![(0, 3, 0)]);
    let (vendor, device) = t.lookup(0, 3, 0);
    assert_eq!(vendor, 0x8086);
    assert_eq!(device, 0x1234);
    // The cursor stands past the yielded device: nothing is re-yielded.
    assert!(it.next_in(&t).is_none());
    assert!(it.next_in(&t).is_none());
}

#[test]
fn yields_come_in_cursor_order() {
    let mut t = IdTable::new();
    t.insert(2, 0, 0, 0x1af4, 0x1000);
    t.insert(0, 3, 7, 0x8086, 0x100e);
    t.insert(0, 3, 1, 0x8086, 0x100f);
    let mut it = Device::enumerate().unwrap();
    let mut yielded = Vec::new();
    while let Some(d) = it.next_in(&t) {
        yielded.push((d.bus(), d.device(), d.function()));
    }
    assert_eq!(yielded, vec![(0, 3, 1), (0, 3, 7), (2, 0, 0)]);
    assert!(it.next_in(&t).is_none());
}

#[test]
fn port_probe_fails_only_with_privilege_or_io() {
    // Without the port device (or the right to open it) the probe fails as
    // a privilege error; with it, the read simply answers the hardware.
    match pci_config::cam::pci_read8(0, 0, 0, 0) {
        Ok(_) => {},
        Err(e) => assert!(matches!(e, Error::Privilege(_) | Error::Io(_))),
    }
}
