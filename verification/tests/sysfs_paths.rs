use pci_config::error::Error;
use pci_config::sysfs::device_for_entry;
use pci_config::sysfs::parse_path;
use pci_config::sysfs::Device;

#[test]
fn path_round_trip() {
    let d = Device::open(0x12, 0x1f, 0x7).unwrap();
    assert_eq!(d.bus(), 0x12);
    assert_eq!(d.device(), 0x1f);
    assert_eq!(d.function(), 0x7);
}

#[test]
fn path_round_trip_zero() {
    let d = Device::open(0, 0, 0).unwrap();
    assert_eq!(d.bus(), 0);
    assert_eq!(d.device(), 0);
    assert_eq!(d.function(), 0);
}

#[test]
fn parse_accepts_exact_grammar() {
    let p = b"/sys/bus/pci/devices/0000:12:1f.7".to_vec();
    assert_eq!(parse_path(&p), Some((0x12, 0x1f, 0x7)));
    let upper = b"/sys/bus/pci/devices/0000:AB:0C.5".to_vec();
    assert_eq!(parse_path(&upper), Some((0xab, 0x0c, 0x5)));
}

#[test]
fn parse_accepts_trailing_content() {
    let p = b"/sys/bus/pci/devices/0000:00:03.0/config".to_vec();
    assert_eq!(parse_path(&p), Some((0, 3, 0)));
}

#[test]
fn parse_rejects_wrong_digit_counts() {
    assert_eq!(parse_path(&b"/sys/bus/pci/devices/0000:1:00.0".to_vec()), None);
    assert_eq!(parse_path(&b"/sys/bus/pci/devices/0000:001:00.0".to_vec()), None);
    assert_eq!(parse_path(&b"/sys/bus/pci/devices/0000:00:0.0".to_vec()), None);
    assert_eq!(parse_path(&b"/sys/bus/pci/devices/0000:00:00.".to_vec()), None);
}

#[test]
fn parse_rejects_wrong_separators() {
    assert_eq!(parse_path(&b"/sys/bus/pci/devices/0000:00.00:0".to_vec()), None);
    assert_eq!(parse_path(&b"/sys/bus/pci/devices/0000 00:00.0".to_vec()), None);
    assert_eq!(parse_path(&b"/sys/bus/pci/devices/0000:00-00.0".to_vec()), None);
}

#[test]
fn parse_rejects_wrong_prefix() {
    assert_eq!(parse_path(&b"/sys/bus/pci/devices/0001:00:00.0".to_vec()), None);
    assert_eq!(parse_path(&b"0000:00:00.0".to_vec()), None);
    assert_eq!(parse_path(&b"".to_vec()), None);
}

#[test]
fn parse_rejects_nonhex_digits() {
    assert_eq!(parse_path(&b"/sys/bus/pci/devices/0000:0g:00.0".to_vec()), None);
    assert_eq!(parse_path(&b"/sys/bus/pci/devices/0000:00:00.x".to_vec()), None);
}

#[test]
fn entry_names_become_devices_except_the_dots() {
    assert!(device_for_entry(&b".".to_vec()).is_none());
    assert!(device_for_entry(&b"..".to_vec()).is_none());
    let d = device_for_entry(&b"0000:12:1f.7".to_vec()).unwrap();
    assert_eq!(d.bus(), 0x12);
    assert_eq!(d.device(), 0x1f);
    assert_eq!(d.function(), 0x7);
    // Three dots name an entry, not the directory or its parent.
    assert!(device_for_entry(&b"...".to_vec()).is_some());
}

#[test]
fn identity_of_absent_device_is_an_io_error() {
    // No host has a function at this entry; its identity files are absent.
    let d = Device::open(0xff, 0x1f, 0x7).unwrap();
    assert!(matches!(d.vendor_id(), Err(Error::Io(_))));
    assert!(matches!(d.device_id(), Err(Error::Io(_))));
}

#[test]
fn register_read_of_absent_device_is_an_io_error() {
    let d = Device::open(0xff, 0x1f, 0x7).unwrap();
    assert!(matches!(d.read_u8(0), Err(Error::Io(_))));
    assert!(matches!(d.read_u32(0), Err(Error::Io(_))));
    assert!(matches!(d.write_u8(0, 0), Err(Error::Io(_))));
}

#[test]
fn enumeration_walks_the_device_directory() {
    // The walk either opens the directory and yields only entries beneath
    // it, or the host exposes no such directory and it fails as an I/O
    // error.
    match Device::enumerate() {
        Ok(mut it) => {
            for _ in 0..4 {
                match it.next() {
                    Some(d) => {
                        let _ = d.bus();
                    },
                    None => break,
                }
            }
        },
        Err(e) => assert!(matches!(e, Error::Io(_))),
    }
}
