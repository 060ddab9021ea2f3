use tinypci::ConfigSpace;
use tinypci::MockConfigSpace;
use tinypci::PciClass;
use tinypci::PciDeviceInfo;
use tinypci::PciFullClass;
use tinypci::brute_force_scan;
use tinypci::check_function;
use tinypci::pci_config_address;

/// A device whose function 0 identity word carries the given ids, with a
/// zeroed class, header, BAR and interrupt rows.
fn put_plain_device(m: &mut MockConfigSpace, bus: u8, device: u8, vendor_id: u16, device_id: u16) {
    m.set_word(bus, device, 0, 0x00, ((device_id as u32) << 16) | (vendor_id as u32));
    m.set_word(bus, device, 0, 0x08, 0);
    m.set_word(bus, device, 0, 0x0C, 0);
    for i in 0..6u8 {
        m.set_word(bus, device, 0, 0x10 + 4 * i, 0);
    }
    m.set_word(bus, device, 0, 0x3C, 0);
}

#[test]
fn empty_bus_scans_to_nothing() {
    let m = MockConfigSpace::new();
    assert!(brute_force_scan(&m).is_empty());
}

#[test]
fn address_word_layout() {
    assert_eq!(pci_config_address(0, 0, 0, 0), 0x8000_0000);
    assert_eq!(pci_config_address(1, 2, 3, 0x41), 0x8001_1340);
    assert_eq!(pci_config_address(0xFF, 31, 7, 0xFC), 0x80FF_FFFC);
}

#[test]
fn unaligned_offsets_read_containing_word() {
    let mut m = MockConfigSpace::new();
    m.set_word(4, 5, 1, 0x3D, 0xAABB_CCDD);
    assert_eq!(m.read(4, 5, 1, 0x3C), 0xAABB_CCDD);
    assert_eq!(m.read(4, 5, 1, 0x3F), 0xAABB_CCDD);
    assert_eq!(m.read(4, 5, 1, 0x40), 0xFFFF_FFFF);
}

#[test]
fn later_writes_override_earlier_ones() {
    let mut m = MockConfigSpace::new();
    m.set_word(0, 0, 0, 0x10, 1);
    m.set_word(0, 0, 0, 0x10, 2);
    assert_eq!(m.read(0, 0, 0, 0x10), 2);
}

#[test]
fn sentinel_slot_yields_no_descriptor() {
    let mut m = MockConfigSpace::new();
    put_plain_device(&mut m, 0, 0, 0x1234, 0x0001);
    // A slot answering with the all-ones vendor field counts as empty.
    m.set_word(0, 1, 0, 0x00, 0x0002_FFFF);
    let found = brute_force_scan(&m);
    assert_eq!(found.len(), 1);
    for d in &found {
        assert_ne!(d.vendor_id, 0xFFFF);
    }
    assert_eq!(found[0].bus, 0);
    assert_eq!(found[0].device, 0);
}

#[test]
fn scan_is_ordered_and_repeatable() {
    let mut m = MockConfigSpace::new();
    put_plain_device(&mut m, 2, 5, 0x1111, 1);
    put_plain_device(&mut m, 0, 3, 0x2222, 2);
    put_plain_device(&mut m, 2, 4, 0x3333, 3);
    put_plain_device(&mut m, 0, 31, 0x4444, 4);
    let first = brute_force_scan(&m);
    let second = brute_force_scan(&m);
    let addresses: Vec<(u8, u8)> = first.iter().map(|d| (d.bus, d.device)).collect();
    assert_eq!(addresses, vec![(0, 3), (0, 31), (2, 4), (2, 5)]);
    assert_eq!(first.len(), second.len());
    for (a, b) in first.iter().zip(second.iter()) {
        assert_eq!(a.bus, b.bus);
        assert_eq!(a.device, b.device);
        assert_eq!(a.vendor_id, b.vendor_id);
        assert_eq!(a.device_id, b.device_id);
        assert_eq!(a.full_class, b.full_class);
        assert_eq!(a.header_type, b.header_type);
        assert_eq!(a.bars, b.bars);
        assert_eq!(a.supported_fns, b.supported_fns);
        assert_eq!(a.interrupt_line, b.interrupt_line);
        assert_eq!(a.interrupt_pin, b.interrupt_pin);
    }
}

#[test]
fn multi_function_presence_bitmap() {
    let mut m = MockConfigSpace::new();
    put_plain_device(&mut m, 0, 0, 0x1111, 1);
    // Header type with bit 7 set: a multi-function device.
    m.set_word(0, 0, 0, 0x0C, 0x0080_0000);
    // Functions 2 and 5 respond; 1, 3, 4, 6, 7 report the sentinel.
    m.set_word(0, 0, 2, 0x00, 0x0001_2222);
    m.set_word(0, 0, 5, 0x00, 0x0001_5555);
    let found = brute_force_scan(&m);
    assert_eq!(found.len(), 1);
    assert_eq!(
        found[0].supported_fns,
        [true, false, true, false, false, true, false, false]
    );
    assert_eq!(found[0].header_type, 0x80);
}

#[test]
fn single_function_device_skips_function_probes() {
    let mut m = MockConfigSpace::new();
    put_plain_device(&mut m, 0, 0, 0x1111, 1);
    // Bit 7 clear: other functions respond but are never recorded.
    m.set_word(0, 0, 3, 0x00, 0x0001_3333);
    let found = brute_force_scan(&m);
    assert_eq!(found.len(), 1);
    assert_eq!(found[0].supported_fns, [true, false, false, false, false, false, false, false]);
    assert!(check_function(&m, 0, 0, 3));
}

#[test]
fn last_slot_and_last_function_are_probed() {
    let mut m = MockConfigSpace::new();
    put_plain_device(&mut m, 255, 31, 0x1234, 0x4321);
    m.set_word(255, 31, 0, 0x0C, 0x0080_0000);
    m.set_word(255, 31, 7, 0x00, 0x0001_7777);
    let found = brute_force_scan(&m);
    assert_eq!(found.len(), 1);
    assert_eq!(found[0].bus, 255);
    assert_eq!(found[0].device, 31);
    assert_eq!(
        found[0].supported_fns,
        [true, false, false, false, false, false, false, true]
    );
}

#[test]
fn end_to_end_host_bridge() {
    let mut m = MockConfigSpace::new();
    m.set_word(0, 0, 0, 0x00, 0x1237_8086);
    m.set_word(0, 0, 0, 0x08, 0x0600_0000);
    m.set_word(0, 0, 0, 0x0C, 0x0000_0000);
    for i in 0..6u8 {
        m.set_word(0, 0, 0, 0x10 + 4 * i, 0);
    }
    m.set_word(0, 0, 0, 0x3C, 0);
    let found = brute_force_scan(&m);
    assert_eq!(found.len(), 1);
    let d = &found[0];
    assert_eq!(d.bus, 0);
    assert_eq!(d.device, 0);
    assert_eq!(d.vendor_id, 0x8086);
    assert_eq!(d.device_id, 0x1237);
    assert_eq!(d.full_class, PciFullClass::Bridge_Host);
    assert_eq!(d.class(), PciClass::Bridge);
    assert_eq!(d.header_type, 0x00);
    assert_eq!(d.bars, [0u32; 6]);
    assert_eq!(d.supported_fns, [true, false, false, false, false, false, false, false]);
    assert_eq!(d.interrupt_line, 0);
    assert_eq!(d.interrupt_pin, 0);
}

#[test]
fn descriptor_reads_all_rows() {
    let mut m = MockConfigSpace::new();
    m.set_word(7, 9, 0, 0x00, 0xBEEF_1AF4);
    m.set_word(7, 9, 0, 0x08, 0x0106_0000);
    m.set_word(7, 9, 0, 0x0C, 0x0001_0000);
    m.set_word(7, 9, 0, 0x10, 0x0000_C001);
    m.set_word(7, 9, 0, 0x14, 0xFEBF_0000);
    m.set_word(7, 9, 0, 0x18, 0);
    m.set_word(7, 9, 0, 0x1C, 0);
    m.set_word(7, 9, 0, 0x20, 0);
    m.set_word(7, 9, 0, 0x24, 0x0000_0008);
    m.set_word(7, 9, 0, 0x3C, 0x0000_020B);
    let found = brute_force_scan(&m);
    assert_eq!(found.len(), 1);
    let d = &found[0];
    assert_eq!(d.bus, 7);
    assert_eq!(d.device, 9);
    assert_eq!(d.vendor_id, 0x1AF4);
    assert_eq!(d.device_id, 0xBEEF);
    assert_eq!(d.full_class, PciFullClass::MassStorage_SATA);
    assert_eq!(d.header_type, 0x01);
    assert_eq!(d.bars, [0x0000_C001, 0xFEBF_0000, 0, 0, 0, 0x0000_0008]);
    assert_eq!(d.interrupt_line, 0x0B);
    assert_eq!(d.interrupt_pin, 0x02);
}

#[test]
fn coarse_and_subclass_derive_from_full_class() {
    let d = PciDeviceInfo {
        device: 0,
        bus: 0,
        device_id: 0,
        vendor_id: 0x8086,
        full_class: PciFullClass::Bridge_Host,
        header_type: 0,
        bars: [0; 6],
        supported_fns: [true, false, false, false, false, false, false, false],
        interrupt_line: 0,
        interrupt_pin: 0,
    };
    assert_eq!(d.class(), PciClass::Bridge);
    assert_eq!(d.subclass(), PciClass::Unclassified);

    let e = PciDeviceInfo { full_class: PciFullClass::MassStorage_SATA, ..d.clone() };
    assert_eq!(e.class(), PciClass::MassStorage);
    // The subclass byte 0x06 reads as `Bridge` through the coarse taxonomy.
    assert_eq!(e.subclass(), PciClass::Bridge);

    let f = PciDeviceInfo { full_class: PciFullClass::Unknown, ..d };
    assert_eq!(f.class(), PciClass::Other);
    assert_eq!(f.subclass(), PciClass::Other);
}
