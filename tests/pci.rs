use std::cell::RefCell;

use myos::pci::{
    ahci_base, capability_without_body, enable, exp_data, extract16, extract8, interrupt_pin_of,
    merge16, merge8, pm_data, probe_function, sata_data, scan_bus, BusLocation, Capability,
    CapabilityData, CapabilityMSIData, CapabilityMSIMessageControl, ConfigSpaceAccessMethod,
    DeviceKind, InterruptPin, PortOps, Prefetchable, Type, BAR, CONFIG_ADDRESS, CONFIG_DATA,
};

/// Config space of one function, dword-addressed, reached through the two ports.
struct FakePorts {
    address: RefCell<u32>,
    regs: RefCell<Vec<u32>>,
    log: RefCell<Vec<(u16, u32)>>,
    /// What a BAR register reads back after all ones are written to it.
    bar_masks: Vec<(usize, u32)>,
}

impl FakePorts {
    fn new(regs: Vec<u32>) -> Self {
        FakePorts {
            address: RefCell::new(0),
            regs: RefCell::new(regs),
            log: RefCell::new(Vec::new()),
            bar_masks: Vec::new(),
        }
    }
}

impl PortOps for FakePorts {
    fn read32(&self, port: u16) -> u32 {
        assert_eq!(port, CONFIG_DATA);
        let reg = (*self.address.borrow() & 0xFC) as usize / 4;
        self.regs.borrow()[reg]
    }

    fn write32(&self, port: u16, val: u32) {
        self.log.borrow_mut().push((port, val));
        if port == CONFIG_ADDRESS {
            *self.address.borrow_mut() = val;
        } else {
            let reg = (*self.address.borrow() & 0xFC) as usize / 4;
            let mut stored = val;
            if val == 0xFFFF_FFFF && (4..10).contains(&reg) {
                stored = self.bar_masks.iter().find(|m| m.0 == reg).map_or(0, |m| m.1);
            }
            self.regs.borrow_mut()[reg] = stored;
        }
    }
}

#[test]
fn encode_places_bus_device_function() {
    let loc = BusLocation { bus: 0x12, device: 0x1f, function: 0x7 };
    assert_eq!(loc.encode(), 0x8012_FF00);
    assert_eq!(BusLocation { bus: 0, device: 0, function: 0 }.encode(), 0x8000_0000);
    assert_eq!(BusLocation { bus: 1, device: 2, function: 3 }.encode(), 0x8001_1300);
}

#[test]
fn byte_and_half_extraction() {
    let v = 0xAABB_CCDD;
    assert_eq!(extract8(v, 0), 0xDD);
    assert_eq!(extract8(v, 1), 0xCC);
    assert_eq!(extract8(v, 2), 0xBB);
    assert_eq!(extract8(v, 0x3F), 0xAA);
    assert_eq!(extract16(v, 0), 0xCCDD);
    assert_eq!(extract16(v, 2), 0xAABB);
    assert_eq!(extract16(v, 0x2E), 0xAABB);
}

#[test]
fn byte_and_half_merge() {
    let v = 0xAABB_CCDD;
    assert_eq!(merge8(v, 0, 0x11), 0xAABB_CC11);
    assert_eq!(merge8(v, 1, 0x11), 0xAABB_11DD);
    assert_eq!(merge8(v, 6, 0x11), 0xAA11_CCDD);
    assert_eq!(merge8(v, 3, 0x11), 0x11BB_CCDD);
    assert_eq!(merge16(v, 0, 0x1234), 0xAABB_1234);
    assert_eq!(merge16(v, 2, 0x1234), 0x1234_CCDD);
}

#[test]
fn register_reads_go_through_the_ports() {
    let mut regs = vec![0u32; 64];
    regs[0] = 0x1234_8086;
    regs[2] = 0x0106_0102;
    let ports = FakePorts::new(regs);
    let loc = BusLocation { bus: 0, device: 3, function: 0 };
    let am = ConfigSpaceAccessMethod::IO;
    assert_eq!(am.read16(&ports, loc, 0), 0x8086);
    assert_eq!(am.read16(&ports, loc, 2), 0x1234);
    assert_eq!(am.read8(&ports, loc, 11), 0x01);
    assert_eq!(am.read8(&ports, loc, 10), 0x06);
    assert_eq!(am.read32(&ports, loc, 8), 0x0106_0102);
    assert_eq!(ports.log.borrow()[0], (CONFIG_ADDRESS, 0x8000_1800));
}

#[test]
fn register_writes_keep_neighbouring_bytes() {
    let mut regs = vec![0u32; 64];
    regs[1] = 0x0010_0007;
    let ports = FakePorts::new(regs);
    let loc = BusLocation { bus: 0, device: 1, function: 0 };
    let am = ConfigSpaceAccessMethod::IO;
    am.write8(&ports, loc, 5, 0xAB);
    assert_eq!(ports.regs.borrow()[1], 0x0010_AB07);
    am.write16(&ports, loc, 6, 0x5555);
    assert_eq!(ports.regs.borrow()[1], 0x5555_AB07);
    am.write32(&ports, loc, 4, 1);
    assert_eq!(ports.regs.borrow()[1], 1);
}

#[test]
fn bar_decoding_from_register_values() {
    assert_eq!(BAR::decode_raw(0, 0, 0, 0), (None, 1));
    assert_eq!(
        BAR::decode_raw(0xFEBF_0000, 0xFFFF_F000, 0, 0),
        (Some(BAR::Memory(0xFEBF_0000, 0x1000, Prefetchable::No, Type::Bits32)), 1)
    );
    assert_eq!(
        BAR::decode_raw(0xE000_000C, 0xF000_000C, 0x1, 2),
        (Some(BAR::Memory(0x1_E000_0000, 0x1000_0000, Prefetchable::Yes, Type::Bits64)), 4)
    );
    assert_eq!(BAR::decode_raw(0xC001, 0xFFFF_FFE1, 0, 4), (Some(BAR::IO(0xC000, 0x20)), 5));
    assert_eq!(BAR::decode_raw(0x0000_0002, 0xFFFF_FFF2, 0, 1), (None, 2));
    assert!(BAR::is_64bit(0xE000_000C));
    assert!(!BAR::is_64bit(0xFEBF_0000));
}

#[test]
fn bar_probe_restores_the_register() {
    let mut regs = vec![0u32; 64];
    regs[4] = 0xFEBF_0000;
    let mut ports = FakePorts::new(regs);
    ports.bar_masks = vec![(4, 0xFFFF_C000)];
    let loc = BusLocation { bus: 0, device: 2, function: 0 };
    let r = BAR::decode(&ports, loc, ConfigSpaceAccessMethod::IO, 0);
    assert_eq!(r, (Some(BAR::Memory(0xFEBF_0000, 0x4000, Prefetchable::No, Type::Bits32)), 1));
    assert_eq!(ports.regs.borrow()[4], 0xFEBF_0000);
    assert!(ports.log.borrow().contains(&(CONFIG_DATA, 0xFFFF_FFFF)));
}

#[test]
fn bus_scan_walks_in_order_and_stops_at_the_end() {
    let ports = FakePorts::new(vec![0; 64]);
    let mut scan = scan_bus(&ports, ConfigSpaceAccessMethod::IO);
    assert_eq!(scan.current(), BusLocation { bus: 0, device: 0, function: 0 });
    for _ in 0..8 {
        scan.increment();
    }
    assert_eq!(scan.current(), BusLocation { bus: 0, device: 1, function: 0 });
    let mut steps = 8usize;
    while !scan.done() {
        scan.increment();
        steps += 1;
    }
    assert_eq!(steps, 256 * 32 * 8 - 1);
    assert_eq!(scan.current(), BusLocation { bus: 255, device: 31, function: 7 });
    scan.increment();
    assert!(scan.done());
}

fn ahci_config_space() -> Vec<u32> {
    let mut regs = vec![0u32; 64];
    regs[0] = 0x2922_8086;
    regs[1] = 0x0010_0007;
    regs[2] = 0x0106_0102;
    regs[3] = 0x0000_0010;
    regs[9] = 0xFEBF_1000;
    regs[13] = 0x0000_0050;
    regs[15] = 0x0000_010B;
    regs[20] = 0x0080_6005;
    regs[21] = 0xFEE0_0000;
    regs[22] = 0;
    regs[23] = 0x0000_0041;
    regs[24] = 0x0003_0001;
    regs[25] = 0x4803_0000;
    regs
}

#[test]
fn probe_reads_a_storage_controller() {
    let mut ports = FakePorts::new(ahci_config_space());
    ports.bar_masks = vec![(9, 0xFFFF_F000)];
    let loc = BusLocation { bus: 0, device: 0x1f, function: 2 };
    let dev = probe_function(&ports, loc, ConfigSpaceAccessMethod::IO).unwrap();
    assert_eq!(dev.loc, loc);
    assert_eq!(dev.id.vendor_id, 0x8086);
    assert_eq!(dev.id.device_id, 0x2922);
    assert_eq!((dev.id.class, dev.id.subclass, dev.id.prog_if, dev.id.revision_id), (1, 6, 1, 2));
    assert_eq!(dev.command.bits, 7);
    assert_eq!(dev.status.bits, 0x10);
    assert_eq!(dev.cache_line_size, 0x10);
    assert!(!dev.multifunction);
    assert!(!dev.bist_capable);
    assert_eq!(dev.pic_interrupt_line, 0x0B);
    assert_eq!(dev.interrupt_pin, Some(InterruptPin::INTA));
    assert!(matches!(dev.kind, DeviceKind::Device(_)));
    assert_eq!(dev.bars[5], Some(BAR::Memory(0xFEBF_1000, 0x1000, Prefetchable::No, Type::Bits32)));
    assert!(dev.bars[..5].iter().all(|b| b.is_none()));
    assert_eq!(ports.regs.borrow()[9], 0xFEBF_1000);
    let caps = dev.capabilities.clone().unwrap();
    assert_eq!(caps.len(), 2);
    assert_eq!(
        caps[0],
        Capability {
            cap_ptr: 0x50,
            data: CapabilityData::MSI(CapabilityMSIData {
                message_control: CapabilityMSIMessageControl { bits: 0x80 },
                message_address: 0xFEE0_0000,
                message_data: 0x41,
            }),
        }
    );
    match caps[1].data {
        CapabilityData::PM(pm) => {
            assert_eq!(pm.pme_support, 9);
            assert_eq!(pm.version, 3);
            assert_eq!(pm.d1_support, 0);
        }
        other => panic!("unexpected capability {:?}", other),
    }
    assert_eq!(ahci_base(&dev), Some(0xFEBF_1000));
}

#[test]
fn probe_of_an_empty_slot_is_none() {
    let mut regs = vec![0u32; 64];
    regs[0] = 0xFFFF_FFFF;
    let ports = FakePorts::new(regs);
    let loc = BusLocation { bus: 3, device: 4, function: 5 };
    assert!(probe_function(&ports, loc, ConfigSpaceAccessMethod::IO).is_none());
}

#[test]
fn non_storage_device_has_no_ahci_base() {
    let mut regs = ahci_config_space();
    regs[2] = 0x0200_0000;
    let mut ports = FakePorts::new(regs);
    ports.bar_masks = vec![(9, 0xFFFF_F000)];
    let loc = BusLocation { bus: 0, device: 3, function: 0 };
    let dev = probe_function(&ports, loc, ConfigSpaceAccessMethod::IO).unwrap();
    assert_eq!(ahci_base(&dev), None);
}

#[test]
fn enable_assigns_the_next_msi_interrupt() {
    let ports = FakePorts::new(ahci_config_space());
    let loc = BusLocation { bus: 0, device: 0x1f, function: 2 };
    let mut irq: u32 = 23;
    assert_eq!(enable(loc, &ports, &mut irq), Some(24));
    assert_eq!(irq, 24);
    let regs = ports.regs.borrow();
    assert_eq!(regs[1], 0x40F);
    assert_eq!(regs[21], 0xFEE0_0000);
    assert_eq!(regs[23], 24 + 32);
    assert_eq!(regs[20], 0x0081_6005);
}

#[test]
fn enable_without_msi_keeps_legacy_interrupts() {
    let mut regs = ahci_config_space();
    regs[13] = 0;
    let ports = FakePorts::new(regs);
    let loc = BusLocation { bus: 0, device: 2, function: 0 };
    let mut irq: u32 = 23;
    assert_eq!(enable(loc, &ports, &mut irq), None);
    assert_eq!(irq, 23);
    assert_eq!(ports.regs.borrow()[1], 0xF);
}

#[test]
fn capability_field_decoding() {
    let pm = pm_data(0xFE03_0000);
    assert_eq!((pm.pme_support, pm.d2_support, pm.d1_support), (0x1F, 1, 1));
    assert_eq!((pm.aux_current, pm.dsi, pm.pme_clock, pm.version), (0, 0, 0, 3));
    let e = exp_data(0x0142);
    assert_eq!((e.interrupt_message_number, e.slot_implemented, e.device_port_type, e.cap_version), (0, 1, 4, 2));
    let sata = sata_data(0x0010_0012, 0x0000_0048);
    assert_eq!((sata.major_revision, sata.minor_revision, sata.bar_offset, sata.bar_location), (1, 0, 4, 8));
    assert_eq!(capability_without_body(0x02), CapabilityData::AGP);
    assert_eq!(capability_without_body(0x11), CapabilityData::MSIX);
    assert_eq!(capability_without_body(0x09), CapabilityData::Unknown(0x09));
    assert_eq!(interrupt_pin_of(4), Some(InterruptPin::INTD));
    assert_eq!(interrupt_pin_of(0), None);
    assert_eq!(interrupt_pin_of(5), None);
}

#[test]
fn next_device_returns_each_answering_function() {
    let ports = FakePorts::new(ahci_config_space());
    let mut scan = scan_bus(&ports, ConfigSpaceAccessMethod::IO);
    let first = scan.next_device().unwrap();
    assert_eq!(first.loc, BusLocation { bus: 0, device: 0, function: 0 });
    assert_eq!(scan.current(), BusLocation { bus: 0, device: 0, function: 1 });
    let second = scan.next_device().unwrap();
    assert_eq!(second.loc, BusLocation { bus: 0, device: 0, function: 1 });
}

#[test]
fn next_device_on_an_empty_bus_ends_at_the_last_function() {
    let mut regs = vec![0u32; 64];
    regs[0] = 0xFFFF_FFFF;
    let ports = FakePorts::new(regs);
    let mut scan = scan_bus(&ports, ConfigSpaceAccessMethod::IO);
    assert!(scan.next_device().is_none());
    assert!(scan.done());
    assert!(scan.next_device().is_none());
}
