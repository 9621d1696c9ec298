use rust_kernel::config_space::{config_address, ConfigSpace};
use rust_kernel::pci::{
    disable_intr, enable_command_bus_master, enable_intr, PCICommonHeader, PciConf,
    COMMAND_BUS_MASTER, COMMAND_INTERRUPT_DISABLE, COMMAND_MEMORY_SPACE_RESPONSE,
};
use rust_kernel::report::{
    bit, command_and_status_registers, pci_brute_force_scan, pci_control, pci_status,
};

fn sata_header(bus: u8, device: u8, function: u8) -> PCICommonHeader {
    PCICommonHeader {
        vendor_id: 0x8086,
        device_id: 0x2922,
        command: 0x0003,
        status: 0x0010,
        revision_id: 0x02,
        prog_if: 0x01,
        subclass: 0x06,
        base_class: 0x01,
        cacheline_size: 0x10,
        latency_timer: 0x20,
        header_type: 0x00,
        bist: 0x00,
        base_address_registers: [0x11, 0x22, 0x33, 0x44, 0x55, 0xFEBF_1000],
        cardbus_cis_pointer: 0xC0FF_EE00,
        subsystem_vendor_id: 0x1af4,
        subsystem_id: 0x1100,
        expansion_rom_base_address: 0xABCD_0000,
        capabilities_pointer: 0x80,
        interrupt_line: 10,
        interrupt_pin: 1,
        min_gnt: 3,
        max_latency: 4,
        bus,
        device,
        function,
    }
}

#[test]
fn header_is_decoded_from_the_architected_offsets() {
    let mut space = ConfigSpace::new();
    let tuple = (0, 3, 0);
    space.store_data(config_address(tuple, 0x00), 0x2922_8086);
    space.store_data(config_address(tuple, 0x04), 0x0010_0003);
    space.store_data(config_address(tuple, 0x08), 0x0106_0102);
    space.store_data(config_address(tuple, 0x0C), 0x0000_2010);
    space.store_data(config_address(tuple, 0x10), 0x11);
    space.store_data(config_address(tuple, 0x14), 0x22);
    space.store_data(config_address(tuple, 0x18), 0x33);
    space.store_data(config_address(tuple, 0x1C), 0x44);
    space.store_data(config_address(tuple, 0x20), 0x55);
    space.store_data(config_address(tuple, 0x24), 0xFEBF_1000);
    space.store_data(config_address(tuple, 0x28), 0xC0FF_EE00);
    space.store_data(config_address(tuple, 0x2C), 0x1100_1af4);
    space.store_data(config_address(tuple, 0x30), 0xABCD_0000);
    space.store_data(config_address(tuple, 0x34), 0x0000_0080);
    space.store_data(config_address(tuple, 0x3C), 0x0403_010A);
    let header = PCICommonHeader::from(&space, 0, 3, 0);
    assert_eq!(header, Some(sata_header(0, 3, 0)));
}

#[test]
fn header_of_an_absent_function_is_none() {
    let mut space = ConfigSpace::new();
    assert_eq!(PCICommonHeader::from(&space, 0, 3, 0), None);
    space.store_data(config_address((0, 3, 0), 0x00), 0x2922_FFFF);
    space.store_data(config_address((0, 3, 0), 0x08), 0x0106_0102);
    assert_eq!(PCICommonHeader::from(&space, 0, 3, 0), None);
}

#[test]
fn stored_header_decodes_to_itself() {
    let mut space = ConfigSpace::new();
    let header = sata_header(7, 31, 7);
    header.store(&mut space);
    assert_eq!(PCICommonHeader::from(&space, 7, 31, 7), Some(header));
    assert_eq!(PCICommonHeader::from(&space, 7, 31, 6), None);
    assert_eq!(PCICommonHeader::from(&space, 7, 30, 7), None);
    assert_eq!(space.read_data(config_address((7, 31, 7), 0x40)), 0xFFFF_FFFF);
}

#[test]
fn device_id_is_the_function_s_own() {
    let mut space = ConfigSpace::new();
    let mut first = sata_header(0, 31, 0);
    first.device_id = 0x2918;
    first.header_type = 0x80;
    first.store(&mut space);
    sata_header(0, 31, 2).store(&mut space);
    let second = PCICommonHeader::from(&space, 0, 31, 2).unwrap();
    assert_eq!(second.device_id, 0x2922);
}

#[test]
fn summary_keeps_identity_and_place() {
    let header = sata_header(1, 2, 3);
    let conf = header.as_pci_conf(1, 2, 3);
    assert_eq!(
        conf,
        PciConf {
            vendor_id: 0x8086,
            device_id: 0x2922,
            subsystem_vendor_id: 0x1af4,
            subsystem_id: 0x1100,
            revision_id: 0x02,
            prog_if: 0x01,
            subclass: 0x06,
            base_class: 0x01,
            cacheline_size: 0x10,
            header_type: 0x00,
            function: 3,
            device: 2,
            bus: 1,
        }
    );
    assert_eq!(header.bar(), [0x11, 0x22, 0x33, 0x44, 0x55, 0xFEBF_1000]);
}

#[test]
fn command_bits_are_toggled_in_place() {
    assert_eq!(COMMAND_MEMORY_SPACE_RESPONSE, 1 << 1);
    assert_eq!(COMMAND_BUS_MASTER, 1 << 2);
    assert_eq!(COMMAND_INTERRUPT_DISABLE, 1 << 10);
    let mut header = sata_header(0, 0, 0);
    enable_command_bus_master(&mut header);
    assert_eq!(header.command, 0x0007);
    disable_intr(&mut header);
    assert_eq!(header.command, 0x0407);
    disable_intr(&mut header);
    assert_eq!(header.command, 0x0407);
    enable_intr(&mut header);
    assert_eq!(header.command, 0x0007);
    let mut expected = sata_header(0, 0, 0);
    expected.command = 0x0007;
    assert_eq!(header, expected);
}

#[test]
fn header_line_is_in_hexadecimal() {
    assert_eq!(
        sata_header(0, 0, 0).to_string(),
        "8086:2922 1af4:1100 1:6:1 (rev 2) header type 0"
    );
    let mut header = sata_header(0, 0, 0);
    header.vendor_id = 0;
    header.device_id = 0xFFFF;
    header.base_class = 0x0c;
    header.header_type = 0x81;
    assert_eq!(header.to_string(), "0:ffff 1af4:1100 c:6:1 (rev 2) header type 81");
}

#[test]
fn bit_counts_from_zero() {
    assert!(bit(0x0001, 0));
    assert!(!bit(0x0001, 1));
    assert!(bit(0x8000, 15));
    assert!(!bit(0x7FFF, 15));
}

#[test]
fn status_line_names_each_bit() {
    assert_eq!(
        pci_status(0x0010),
        "Cap: true 66MHz: false FastB2B: false MParityErr: false DEVSEL=Fast SifTAbort: false RecTAbort: false RecMAbort: false SigSysError: false ParityErr false"
    );
    assert_eq!(
        pci_status(0xFFFF),
        "Cap: true 66MHz: true FastB2B: true MParityErr: true DEVSEL=Unknown SifTAbort: true RecTAbort: true RecMAbort: true SigSysError: true ParityErr true"
    );
    assert!(pci_status(0x0200).contains("DEVSEL=Medium "));
    assert!(pci_status(0x0400).contains("DEVSEL=Fast "));
    assert!(pci_status(0x2000).contains("DEVSEL=Unknown "));
}

#[test]
fn control_lines_name_each_bit() {
    let lines = pci_control(0x0405);
    assert_eq!(
        lines,
        vec![
            "I/O space: true",
            "MemSpace: false",
            "BusMaster: true",
            "SpecCycle: false",
            "memory WInv: false",
            "VGASnoop: false",
            "ParErr: false",
            "SERR#: false",
            "FastB2B: false",
            "IntOff: true",
        ]
    );
    assert_eq!(pci_control(0x0080)[6], "ParErr: false");
    assert_eq!(pci_control(0x0100)[7], "SERR#: true");
}

#[test]
fn header_report_lists_pointer_command_status_and_routing() {
    let lines = command_and_status_registers(&sata_header(0, 0, 0));
    assert_eq!(lines.len(), 15);
    assert_eq!(lines[0], "Cap ptr: 80");
    assert_eq!(lines[1], "== Command Register ==");
    assert_eq!(lines[2], "I/O space: true");
    assert_eq!(lines[3], "MemSpace: true");
    assert_eq!(lines[11], "IntOff: false");
    assert_eq!(lines[12], "== Status Register ==");
    assert_eq!(lines[13], pci_status(0x0010));
    assert_eq!(lines[14], "intr: line 10 pin 1");
}

#[test]
fn brute_force_scan_names_function_zero_of_each_device_that_answers() {
    let mut space = ConfigSpace::new();
    assert!(pci_brute_force_scan(&space).is_empty());
    let mut far = sata_header(255, 31, 0);
    far.device_id = 0xffff;
    far.store(&mut space);
    sata_header(0, 2, 0).store(&mut space);
    sata_header(0, 2, 1).store(&mut space);
    let mut bridge = sata_header(3, 0, 0);
    bridge.base_class = 6;
    bridge.subclass = 4;
    bridge.header_type = 1;
    bridge.store(&mut space);
    assert_eq!(
        pci_brute_force_scan(&space),
        vec![
            "8086:2922 1af4:1100 1:6:1 (rev 2) header type 0",
            "8086:2922 1af4:1100 6:4:1 (rev 2) header type 1",
            "8086:ffff 1af4:1100 1:6:1 (rev 2) header type 0",
        ]
    );
}
