use rust_kernel::ahci::{
    ahci_init, check_type, is_set, DeviceType, MmioWindow, PortRegister, RegisterHBAMemory,
    CAP_A64, CAP_NCS, CAP_NP, SATA_SIG_ATA, SATA_SIG_ATAPI, SATA_SIG_PM, SATA_SIG_SEMB,
};
use rust_kernel::pci::PCICommonHeader;

fn window(bytes: usize) -> Vec<u32> {
    vec![0; bytes / 4]
}

fn port(ssts: u32, sig: u32) -> PortRegister {
    PortRegister {
        clb: 0,
        fb: 0,
        is: 0,
        ie: 0,
        cmd: 0,
        tfd: 0,
        sig,
        ssts,
        sctl: 0,
        serr: 0,
        sact: 0,
        ci: 0,
        sntf: 0,
        fbs: 0,
        devslp: 0,
        vs: [0; 4],
    }
}

fn hba(host_cap: u32) -> RegisterHBAMemory {
    RegisterHBAMemory {
        host_cap,
        global_hba_control: 0,
        interrupt_status: 0,
        ports_implemented: 0,
        version: 0,
        ccc_ctl: 0,
        ccc_ports: 0,
        em_loc: 0,
        em_ctl: 0,
        cap2: 0,
        bohc: 0,
        ports: Vec::new(),
    }
}

#[test]
fn window_reads_are_bounds_checked() {
    let w = MmioWindow::new(vec![0x11, 0x22, 0x33]);
    assert_eq!(w.read_u32(0), Some(0x11));
    assert_eq!(w.read_u32(8), Some(0x33));
    assert_eq!(w.read_u32(12), None);
    assert_eq!(w.read_u32(2), None);
    assert_eq!(w.read_u32(usize::MAX), None);
    assert_eq!(MmioWindow::new(Vec::new()).read_u32(0), None);
}

#[test]
fn global_registers_are_read_at_their_offsets() {
    let mut dwords = window(0x100);
    for index in 0..11 {
        dwords[index] = 0xA000_0000 + index as u32;
    }
    dwords[3] = 0;
    let hba = RegisterHBAMemory::from_abar(&MmioWindow::new(dwords)).unwrap();
    assert_eq!(hba.host_cap, 0xA000_0000);
    assert_eq!(hba.global_hba_control, 0xA000_0001);
    assert_eq!(hba.interrupt_status, 0xA000_0002);
    assert_eq!(hba.ports_implemented, 0);
    assert_eq!(hba.version, 0xA000_0004);
    assert_eq!(hba.ccc_ctl, 0xA000_0005);
    assert_eq!(hba.ccc_ports, 0xA000_0006);
    assert_eq!(hba.em_loc, 0xA000_0007);
    assert_eq!(hba.em_ctl, 0xA000_0008);
    assert_eq!(hba.cap2, 0xA000_0009);
    assert_eq!(hba.bohc, 0xA000_000A);
    assert!(hba.ports.is_empty());
}

#[test]
fn ports_implemented_bits_zero_and_two_yield_two_ports_in_order() {
    let mut dwords = window(0x1100);
    dwords[0x0C / 4] = 0b101;
    dwords[(0x100 + 0x24) / 4] = 0x0000_0101;
    dwords[(0x100 + 0x80 + 0x24) / 4] = 0x1111_1111;
    dwords[(0x100 + 2 * 0x80 + 0x24) / 4] = 0xEB14_0101;
    let hba = RegisterHBAMemory::from_abar(&MmioWindow::new(dwords)).unwrap();
    assert_eq!(hba.ports.len(), 2);
    assert_eq!(hba.ports[0].sig, 0x0000_0101);
    assert_eq!(hba.ports[1].sig, 0xEB14_0101);
    assert_eq!(hba.pi(), 1);
}

#[test]
fn all_thirty_two_ports_are_read_at_their_stride() {
    let mut dwords = window(0x1100);
    dwords[0x0C / 4] = 0xFFFF_FFFF;
    for index in 0..32usize {
        dwords[(0x100 + index * 0x80 + 0x28) / 4] = index as u32;
    }
    let hba = RegisterHBAMemory::from_abar(&MmioWindow::new(dwords)).unwrap();
    assert_eq!(hba.ports.len(), 32);
    for index in 0..32usize {
        assert_eq!(hba.ports[index].ssts, index as u32);
    }
    assert_eq!(hba.pi(), 32);
}

#[test]
fn port_registers_are_read_at_their_offsets() {
    let mut dwords = window(0x200);
    let base = 0x100 / 4;
    for index in 0..32 {
        dwords[base + index] = 0xB000_0000 + (index as u32) * 4;
    }
    let w = MmioWindow::new(dwords);
    let port = PortRegister::from_ptr(&w, 0x100).unwrap();
    assert_eq!(port.clb, 0xB000_0004_B000_0000);
    assert_eq!(port.fb, 0xB000_000C_B000_0008);
    assert_eq!(port.is, 0xB000_0010);
    assert_eq!(port.ie, 0xB000_0014);
    assert_eq!(port.cmd, 0xB000_0018);
    assert_eq!(port.tfd, 0xB000_0020);
    assert_eq!(port.sig, 0xB000_0024);
    assert_eq!(port.ssts, 0xB000_0028);
    assert_eq!(port.sctl, 0xB000_002C);
    assert_eq!(port.sact, 0xB000_0034);
    assert_eq!(port.ci, 0xB000_0038);
    assert_eq!(port.sntf, 0xB000_003C);
    assert_eq!(port.serr, 0xB000_0040);
    assert_eq!(port.fbs, 0xB000_0040);
    assert_eq!(port.devslp, 0xB000_0044);
    assert_eq!(port.vs, [0xB000_0070, 0xB000_0074, 0xB000_0078, 0xB000_007C]);
    assert!(PortRegister::from_ptr(&w, 0x180).is_some());
    assert_eq!(PortRegister::from_ptr(&w, 0x102), None);
    assert_eq!(PortRegister::from_ptr(&w, 0x184), None);
    assert_eq!(PortRegister::from_ptr(&w, 0x200), None);
    assert_eq!(PortRegister::from_ptr(&w, usize::MAX - 3), None);
    assert!(PortRegister::from_ptr(&w, 0x0).is_some());
}

#[test]
fn window_too_short_for_a_register_yields_nothing() {
    assert_eq!(RegisterHBAMemory::from_abar(&MmioWindow::new(window(0x28))), None);
    assert!(RegisterHBAMemory::from_abar(&MmioWindow::new(window(0x2C))).is_some());
    let mut dwords = window(0x180);
    dwords[0x0C / 4] = 0b1;
    assert_eq!(RegisterHBAMemory::from_abar(&MmioWindow::new(dwords.clone())).unwrap().ports.len(), 1);
    dwords[0x0C / 4] = 0b101;
    assert_eq!(RegisterHBAMemory::from_abar(&MmioWindow::new(dwords.clone())), None);
    dwords.resize(0x27C / 4, 0);
    assert_eq!(RegisterHBAMemory::from_abar(&MmioWindow::new(dwords.clone())), None);
    dwords.resize(0x280 / 4, 0);
    assert_eq!(RegisterHBAMemory::from_abar(&MmioWindow::new(dwords)).unwrap().ports.len(), 2);
}

#[test]
fn present_active_ata_signature_is_sata() {
    assert_eq!(check_type(&port(0x0000_0103, 0x0000_0101)), DeviceType::Sata);
    assert_eq!(check_type(&port(0xFFFF_F1F3, SATA_SIG_ATA)), DeviceType::Sata);
    assert_eq!(check_type(&port(0x103, SATA_SIG_ATAPI)), DeviceType::Satapi);
    assert_eq!(check_type(&port(0x103, SATA_SIG_SEMB)), DeviceType::Semb);
    assert_eq!(check_type(&port(0x103, SATA_SIG_PM)), DeviceType::Pm);
    assert_eq!(SATA_SIG_ATA, 0x0000_0101);
    assert_eq!(SATA_SIG_ATAPI, 0xEB14_0101);
    assert_eq!(SATA_SIG_SEMB, 0xC33C_0101);
    assert_eq!(SATA_SIG_PM, 0x9669_0101);
}

#[test]
fn no_detected_device_is_null_whatever_the_signature() {
    for sig in [0, SATA_SIG_ATA, SATA_SIG_ATAPI, 0xDEAD_BEEF, 0xFFFF_FFFF] {
        assert_eq!(check_type(&port(0x0000_0100, sig)), DeviceType::Null);
        assert_eq!(check_type(&port(0x0000_0101, sig)), DeviceType::Null);
        assert_eq!(check_type(&port(0x0000_0003, sig)), DeviceType::Null);
        assert_eq!(check_type(&port(0x0000_0203, sig)), DeviceType::Null);
    }
}

#[test]
fn unknown_signature_is_kept() {
    assert_eq!(check_type(&port(0x103, 0xDEAD_BEEF)), DeviceType::Unknown(0xDEAD_BEEF));
    assert_eq!(check_type(&port(0x103, 1)), DeviceType::Unknown(1));
    assert_eq!(check_type(&port(0x103, 0)), DeviceType::Unknown(0));
    assert_eq!(
        port(0x103, 0xDEAD_BEEF).describe(),
        "AHCI Port Device Unknown  (3735928559) "
    );
}

#[test]
fn device_line_names_the_kind() {
    assert_eq!(port(0x103, SATA_SIG_ATA).describe(), "AHCI Port Device SATA ");
    assert_eq!(port(0x103, SATA_SIG_ATAPI).describe(), "AHCI Port Device SATAPI ");
    assert_eq!(port(0x103, SATA_SIG_SEMB).describe(), "AHCI Port Device SEMB ");
    assert_eq!(port(0x103, SATA_SIG_PM).describe(), "AHCI Port Device PM ");
    assert_eq!(port(0, SATA_SIG_ATA).describe(), "AHCI Port Device NULL ");
    assert_eq!(DeviceType::Unknown(7).name(), "Unknown");
}

#[test]
fn slot_count_is_the_field_plus_one() {
    assert_eq!(hba(0).command_slots(), 1);
    assert_eq!(hba(0x0000_1F00).command_slots(), 32);
    assert_eq!(hba(0xFFFF_E0FF).command_slots(), 1);
    assert_eq!(hba(0x0000_0700).command_slots(), 8);
    assert!(hba(0).cap().contains(&"slots=1".to_string()));
    assert!(hba(0x0000_1F00).cap().contains(&"slots=32".to_string()));
    assert_eq!(CAP_NCS, 0b11111 << 8);
}

#[test]
fn port_count_is_the_field_plus_one() {
    assert_eq!(hba(0).ports(), 1);
    assert_eq!(hba(0x1F).ports(), 32);
    assert_eq!(hba(0xFFFF_FFE5).ports(), 6);
    assert_eq!(hba(0x10).ports(), 17);
    assert_eq!(CAP_NP, 0b11111);
}

#[test]
fn capability_entries_follow_the_register_s_bits() {
    assert_eq!(hba(0).cap(), vec!["slots=1", "ports=1"]);
    assert_eq!(
        hba(0xC014_1F05).cap(),
        vec!["64bit", "ncq", "Gen 1 (1.5Gbps)", "slots=32", "ports=6"]
    );
    assert_eq!(
        hba(0xFFFF_FFFF).cap(),
        vec![
            "64bit",
            "ncq",
            "cpd",
            "ssu",
            "alpm",
            "al",
            "rawfis",
            "Gen 15 (? Gbps)",
            "ahci_only",
            "pm",
            "fis_switching",
            "pmd",
            "ssc",
            "ps",
            "slots=32",
            "cccs",
            "ems",
            "sxs",
            "ports=32",
        ]
    );
    assert_eq!(hba(0x0020_0000).cap()[0], "Gen 2 (3 Gbps)");
    assert_eq!(hba(0x0030_0000).cap()[0], "Gen 3 (6 Gbps)");
    assert_eq!(hba(0x0040_0000).cap()[0], "Gen 4 (? Gbps)");
    assert!(is_set(0x8000_0000, CAP_A64));
    assert!(!is_set(0x7FFF_FFFF, CAP_A64));
    assert!(is_set(0xFF, 0x0F));
    assert!(!is_set(0x0E, 0x0F));
}

#[test]
fn global_control_entries_follow_the_register_s_bits() {
    let mut registers = hba(0);
    assert!(registers.ghc().is_empty());
    registers.global_hba_control = 0x8000_0002;
    assert_eq!(registers.ghc(), vec!["ae", "int_enable"]);
    registers.global_hba_control = 0xFFFF_FFFF;
    assert_eq!(registers.ghc(), vec!["ae", "msrm", "int_enable", "hba_reset"]);
}

#[test]
fn version_is_rendered_from_its_four_bytes() {
    let mut registers = hba(0);
    registers.version = 0x0001_0000;
    assert_eq!(registers.version(), "1.0");
    registers.version = 0x0001_0301;
    assert_eq!(registers.version(), "1.31");
    registers.version = 0x0100_0300;
    assert_eq!(registers.version(), "10.30");
    registers.version = 0xFFFF_FFFF;
    assert_eq!(registers.version(), "2805.2805");
}

#[test]
fn implemented_ports_text_counts_trailing_ones() {
    let mut registers = hba(0x05);
    registers.ports_implemented = 0b0111;
    assert_eq!(registers.pi(), 3);
    assert_eq!(registers.ports_implemented_text(), "3/6");
    registers.ports_implemented = 0b0110;
    assert_eq!(registers.pi(), 0);
    assert_eq!(registers.ports_implemented_text(), "0/6");
}

#[test]
fn bring_up_sets_bus_master_and_interrupt_disable() {
    let mut header = PCICommonHeader {
        vendor_id: 0x8086,
        device_id: 0x2922,
        command: 0x0103,
        status: 0,
        revision_id: 0,
        prog_if: 0,
        subclass: 0,
        base_class: 0,
        cacheline_size: 0,
        latency_timer: 0,
        header_type: 0,
        bist: 0,
        base_address_registers: [0; 6],
        cardbus_cis_pointer: 0,
        subsystem_vendor_id: 0,
        subsystem_id: 0,
        expansion_rom_base_address: 0,
        capabilities_pointer: 0,
        interrupt_line: 0,
        interrupt_pin: 0,
        min_gnt: 0,
        max_latency: 0,
        bus: 2,
        device: 3,
        function: 4,
    };
    let dispatch = ahci_init(&mut header, 0xFD00_0000);
    assert_eq!(header.command, 0x0507);
    assert_eq!(dispatch.command, 0x0507);
    assert_eq!(dispatch.abar, 0xFD00_0000);
    assert_eq!(dispatch.virt_abar, 0xFFFF_FFFF_4000_0000);
    assert_eq!((dispatch.bus, dispatch.device, dispatch.function), (2, 3, 4));
}
