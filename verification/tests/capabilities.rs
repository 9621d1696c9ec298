use rust_kernel::ahci::AhciDispatch;
use rust_kernel::capability::{
    dispatch_sata, read_capability, record_fits, traverse_headers, Capability, CapabilityError,
    Msi, MsiNoMask, MsiType, Msi_X, Sata, CAPABILITY_MSI, CAPABILITY_MSI_X, CAPABILITY_SATA,
    MAX_CAPABILITY_HOPS,
};
use rust_kernel::config_space::{config_address, ConfigSpace};
use rust_kernel::encode::{store_word, store_words};
use rust_kernel::pci::PCICommonHeader;

const TUPLE: (u8, u8, u8) = (0, 4, 0);

fn plain_header() -> PCICommonHeader {
    PCICommonHeader {
        vendor_id: 0x1234,
        device_id: 0x5678,
        command: 0x0003,
        status: 0x0010,
        revision_id: 0,
        prog_if: 0,
        subclass: 0,
        base_class: 0,
        cacheline_size: 0,
        latency_timer: 0,
        header_type: 0,
        bist: 0,
        base_address_registers: [0, 0, 0, 0, 0, 0xFEBF_1000],
        cardbus_cis_pointer: 0,
        subsystem_vendor_id: 0,
        subsystem_id: 0,
        expansion_rom_base_address: 0,
        capabilities_pointer: 0x40,
        interrupt_line: 0,
        interrupt_pin: 0,
        min_gnt: 0,
        max_latency: 0,
        bus: TUPLE.0,
        device: TUPLE.1,
        function: TUPLE.2,
    }
}

fn ahci_header() -> PCICommonHeader {
    let mut header = plain_header();
    header.vendor_id = 0x8086;
    header.device_id = 0x2922;
    header.subsystem_vendor_id = 0x1af4;
    header.subsystem_id = 0x1100;
    header
}

fn msi(next_ptr: u8) -> Msi {
    Msi {
        cap_id: CAPABILITY_MSI,
        next_ptr,
        message_control: 0x0180,
        message_address: 0xFEE0_0000,
        message_upper_address: 0x0000_0001,
        message_data: 0x4041,
        mask_bits: 0x0000_00FF,
        pending_bits: 0x8000_0001,
    }
}

fn msi_no_mask(next_ptr: u8) -> MsiNoMask {
    MsiNoMask {
        cap_id: CAPABILITY_MSI,
        next_ptr,
        message_control: 0x0080,
        message_address: 0xFEE0_1000,
        message_upper_address: 0x0000_0002,
        message_data: 0x1234,
    }
}

fn msi_x(next_ptr: u8) -> Msi_X {
    Msi_X {
        cap_id: CAPABILITY_MSI_X,
        next_ptr,
        message_control: 0x8003,
        bir: 0x04,
        table_offset: 0x2000 >> 3,
        pending_bit_bir: 0x04,
        pending_bit_offset: 0x3000 >> 3,
    }
}

fn sata(offset: u8, next_ptr: u8) -> Sata {
    Sata { cap_id: CAPABILITY_SATA, next_ptr, minor0to4major4to7: 0x10, sata_r1: 0x0000_0048, offset }
}

#[test]
fn capability_ids_are_the_architected_ones() {
    assert_eq!(CAPABILITY_MSI, 0x05);
    assert_eq!(CAPABILITY_MSI_X, 0x11);
    assert_eq!(CAPABILITY_SATA, 0x12);
}

#[test]
fn msi_record_decodes_byte_for_byte() {
    let mut space = ConfigSpace::new();
    space.store_data(config_address(TUPLE, 0x50), 0x0180_6005);
    space.store_data(config_address(TUPLE, 0x54), 0xFEE0_0000);
    space.store_data(config_address(TUPLE, 0x58), 0x0000_0001);
    space.store_data(config_address(TUPLE, 0x5C), 0xFFFF_4041);
    space.store_data(config_address(TUPLE, 0x60), 0x0000_00FF);
    space.store_data(config_address(TUPLE, 0x64), 0x8000_0001);
    assert_eq!(Msi::from_cap_ptr(&space, TUPLE, 0x50), Ok(msi(0x60)));
}

#[test]
fn msi_record_round_trips() {
    let mut space = ConfigSpace::new();
    msi(0x70).store(&mut space, TUPLE, 0x50);
    assert_eq!(Msi::from_cap_ptr(&space, TUPLE, 0x50), Ok(msi(0x70)));
    assert_eq!(space.read_data(config_address(TUPLE, 0x4C)), 0xFFFF_FFFF);
    assert_eq!(space.read_data(config_address(TUPLE, 0x68)), 0xFFFF_FFFF);
}

#[test]
fn records_round_trip_at_every_even_offset_where_they_fit() {
    for offset in (0x02..=0xE8u8).step_by(2) {
        let mut space = ConfigSpace::new();
        msi(0x44).store(&mut space, TUPLE, offset);
        assert_eq!(Msi::from_cap_ptr(&space, TUPLE, offset), Ok(msi(0x44)));
    }
    for offset in (0x02..=0xF2u8).step_by(2) {
        let mut space = ConfigSpace::new();
        msi_no_mask(0x44).store(&mut space, TUPLE, offset);
        assert_eq!(MsiNoMask::from_cap_ptr(&space, TUPLE, offset), Ok(msi_no_mask(0x44)));
    }
    for offset in (0x02..=0xF4u8).step_by(2) {
        let mut space = ConfigSpace::new();
        msi_x(0x44).store(&mut space, TUPLE, offset);
        assert_eq!(Msi_X::from_cap_ptr(&space, TUPLE, offset), Ok(msi_x(0x44)));
    }
    for offset in (0x02..=0xF8u8).step_by(2) {
        let mut space = ConfigSpace::new();
        sata(offset, 0x44).store(&mut space, TUPLE);
        assert_eq!(Sata::from_cap_ptr(&space, TUPLE, offset), Ok(sata(offset, 0x44)));
    }
}

#[test]
fn record_at_an_odd_offset_is_read_from_the_even_offset_below() {
    let mut space = ConfigSpace::new();
    msi_x(0x44).store(&mut space, TUPLE, 0x50);
    let decoded = Msi_X::from_cap_ptr(&space, TUPLE, 0x51).unwrap();
    assert_eq!(decoded.cap_id, CAPABILITY_MSI_X);
    assert_eq!(decoded.next_ptr, 0x80);
    assert_eq!(decoded.message_control, 0x8003);
    assert_ne!(decoded, msi_x(0x44));
}

#[test]
fn stored_words_leave_their_neighbours() {
    let mut space = ConfigSpace::new();
    space.store_data(config_address(TUPLE, 0x40), 0x1122_3344);
    space.store_data(config_address(TUPLE, 0x44), 0x5566_7788);
    store_word(&mut space, TUPLE, 0x42, 0xAAAA);
    assert_eq!(space.read_data(config_address(TUPLE, 0x40)), 0xAAAA_3344);
    store_word(&mut space, TUPLE, 0x44, 0xBBBB);
    assert_eq!(space.read_data(config_address(TUPLE, 0x44)), 0x5566_BBBB);
    store_words(&mut space, TUPLE, 0x42, &vec![0x0001, 0x0002, 0x0003]);
    assert_eq!(space.read_data(config_address(TUPLE, 0x40)), 0x0001_3344);
    assert_eq!(space.read_data(config_address(TUPLE, 0x44)), 0x0003_0002);
    assert_eq!(space.read_data(config_address(TUPLE, 0x48)), 0xFFFF_FFFF);
    assert_eq!(space.read_data(config_address((0, 4, 1), 0x40)), 0xFFFF_FFFF);
    store_words(&mut space, TUPLE, 0xFE, &vec![0x1234]);
    assert_eq!(space.read_data(config_address(TUPLE, 0xFC)), 0x1234_FFFF);
}

#[test]
fn msi_without_mask_round_trips() {
    let mut space = ConfigSpace::new();
    msi_no_mask(0).store(&mut space, TUPLE, 0xF0);
    assert_eq!(MsiNoMask::from_cap_ptr(&space, TUPLE, 0xF0), Ok(msi_no_mask(0)));
}

#[test]
fn msi_x_round_trips_with_offsets_in_units_of_eight() {
    let mut space = ConfigSpace::new();
    msi_x(0).store(&mut space, TUPLE, 0x90);
    assert_eq!(space.read_data(config_address(TUPLE, 0x94)), 0x0000_2004);
    assert_eq!(space.read_data(config_address(TUPLE, 0x98)), 0x0000_3004);
    let decoded = Msi_X::from_cap_ptr(&space, TUPLE, 0x90).unwrap();
    assert_eq!(decoded, msi_x(0));
    assert_eq!(decoded.table_offset, 0x400);
    assert_eq!(decoded.pending_bit_offset, 0x600);
}

#[test]
fn sata_round_trips_and_names_its_fields() {
    let mut space = ConfigSpace::new();
    sata(0xA8, 0).store(&mut space, TUPLE);
    let decoded = Sata::from_cap_ptr(&space, TUPLE, 0xA8).unwrap();
    assert_eq!(decoded, sata(0xA8, 0));
    assert_eq!(decoded.minor_revision(), 0);
    assert_eq!(decoded.major_revision(), 1);
    assert_eq!(decoded.bar_location_raw(), 0b1000);
    assert_eq!(decoded.bar_offset_raw(), 4);
    assert_eq!(decoded.bar_offset(), 16);
    assert_eq!(decoded.bar_location(), (0x20, "BAR4"));
}

#[test]
fn sata_bar_location_maps_each_code() {
    let mut record = sata(0x80, 0);
    let table = [
        (0b0100, 0x10, "BAR0"),
        (0b0101, 0x14, "BAR1"),
        (0b0110, 0x18, "BAR2"),
        (0b0111, 0x1C, "BAR3"),
        (0b1000, 0x20, "BAR4"),
        (0b1001, 0x24, "BAR5"),
        (0b1111, 0x88, "After SATACR1"),
        (0b0000, 0x10, "unknown (using BAR0)"),
        (0b1010, 0x10, "unknown (using BAR0)"),
    ];
    for (code, offset, name) in table {
        record.sata_r1 = 0xFFFF_FFF0 | code;
        assert_eq!(record.bar_location(), (offset, name));
    }
    record.sata_r1 = 0xFFFF_FFFF;
    assert_eq!(record.bar_offset_raw(), 0x000F_FFFF);
    assert_eq!(record.bar_offset(), 0x003F_FFFC);
    record.minor0to4major4to7 = 0xA5;
    assert_eq!(record.minor_revision(), 0x5);
    assert_eq!(record.major_revision(), 0xA);
}

#[test]
fn wrong_capability_id_is_a_mismatch() {
    let mut space = ConfigSpace::new();
    msi_x(0).store(&mut space, TUPLE, 0x40);
    assert_eq!(Msi::from_cap_ptr(&space, TUPLE, 0x40), Err(CapabilityError::CapabilityMismatch));
    assert_eq!(
        MsiNoMask::from_cap_ptr(&space, TUPLE, 0x40),
        Err(CapabilityError::CapabilityMismatch)
    );
    assert_eq!(Sata::from_cap_ptr(&space, TUPLE, 0x40), Err(CapabilityError::CapabilityMismatch));
    msi(0).store(&mut space, TUPLE, 0x40);
    assert_eq!(Msi_X::from_cap_ptr(&space, TUPLE, 0x40), Err(CapabilityError::CapabilityMismatch));
}

#[test]
fn msi_without_64_bit_addressing_is_unsupported() {
    let mut space = ConfigSpace::new();
    space.store_data(config_address(TUPLE, 0x40), 0x0100_0005);
    assert_eq!(Msi::from_cap_ptr(&space, TUPLE, 0x40), Err(CapabilityError::UnsupportedMsiVariant));
    space.store_data(config_address(TUPLE, 0x40), 0x0000_0005);
    assert_eq!(
        MsiNoMask::from_cap_ptr(&space, TUPLE, 0x40),
        Err(CapabilityError::UnsupportedMsiVariant)
    );
    assert_eq!(
        read_capability(&space, TUPLE, 0x40),
        Err(CapabilityError::UnsupportedMsiVariant)
    );
}

#[test]
fn masked_decoder_rejects_a_record_without_masking() {
    let mut space = ConfigSpace::new();
    msi_no_mask(0).store(&mut space, TUPLE, 0x40);
    assert_eq!(Msi::from_cap_ptr(&space, TUPLE, 0x40), Err(CapabilityError::UnsupportedMsiVariant));
}

#[test]
fn record_of_the_right_kind_that_does_not_fit_is_malformed() {
    let mut space = ConfigSpace::new();
    space.store_data(config_address(TUPLE, 0xEC), 0x0180_0005);
    store_words(&mut space, TUPLE, 0xF6, &vec![0x0011]);
    store_words(&mut space, TUPLE, 0xFA, &vec![0x0012]);
    space.store_data(config_address(TUPLE, 0xFC), 0x0180_0005);
    assert!(record_fits(0xE8, 0x18));
    assert!(!record_fits(0xE9, 0x18));
    assert_eq!(
        Msi::from_cap_ptr(&space, TUPLE, 0xEC),
        Err(CapabilityError::MalformedCapabilityChain)
    );
    assert_eq!(
        MsiNoMask::from_cap_ptr(&space, TUPLE, 0xFC),
        Err(CapabilityError::MalformedCapabilityChain)
    );
    assert_eq!(
        Msi_X::from_cap_ptr(&space, TUPLE, 0xF6),
        Err(CapabilityError::MalformedCapabilityChain)
    );
    assert_eq!(
        Sata::from_cap_ptr(&space, TUPLE, 0xFA),
        Err(CapabilityError::MalformedCapabilityChain)
    );
    assert_eq!(
        read_capability(&space, TUPLE, 0xFC),
        Err(CapabilityError::MalformedCapabilityChain)
    );
    assert_eq!(
        read_capability(&space, TUPLE, 0xFA),
        Err(CapabilityError::MalformedCapabilityChain)
    );
}

#[test]
fn wrong_id_is_a_mismatch_wherever_the_record_stands() {
    let mut space = ConfigSpace::new();
    space.store_data(config_address(TUPLE, 0xFC), 0x0180_0005);
    for offset in [0x00u8, 0x40, 0xE8, 0xEA, 0xF2, 0xF4, 0xF8, 0xFA, 0xFE, 0xFF] {
        assert_eq!(
            Msi::from_cap_ptr(&space, TUPLE, offset),
            Err(CapabilityError::CapabilityMismatch)
        );
        assert_eq!(
            MsiNoMask::from_cap_ptr(&space, TUPLE, offset),
            Err(CapabilityError::CapabilityMismatch)
        );
        assert_eq!(
            Msi_X::from_cap_ptr(&space, TUPLE, offset),
            Err(CapabilityError::CapabilityMismatch)
        );
        assert_eq!(
            Sata::from_cap_ptr(&space, TUPLE, offset),
            Err(CapabilityError::CapabilityMismatch)
        );
    }
    assert_eq!(Msi_X::from_cap_ptr(&space, TUPLE, 0xFC), Err(CapabilityError::CapabilityMismatch));
    assert_eq!(Sata::from_cap_ptr(&space, TUPLE, 0xFC), Err(CapabilityError::CapabilityMismatch));
}

#[test]
fn msi_without_64_bit_addressing_is_unsupported_wherever_the_record_stands() {
    for offset in (0x40..=0xFCu8).step_by(2) {
        let mut space = ConfigSpace::new();
        store_words(&mut space, TUPLE, offset, &vec![0x0005, 0x0100]);
        assert_eq!(
            Msi::from_cap_ptr(&space, TUPLE, offset),
            Err(CapabilityError::UnsupportedMsiVariant)
        );
        assert_eq!(
            MsiNoMask::from_cap_ptr(&space, TUPLE, offset),
            Err(CapabilityError::UnsupportedMsiVariant)
        );
        assert_eq!(
            read_capability(&space, TUPLE, offset),
            Err(CapabilityError::UnsupportedMsiVariant)
        );
        store_words(&mut space, TUPLE, offset, &vec![0x0005, 0x0080]);
        assert_eq!(
            Msi::from_cap_ptr(&space, TUPLE, offset),
            Err(CapabilityError::UnsupportedMsiVariant)
        );
    }
}

#[test]
fn msi_whose_message_control_lies_beyond_the_space_is_malformed() {
    let mut space = ConfigSpace::new();
    store_words(&mut space, TUPLE, 0xFE, &vec![0x0005]);
    assert_eq!(
        Msi::from_cap_ptr(&space, TUPLE, 0xFE),
        Err(CapabilityError::MalformedCapabilityChain)
    );
    assert_eq!(
        MsiNoMask::from_cap_ptr(&space, TUPLE, 0xFF),
        Err(CapabilityError::MalformedCapabilityChain)
    );
    assert_eq!(
        read_capability(&space, TUPLE, 0xFE),
        Err(CapabilityError::MalformedCapabilityChain)
    );
}

#[test]
fn record_is_decoded_by_its_id_and_masking_bit() {
    let mut space = ConfigSpace::new();
    msi(0).store(&mut space, TUPLE, 0x40);
    msi_no_mask(0).store(&mut space, TUPLE, 0x60);
    msi_x(0).store(&mut space, TUPLE, 0x70);
    sata(0x80, 0).store(&mut space, TUPLE);
    space.store_data(config_address(TUPLE, 0x90), 0x0000_A001);
    assert_eq!(
        read_capability(&space, TUPLE, 0x40),
        Ok(Some(Capability::Msi(MsiType::WithMask(msi(0)))))
    );
    assert_eq!(
        read_capability(&space, TUPLE, 0x60),
        Ok(Some(Capability::Msi(MsiType::WithoutMask(msi_no_mask(0)))))
    );
    assert_eq!(read_capability(&space, TUPLE, 0x70), Ok(Some(Capability::MsiX(msi_x(0)))));
    assert_eq!(read_capability(&space, TUPLE, 0x80), Ok(Some(Capability::Sata(sata(0x80, 0)))));
    assert_eq!(read_capability(&space, TUPLE, 0x90), Ok(None));
    assert_eq!(Capability::Sata(sata(0x80, 0x44)).next_ptr(), 0x44);
    assert_eq!(Capability::Msi(MsiType::WithMask(msi(0x48))).next_ptr(), 0x48);
}

#[test]
fn walk_follows_the_links_in_order() {
    let mut space = ConfigSpace::new();
    sata(0x40, 0x60).store(&mut space, TUPLE);
    msi_no_mask(0x50).store(&mut space, TUPLE, 0x60);
    msi_x(0x80).store(&mut space, TUPLE, 0x50);
    msi(0).store(&mut space, TUPLE, 0x80);
    let mut header = plain_header();
    let walk = traverse_headers(&space, TUPLE, 0x40, &mut header);
    assert_eq!(
        walk.capabilities,
        vec![
            Capability::Sata(sata(0x40, 0x60)),
            Capability::Msi(MsiType::WithoutMask(msi_no_mask(0x50))),
            Capability::MsiX(msi_x(0x80)),
            Capability::Msi(MsiType::WithMask(msi(0))),
        ]
    );
    assert_eq!(walk.error, None);
    assert!(walk.dispatches.is_empty());
    assert_eq!(header, plain_header());
}

#[test]
fn walk_from_pointer_zero_finds_nothing() {
    let mut space = ConfigSpace::new();
    space.store_data(config_address(TUPLE, 0x00), 0x5678_1205);
    let mut header = plain_header();
    let walk = traverse_headers(&space, TUPLE, 0, &mut header);
    assert!(walk.capabilities.is_empty());
    assert_eq!(walk.error, None);
}

#[test]
fn walk_ends_at_an_id_that_is_not_decoded() {
    let mut space = ConfigSpace::new();
    msi_x(0x50).store(&mut space, TUPLE, 0x40);
    space.store_data(config_address(TUPLE, 0x50), 0x0000_6001);
    msi(0).store(&mut space, TUPLE, 0x60);
    let mut header = plain_header();
    let walk = traverse_headers(&space, TUPLE, 0x40, &mut header);
    assert_eq!(walk.capabilities, vec![Capability::MsiX(msi_x(0x50))]);
    assert_eq!(walk.error, None);
}

#[test]
fn walk_over_a_cycle_stops_at_the_hop_limit() {
    let mut space = ConfigSpace::new();
    msi_x(0x50).store(&mut space, TUPLE, 0x40);
    msi_x(0x40).store(&mut space, TUPLE, 0x50);
    let mut header = plain_header();
    let walk = traverse_headers(&space, TUPLE, 0x40, &mut header);
    assert_eq!(walk.error, Some(CapabilityError::MalformedCapabilityChain));
    assert_eq!(walk.capabilities.len(), MAX_CAPABILITY_HOPS as usize);
    assert_eq!(walk.capabilities[0], Capability::MsiX(msi_x(0x50)));
    assert_eq!(walk.capabilities[1], Capability::MsiX(msi_x(0x40)));
}

#[test]
fn walk_keeps_what_it_decoded_before_an_error() {
    let mut space = ConfigSpace::new();
    sata(0x40, 0x48).store(&mut space, TUPLE);
    space.store_data(config_address(TUPLE, 0x48), 0x0000_0005);
    let mut header = ahci_header();
    let walk = traverse_headers(&space, TUPLE, 0x40, &mut header);
    assert_eq!(walk.capabilities, vec![Capability::Sata(sata(0x40, 0x48))]);
    assert_eq!(walk.error, Some(CapabilityError::UnsupportedMsiVariant));
    assert_eq!(walk.dispatches.len(), 1);
}

#[test]
fn sata_record_of_the_known_controller_is_dispatched_with_bar5() {
    let mut space = ConfigSpace::new();
    sata(0x40, 0).store(&mut space, TUPLE);
    let mut header = ahci_header();
    let walk = traverse_headers(&space, TUPLE, 0x40, &mut header);
    assert_eq!(
        walk.dispatches,
        vec![AhciDispatch {
            bus: 0,
            device: 4,
            function: 0,
            abar: 0xFEBF_1000,
            command: 0x0407,
            virt_abar: 0xFFFF_FFFF_41BF_1000,
        }]
    );
    assert_eq!(header.command, 0x0407);
}

#[test]
fn sata_record_of_another_device_is_not_dispatched() {
    let mut space = ConfigSpace::new();
    sata(0x40, 0).store(&mut space, TUPLE);
    for field in 0..4 {
        let mut header = ahci_header();
        match field {
            0 => header.vendor_id = 0x8087,
            1 => header.device_id = 0x2923,
            2 => header.subsystem_vendor_id = 0x1af5,
            _ => header.subsystem_id = 0x1101,
        }
        let before = header;
        let walk = traverse_headers(&space, TUPLE, 0x40, &mut header);
        assert_eq!(walk.capabilities.len(), 1);
        assert!(walk.dispatches.is_empty());
        assert_eq!(header, before);
        assert_eq!(dispatch_sata(&mut header, 0), None);
    }
}
