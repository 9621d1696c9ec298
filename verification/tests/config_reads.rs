use rust_kernel::config_space::{config_address, ConfigSpace, CONFIG_ADDRESS, CONFIG_DATA};
use rust_kernel::pci::{
    get_base_class, get_header_type, get_prog_if, get_revision_id, get_subclass,
    pci_config_read_byte, pci_config_read_long, pci_config_read_word, pci_get_device_id,
    pci_get_vendor_id,
};

fn put(space: &mut ConfigSpace, tuple: (u8, u8, u8), offset: u8, value: u32) {
    space.store_data(config_address(tuple, offset), value);
}

#[test]
fn access_ports_are_the_architected_pair() {
    assert_eq!(CONFIG_ADDRESS, 0xCF8);
    assert_eq!(CONFIG_DATA, 0xCFC);
}

#[test]
fn address_word_places_each_field() {
    assert_eq!(config_address((0, 0, 0), 0), 0x8000_0000);
    assert_eq!(config_address((0xAB, 0, 0), 0), 0x80AB_0000);
    assert_eq!(config_address((0, 0x1F, 0), 0), 0x8000_F800);
    assert_eq!(config_address((0, 0, 7), 0), 0x8000_0700);
    assert_eq!(config_address((0, 0, 0), 0xFC), 0x8000_00FC);
    assert_eq!(config_address((0x12, 0x0A, 3), 0x44), 0x8012_5344);
}

#[test]
fn address_word_clears_the_low_offset_bits() {
    assert_eq!(config_address((1, 2, 3), 0x45), config_address((1, 2, 3), 0x44));
    assert_eq!(config_address((1, 2, 3), 0x46), config_address((1, 2, 3), 0x44));
    assert_eq!(config_address((1, 2, 3), 0x47), config_address((1, 2, 3), 0x44));
    assert_eq!(config_address((1, 2, 3), 0xFF), 0x8001_13FC);
}

#[test]
fn address_word_keeps_device_and_function_in_their_fields() {
    assert_eq!(config_address((0, 0x20, 0), 0), 0x8000_0000);
    assert_eq!(config_address((0, 0, 8), 0), 0x8000_0000);
    assert_eq!(config_address((0, 0xFF, 0xFF), 0), 0x8000_FF00);
}

#[test]
fn empty_space_reads_as_a_floating_bus() {
    let space = ConfigSpace::new();
    assert_eq!(space.read_data(config_address((0, 0, 0), 0)), 0xFFFF_FFFF);
    assert_eq!(space.read_data(config_address((255, 31, 7), 0xFC)), 0xFFFF_FFFF);
    assert_eq!(pci_config_read_word(&space, (3, 4, 5), 0), 0xFFFF);
    assert_eq!(pci_get_vendor_id(&space, (3, 4, 5)), None);
}

#[test]
fn stored_register_reads_back_and_leaves_others() {
    let mut space = ConfigSpace::new();
    put(&mut space, (2, 3, 1), 0x10, 0x1234_5678);
    assert_eq!(space.read_data(config_address((2, 3, 1), 0x10)), 0x1234_5678);
    assert_eq!(space.read_data(config_address((2, 3, 1), 0x13)), 0x1234_5678);
    assert_eq!(space.read_data(config_address((2, 3, 1), 0x14)), 0xFFFF_FFFF);
    assert_eq!(space.read_data(config_address((2, 3, 1), 0x0C)), 0xFFFF_FFFF);
    assert_eq!(space.read_data(config_address((2, 3, 0), 0x10)), 0xFFFF_FFFF);
    put(&mut space, (2, 3, 1), 0x10, 0);
    assert_eq!(space.read_data(config_address((2, 3, 1), 0x10)), 0);
}

#[test]
fn word_read_selects_the_half_by_offset_bit_one() {
    let mut space = ConfigSpace::new();
    put(&mut space, (0, 1, 0), 0x08, 0xAABB_CCDD);
    assert_eq!(pci_config_read_word(&space, (0, 1, 0), 0x08), 0xCCDD);
    assert_eq!(pci_config_read_word(&space, (0, 1, 0), 0x09), 0xCCDD);
    assert_eq!(pci_config_read_word(&space, (0, 1, 0), 0x0A), 0xAABB);
    assert_eq!(pci_config_read_word(&space, (0, 1, 0), 0x0B), 0xAABB);
}

#[test]
fn byte_read_is_the_slice_of_the_word_at_the_even_offset() {
    let mut space = ConfigSpace::new();
    put(&mut space, (0, 1, 0), 0x08, 0xAABB_CCDD);
    assert_eq!(pci_config_read_byte(&space, (0, 1, 0), 0x08), 0xDD);
    assert_eq!(pci_config_read_byte(&space, (0, 1, 0), 0x09), 0xCC);
    assert_eq!(pci_config_read_byte(&space, (0, 1, 0), 0x0A), 0xBB);
    assert_eq!(pci_config_read_byte(&space, (0, 1, 0), 0x0B), 0xAA);
    for offset in 0u8..=255 {
        let word = pci_config_read_word(&space, (0, 1, 0), offset & !1);
        let expected = if offset % 2 == 1 { (word >> 8) as u8 } else { word as u8 };
        assert_eq!(pci_config_read_byte(&space, (0, 1, 0), offset), expected);
    }
}

#[test]
fn long_read_joins_two_words() {
    let mut space = ConfigSpace::new();
    put(&mut space, (0, 1, 0), 0x10, 0x1122_3344);
    put(&mut space, (0, 1, 0), 0x14, 0x5566_7788);
    assert_eq!(pci_config_read_long(&space, (0, 1, 0), 0x10), 0x1122_3344);
    assert_eq!(pci_config_read_long(&space, (0, 1, 0), 0x14), 0x5566_7788);
    assert_eq!(pci_config_read_long(&space, (0, 1, 0), 0x12), 0x7788_1122);
    assert_eq!(pci_config_read_long(&space, (0, 1, 0), 0x11), 0x1122_3344);
}

#[test]
fn identity_getters_read_their_offsets() {
    let mut space = ConfigSpace::new();
    put(&mut space, (4, 5, 0), 0x00, 0x2922_8086);
    put(&mut space, (4, 5, 0), 0x08, 0x0106_0102);
    put(&mut space, (4, 5, 0), 0x0C, 0x0080_4010);
    put(&mut space, (4, 5, 6), 0x00, 0x1111_2222);
    assert_eq!(pci_get_vendor_id(&space, (4, 5, 0)), Some(0x8086));
    assert_eq!(pci_get_device_id(&space, 4, 5), 0x2922);
    assert_eq!(get_revision_id(&space, (4, 5, 0)), 0x02);
    assert_eq!(get_prog_if(&space, (4, 5, 0)), 0x01);
    assert_eq!(get_subclass(&space, (4, 5, 0)), 0x06);
    assert_eq!(get_base_class(&space, (4, 5, 0)), 0x01);
    assert_eq!(get_header_type(&space, (4, 5, 0)), 0x80);
    assert_eq!(pci_get_vendor_id(&space, (4, 5, 6)), Some(0x2222));
    assert_eq!(pci_get_vendor_id(&space, (4, 5, 1)), None);
}
