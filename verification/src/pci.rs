//! PCI configuration reads and the common header of a function.

use crate::config_space::{config_address, spec_config_address, BusFunctionAddress, ConfigSpace};
use vstd::prelude::*;

verus! {

/// Vendor id that a function slot reads when nothing is plugged in.
pub const VENDOR_ABSENT: u16 = 0xFFFF;

/// Bit position of the half of a dword that holds the 16-bit word at `offset`.
pub open spec fn word_shift(offset: u8) -> u32 {
    ((offset & 2) as u32) << 3
}

/// The 16-bit word that a read at `offset` yields: the half of the
/// addressed dword that bit 1 of the offset selects.
pub open spec fn spec_read_word(space: &ConfigSpace, tuple: BusFunctionAddress, offset: u8) -> u16 {
    ((space.data(spec_config_address(tuple, offset)) >> word_shift(offset)) & 0xFFFF) as u16
}

/// The 32-bit value that a read at `offset` yields: the word at `offset`
/// below the word two bytes further on.
pub open spec fn spec_read_long(space: &ConfigSpace, tuple: BusFunctionAddress, offset: u8) -> u32
    recommends
        offset <= 0xFD,
{
    (spec_read_word(space, tuple, offset) as u32) | ((spec_read_word(
        space,
        tuple,
        (offset + 2) as u8,
    ) as u32) << 16)
}

/// The byte that a read at `offset` yields: the high byte of the word at
/// the even offset below an odd `offset`, the low byte of the word at an
/// even one.
pub open spec fn spec_read_byte(space: &ConfigSpace, tuple: BusFunctionAddress, offset: u8) -> u8 {
    let word = spec_read_word(space, tuple, offset & 0xFE);
    if offset % 2 == 1 {
        (word >> 8) as u8
    } else {
        word as u8
    }
}

/// How an offset selects within its dword and its word: the word at an
/// offset lies at bit 0 of the dword in its lower half and at bit 16 in
/// its upper half, and clearing bit 0 of an offset yields the even offset
/// at or below it.
pub proof fn lemma_shift_of_offset(offset: u8)
    ensures
        offset % 4 < 2 ==> word_shift(offset) == 0,
        offset % 4 >= 2 ==> word_shift(offset) == 16,
        offset % 2 == 0 ==> offset & 0xFE == offset,
        offset % 2 == 1 ==> offset & 0xFE == offset - 1,
{
    assert((offset % 4 < 2 ==> ((offset & 2) as u32) << 3 == 0) && (offset % 4 >= 2 ==> ((offset
        & 2) as u32) << 3 == 16) && (offset % 2 == 0 ==> offset & 0xFE == offset) && (offset % 2
        == 1 ==> offset & 0xFE == offset - 1)) by (bit_vector);
}

/// Reads the 16-bit word at `offset` through the access mechanism.
pub fn pci_config_read_word(space: &ConfigSpace, tuple: BusFunctionAddress, offset: u8) -> (word:
    u16)
    ensures
        word == spec_read_word(space, tuple, offset),
{
    let address = config_address(tuple, offset);
    let data = space.read_data(address);
    proof {
        lemma_shift_of_offset(offset);
    }
    let shift: u32 = ((offset & 2) as u32) << 3;
    ((data >> shift) & 0xFFFF) as u16
}

/// Reads 32 bits at `offset` as two word reads.
pub fn pci_config_read_long(space: &ConfigSpace, tuple: BusFunctionAddress, offset: u8) -> (long:
    u32)
    requires
        offset <= 0xFD,
    ensures
        long == spec_read_long(space, tuple, offset),
{
    let a = pci_config_read_word(space, tuple, offset) as u32;
    let b = pci_config_read_word(space, tuple, offset + 2) as u32;
    a | (b << 16)
}

/// Reads the byte at `offset`.
pub fn pci_config_read_byte(space: &ConfigSpace, tuple: BusFunctionAddress, offset: u8) -> (byte:
    u8)
    ensures
        byte == spec_read_byte(space, tuple, offset),
{
    proof {
        lemma_shift_of_offset(offset);
    }
    if offset % 2 == 1 {
        (pci_config_read_word(space, tuple, offset - 1) >> 8) as u8
    } else {
        pci_config_read_word(space, tuple, offset) as u8
    }
}

/// The decoded standard configuration header of one function.
#[derive(Clone, Copy, Debug, PartialEq, Eq)]
pub struct PCICommonHeader {
    pub vendor_id: u16,
    pub device_id: u16,
    pub command: u16,
    pub status: u16,
    pub revision_id: u8,
    pub prog_if: u8,
    pub subclass: u8,
    pub base_class: u8,
    pub cacheline_size: u8,
    pub latency_timer: u8,
    pub header_type: u8,
    pub bist: u8,
    pub base_address_registers: [u32; 6],
    pub cardbus_cis_pointer: u32,
    pub subsystem_vendor_id: u16,
    pub subsystem_id: u16,
    pub expansion_rom_base_address: u32,
    pub capabilities_pointer: u8,
    pub interrupt_line: u8,
    pub interrupt_pin: u8,
    pub min_gnt: u8,
    pub max_latency: u8,
    pub bus: u8,
    pub device: u8,
    pub function: u8,
}

/// The summary of a discovered function that the registry keeps.
#[derive(Clone, Copy, Debug, PartialEq, Eq)]
pub struct PciConf {
    pub vendor_id: u16,
    pub device_id: u16,
    pub subsystem_vendor_id: u16,
    pub subsystem_id: u16,
    pub revision_id: u8,
    pub prog_if: u8,
    pub subclass: u8,
    pub base_class: u8,
    pub cacheline_size: u8,
    pub header_type: u8,
    pub function: u8,
    pub device: u8,
    pub bus: u8,
}

/// Whether a function answers at `tuple`: its vendor id is not all ones.
pub open spec fn function_present(space: &ConfigSpace, tuple: BusFunctionAddress) -> bool {
    spec_read_word(space, tuple, 0) != VENDOR_ABSENT
}

/// The header of the function at `tuple`: each field is what the
/// configuration space reads at the field's architected offset.
pub open spec fn header_at(space: &ConfigSpace, tuple: BusFunctionAddress) -> PCICommonHeader {
    PCICommonHeader {
        vendor_id: spec_read_word(space, tuple, 0x00),
        device_id: spec_read_word(space, tuple, 0x02),
        command: spec_read_word(space, tuple, 0x04),
        status: spec_read_word(space, tuple, 0x06),
        revision_id: spec_read_byte(space, tuple, 0x08),
        prog_if: spec_read_byte(space, tuple, 0x09),
        subclass: spec_read_byte(space, tuple, 0x0A),
        base_class: spec_read_byte(space, tuple, 0x0B),
        cacheline_size: spec_read_byte(space, tuple, 0x0C),
        latency_timer: spec_read_byte(space, tuple, 0x0D),
        header_type: spec_read_byte(space, tuple, 0x0E),
        bist: spec_read_byte(space, tuple, 0x0F),
        base_address_registers: [
            spec_read_long(space, tuple, 0x10),
            spec_read_long(space, tuple, 0x14),
            spec_read_long(space, tuple, 0x18),
            spec_read_long(space, tuple, 0x1C),
            spec_read_long(space, tuple, 0x20),
            spec_read_long(space, tuple, 0x24),
        ],
        cardbus_cis_pointer: spec_read_long(space, tuple, 0x28),
        subsystem_vendor_id: spec_read_word(space, tuple, 0x2C),
        subsystem_id: spec_read_word(space, tuple, 0x2E),
        expansion_rom_base_address: spec_read_long(space, tuple, 0x30),
        capabilities_pointer: spec_read_byte(space, tuple, 0x34),
        interrupt_line: spec_read_byte(space, tuple, 0x3C),
        interrupt_pin: spec_read_byte(space, tuple, 0x3D),
        min_gnt: spec_read_byte(space, tuple, 0x3E),
        max_latency: spec_read_byte(space, tuple, 0x3F),
        bus: tuple.0,
        device: tuple.1,
        function: tuple.2,
    }
}

/// The summary that the registry keeps of `header`, filed under the given
/// bus, device and function.
pub open spec fn conf_of(header: PCICommonHeader, bus: u8, device: u8, function: u8) -> PciConf {
    PciConf {
        vendor_id: header.vendor_id,
        device_id: header.device_id,
        subsystem_vendor_id: header.subsystem_vendor_id,
        subsystem_id: header.subsystem_id,
        revision_id: header.revision_id,
        prog_if: header.prog_if,
        subclass: header.subclass,
        base_class: header.base_class,
        cacheline_size: header.cacheline_size,
        header_type: header.header_type,
        function,
        device,
        bus,
    }
}

/// The vendor id at `tuple`, or `None` where no function answers.
pub fn pci_get_vendor_id(space: &ConfigSpace, tuple: BusFunctionAddress) -> (vendor: Option<u16>)
    ensures
        vendor == if function_present(space, tuple) {
            Some(spec_read_word(space, tuple, 0))
        } else {
            None
        },
{
    let vendor = pci_config_read_word(space, tuple, 0);
    if vendor != VENDOR_ABSENT {
        Some(vendor)
    } else {
        None
    }
}

/// The header-type byte of `tuple`; bit 7 marks a multi-function device.
pub fn get_header_type(space: &ConfigSpace, tuple: BusFunctionAddress) -> (header_type: u8)
    ensures
        header_type == spec_read_byte(space, tuple, 0x0E),
{
    pci_config_read_byte(space, tuple, 0xe)
}

/// The device id that function 0 of the device in `slot` reports.
pub fn pci_get_device_id(space: &ConfigSpace, bus: u8, slot: u8) -> (device_id: u16)
    ensures
        device_id == spec_read_word(space, (bus, slot, 0u8), 2),
{
    pci_config_read_word(space, (bus, slot, 0), 2)
}

/// The revision id of `tuple`.
pub fn get_revision_id(space: &ConfigSpace, tuple: BusFunctionAddress) -> (revision: u8)
    ensures
        revision == spec_read_byte(space, tuple, 0x08),
{
    pci_config_read_byte(space, tuple, 8)
}

/// The programming interface of `tuple`.
pub fn get_prog_if(space: &ConfigSpace, tuple: BusFunctionAddress) -> (prog_if: u8)
    ensures
        prog_if == spec_read_byte(space, tuple, 0x09),
{
    pci_config_read_byte(space, tuple, 0x9)
}

/// The subclass of `tuple`.
pub fn get_subclass(space: &ConfigSpace, tuple: BusFunctionAddress) -> (subclass: u8)
    ensures
        subclass == spec_read_byte(space, tuple, 0x0A),
{
    proof {
        lemma_shift_of_offset(0xa);
    }
    pci_config_read_word(space, tuple, 0xa) as u8
}

/// The base class of `tuple`.
pub fn get_base_class(space: &ConfigSpace, tuple: BusFunctionAddress) -> (base_class: u8)
    ensures
        base_class == spec_read_byte(space, tuple, 0x0B),
{
    pci_config_read_byte(space, tuple, 0xb)
}

impl PCICommonHeader {
    /// Decodes the header of the function at `(bus, device, function)`, or
    /// `None` where no function answers there.
    pub fn from(space: &ConfigSpace, bus: u8, device: u8, function: u8) -> (header: Option<Self>)
        ensures
            header == if function_present(space, (bus, device, function)) {
                Some(header_at(space, (bus, device, function)))
            } else {
                None
            },
    {
        let tuple = (bus, device, function);
        let vendor_id = pci_get_vendor_id(space, tuple);
        if vendor_id.is_none() {
            return None;
        }
        let vendor_id = vendor_id.unwrap();
        let device_id = pci_config_read_word(space, tuple, 0x2);
        let command = pci_config_read_word(space, tuple, 0x4);
        let status = pci_config_read_word(space, tuple, 0x6);
        let revision_id = get_revision_id(space, tuple);
        let prog_if = get_prog_if(space, tuple);
        let base_class = get_base_class(space, tuple);
        let subclass = get_subclass(space, tuple);
        let cacheline_size = pci_config_read_byte(space, tuple, 0xC);
        let latency_timer = pci_config_read_byte(space, tuple, 0xD);
        let header_type = get_header_type(space, tuple);
        let bist = pci_config_read_byte(space, tuple, 0xF);
        let base_address_registers = [
            pci_config_read_long(space, tuple, 0x10),
            pci_config_read_long(space, tuple, 0x14),
            pci_config_read_long(space, tuple, 0x18),
            pci_config_read_long(space, tuple, 0x1C),
            pci_config_read_long(space, tuple, 0x20),
            pci_config_read_long(space, tuple, 0x24),
        ];
        let cardbus_cis_pointer = pci_config_read_long(space, tuple, 0x28);
        let subsystem_vendor_id = pci_config_read_word(space, tuple, 0x2C);
        let subsystem_id = pci_config_read_word(space, tuple, 0x2E);
        let expansion_rom_base_address = pci_config_read_long(space, tuple, 0x30);
        let capabilities_pointer = pci_config_read_byte(space, tuple, 0x34);
        let interrupt_line = pci_config_read_byte(space, tuple, 0x3C);
        let interrupt_pin = pci_config_read_byte(space, tuple, 0x3D);
        let min_gnt = pci_config_read_byte(space, tuple, 0x3E);
        let max_latency = pci_config_read_byte(space, tuple, 0x3F);
        let header = PCICommonHeader {
            vendor_id,
            device_id,
            command,
            status,
            revision_id,
            prog_if,
            base_class,
            subclass,
            cacheline_size,
            latency_timer,
            header_type,
            bist,
            base_address_registers,
            cardbus_cis_pointer,
            subsystem_vendor_id,
            subsystem_id,
            expansion_rom_base_address,
            capabilities_pointer,
            interrupt_line,
            interrupt_pin,
            min_gnt,
            max_latency,
            bus,
            device,
            function,
        };
        assert(header.base_address_registers@ =~= header_at(space, tuple).base_address_registers@);
        Some(header)
    }

    /// The six base address registers.
    pub fn bar(&self) -> (registers: [u32; 6])
        ensures
            registers == self.base_address_registers,
    {
        self.base_address_registers
    }

    /// The registry's summary of this header, filed under the given bus,
    /// device and function.
    pub fn as_pci_conf(&self, bus: u8, device: u8, function: u8) -> (conf: PciConf)
        ensures
            conf == conf_of(*self, bus, device, function),
    {
        PciConf {
            vendor_id: self.vendor_id,
            device_id: self.device_id,
            subsystem_vendor_id: self.subsystem_vendor_id,
            subsystem_id: self.subsystem_id,
            revision_id: self.revision_id,
            prog_if: self.prog_if,
            subclass: self.subclass,
            base_class: self.base_class,
            cacheline_size: self.cacheline_size,
            header_type: self.header_type,
            bus,
            device,
            function,
        }
    }
}

/// Command-register bit 1: the function answers memory-space accesses.
pub const COMMAND_MEMORY_SPACE_RESPONSE: u16 = 0x0002;

/// Command-register bit 2: the function may act as a bus master.
pub const COMMAND_BUS_MASTER: u16 = 0x0004;

/// Command-register bit 10: the function's legacy interrupt is switched off.
pub const COMMAND_INTERRUPT_DISABLE: u16 = 0x0400;

/// Sets the bus-master bit of the header's command word.
pub fn enable_command_bus_master(hdr: &mut PCICommonHeader)
    ensures
        *final(hdr) == (PCICommonHeader {
            command: old(hdr).command | COMMAND_BUS_MASTER,
            ..*old(hdr)
        }),
{
    hdr.command |= COMMAND_BUS_MASTER;
}

/// Sets the interrupt-disable bit of the header's command word.
pub fn disable_intr(hdr: &mut PCICommonHeader)
    ensures
        *final(hdr) == (PCICommonHeader {
            command: old(hdr).command | COMMAND_INTERRUPT_DISABLE,
            ..*old(hdr)
        }),
{
    hdr.command |= COMMAND_INTERRUPT_DISABLE;
}

/// Clears the interrupt-disable bit of the header's command word.
pub fn enable_intr(hdr: &mut PCICommonHeader)
    ensures
        *final(hdr) == (PCICommonHeader {
            command: old(hdr).command & !COMMAND_INTERRUPT_DISABLE,
            ..*old(hdr)
        }),
{
    hdr.command &= !COMMAND_INTERRUPT_DISABLE;
}

} // verus!
