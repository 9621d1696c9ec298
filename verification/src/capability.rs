//! The capability chain of a function: its records, their decoding, and
//! the walk along the chain.

use crate::ahci::{ahci_init, bring_up_command, dispatch_for, AhciDispatch};
use crate::config_space::{BusFunctionAddress, ConfigSpace};
use crate::pci::{
    pci_config_read_byte, pci_config_read_long, pci_config_read_word, spec_read_byte,
    spec_read_long, spec_read_word, PCICommonHeader,
};
use vstd::prelude::*;

verus! {

/// Message-control bit 8: the MSI function supports per-vector masking.
pub const MSI_PER_VECTOR_MASKING: u16 = 0x0100;

/// Message-control bit 7: the MSI function takes a 64-bit message address.
pub const MSI_64BIT: u16 = 0x0080;

pub const CAPABILITY_MSI: u8 = 0x05;

pub const CAPABILITY_MSI_X: u8 = 0x11;

pub const CAPABILITY_SATA: u8 = 0x12;

/// Bytes from the start of an MSI record to its message-control word.
pub const MSI_CONTROL_OFFSET: u8 = 0x02;

/// Bytes that each record spans from its capability offset.
pub const MSI_RECORD_BYTES: u8 = 0x18;

pub const MSI_NO_MASK_RECORD_BYTES: u8 = 0x0E;

pub const MSI_X_RECORD_BYTES: u8 = 0x0C;

pub const SATA_RECORD_BYTES: u8 = 0x08;

/// Why a capability could not be decoded.
#[derive(Clone, Copy, Debug, PartialEq, Eq, Structural)]
pub enum CapabilityError {
    /// The record at the offset does not carry the capability id that its
    /// decoder stands for.
    CapabilityMismatch,
    /// The MSI record is of a kind that is not handled: it lacks 64-bit
    /// addressing, or the masking that its decoder stands for.
    UnsupportedMsiVariant,
    /// The chain leads to a record of the right kind that does not lie
    /// within the function's configuration space, or does not end within
    /// the hop limit.
    MalformedCapabilityChain,
}

/// Whether a record of `bytes` bytes that starts at `offset` ends within the
/// 256 bytes of a function's configuration space.
pub open spec fn spec_record_fits(offset: u8, bytes: u8) -> bool {
    offset + bytes <= 0x100
}

/// Tells whether a record of `bytes` bytes that starts at `offset` ends
/// within a function's configuration space.
#[verifier::when_used_as_spec(spec_record_fits)]
pub fn record_fits(offset: u8, bytes: u8) -> (fits: bool)
    ensures
        fits == spec_record_fits(offset, bytes),
{
    offset as u16 + bytes as u16 <= 0x100
}

/// Whether the message-control word of an MSI record at `offset` has an
/// offset within the function's configuration space.
pub open spec fn spec_has_message_control(offset: u8) -> bool {
    offset + MSI_CONTROL_OFFSET <= 0xFF
}

/// Tells whether the message-control word of an MSI record at `offset`
/// has an offset within the function's configuration space.
#[verifier::when_used_as_spec(spec_has_message_control)]
pub fn has_message_control(offset: u8) -> (within: bool)
    ensures
        within == spec_has_message_control(offset),
{
    offset <= 0xFF - MSI_CONTROL_OFFSET
}

/// The capability id that a record at `offset` shows: the low byte of the
/// word read there.
pub open spec fn capability_id_at(space: &ConfigSpace, tuple: BusFunctionAddress, offset: u8) -> u8 {
    spec_read_word(space, tuple, offset) as u8
}

/// The link to the next record that a record at `offset` shows: the high
/// byte of the word read one byte further on.
pub open spec fn next_pointer_at(space: &ConfigSpace, tuple: BusFunctionAddress, offset: u8) -> u8 {
    (spec_read_word(space, tuple, (offset + 1) as u8) >> 8) as u8
}

/// The message-control word of an MSI or MSI-X record at `offset`.
pub open spec fn message_control_at(
    space: &ConfigSpace,
    tuple: BusFunctionAddress,
    offset: u8,
) -> u16 {
    spec_read_word(space, tuple, (offset + 2) as u8)
}

/// An MSI record with 64-bit addressing and per-vector masking.
#[derive(Debug, Clone, Copy, PartialEq, Eq)]
pub struct Msi {
    pub cap_id: u8,
    pub next_ptr: u8,
    pub message_control: u16,
    pub message_address: u32,
    pub message_upper_address: u32,
    pub message_data: u16,
    pub mask_bits: u32,
    pub pending_bits: u32,
}

impl Msi {
    /// The fields as the configuration space of `tuple` shows them from
    /// `offset` on.
    pub open spec fn fields_at(space: &ConfigSpace, tuple: BusFunctionAddress, offset: u8) -> Msi {
        Msi {
            cap_id: capability_id_at(space, tuple, offset),
            next_ptr: next_pointer_at(space, tuple, offset),
            message_control: message_control_at(space, tuple, offset),
            message_address: spec_read_long(space, tuple, (offset + 0x4) as u8),
            message_upper_address: spec_read_long(space, tuple, (offset + 0x8) as u8),
            message_data: spec_read_word(space, tuple, (offset + 0xC) as u8),
            mask_bits: spec_read_long(space, tuple, (offset + 0x10) as u8),
            pending_bits: spec_read_long(space, tuple, (offset + 0x14) as u8),
        }
    }

    /// What decoding at `offset` yields: the fields, or the first of the
    /// checks that fails. The id is checked first, then the message
    /// control, and last whether the whole record lies within the
    /// function's configuration space; a record whose message control
    /// lies beyond it cannot be told to be of any kind.
    pub open spec fn decode(space: &ConfigSpace, tuple: BusFunctionAddress, offset: u8) -> Result<
        Msi,
        CapabilityError,
    > {
        if capability_id_at(space, tuple, offset) != CAPABILITY_MSI {
            Err(CapabilityError::CapabilityMismatch)
        } else if !spec_has_message_control(offset) {
            Err(CapabilityError::MalformedCapabilityChain)
        } else if message_control_at(space, tuple, offset) & MSI_64BIT == 0 {
            Err(CapabilityError::UnsupportedMsiVariant)
        } else if message_control_at(space, tuple, offset) & MSI_PER_VECTOR_MASKING == 0 {
            Err(CapabilityError::UnsupportedMsiVariant)
        } else if !spec_record_fits(offset, MSI_RECORD_BYTES) {
            Err(CapabilityError::MalformedCapabilityChain)
        } else {
            Ok(Msi::fields_at(space, tuple, offset))
        }
    }

    /// Decodes the MSI record at `offset`.
    pub fn from_cap_ptr(space: &ConfigSpace, tuple: BusFunctionAddress, offset: u8) -> (record:
        Result<Self, CapabilityError>)
        ensures
            record == Msi::decode(space, tuple, offset),
    {
        let cap_id = pci_config_read_word(space, tuple, offset) as u8;
        if cap_id != CAPABILITY_MSI {
            return Err(CapabilityError::CapabilityMismatch);
        }
        if !has_message_control(offset) {
            return Err(CapabilityError::MalformedCapabilityChain);
        }
        let next_ptr = (pci_config_read_word(space, tuple, offset + 0x1) >> 8) as u8;
        let message_control = pci_config_read_word(space, tuple, offset + 0x2);
        if message_control & MSI_64BIT == 0 {
            return Err(CapabilityError::UnsupportedMsiVariant);
        }
        if message_control & MSI_PER_VECTOR_MASKING == 0 {
            return Err(CapabilityError::UnsupportedMsiVariant);
        }
        if !record_fits(offset, MSI_RECORD_BYTES) {
            return Err(CapabilityError::MalformedCapabilityChain);
        }
        let message_address = pci_config_read_long(space, tuple, offset + 0x4);
        let message_upper_address = pci_config_read_long(space, tuple, offset + 0x8);
        let message_data = pci_config_read_word(space, tuple, offset + 0xC);
        let mask_bits = pci_config_read_long(space, tuple, offset + 0x10);
        let pending_bits = pci_config_read_long(space, tuple, offset + 0x14);
        Ok(
            Msi {
                cap_id,
                next_ptr,
                message_control,
                message_address,
                message_upper_address,
                message_data,
                mask_bits,
                pending_bits,
            },
        )
    }
}

/// An MSI record with 64-bit addressing and without per-vector masking.
#[derive(Debug, Clone, Copy, PartialEq, Eq)]
pub struct MsiNoMask {
    pub cap_id: u8,
    pub next_ptr: u8,
    pub message_control: u16,
    pub message_address: u32,
    pub message_upper_address: u32,
    pub message_data: u16,
}

impl MsiNoMask {
    /// The fields as the configuration space of `tuple` shows them from
    /// `offset` on.
    pub open spec fn fields_at(
        space: &ConfigSpace,
        tuple: BusFunctionAddress,
        offset: u8,
    ) -> MsiNoMask {
        MsiNoMask {
            cap_id: capability_id_at(space, tuple, offset),
            next_ptr: next_pointer_at(space, tuple, offset),
            message_control: message_control_at(space, tuple, offset),
            message_address: spec_read_long(space, tuple, (offset + 0x4) as u8),
            message_upper_address: spec_read_long(space, tuple, (offset + 0x8) as u8),
            message_data: spec_read_word(space, tuple, (offset + 0xC) as u8),
        }
    }

    /// What decoding at `offset` yields: the fields, or the first of the
    /// checks that fails. The id is checked first, then the message
    /// control, and last whether the whole record lies within the
    /// function's configuration space; a record whose message control
    /// lies beyond it cannot be told to be of any kind.
    pub open spec fn decode(space: &ConfigSpace, tuple: BusFunctionAddress, offset: u8) -> Result<
        MsiNoMask,
        CapabilityError,
    > {
        if capability_id_at(space, tuple, offset) != CAPABILITY_MSI {
            Err(CapabilityError::CapabilityMismatch)
        } else if !spec_has_message_control(offset) {
            Err(CapabilityError::MalformedCapabilityChain)
        } else if message_control_at(space, tuple, offset) & MSI_64BIT == 0 {
            Err(CapabilityError::UnsupportedMsiVariant)
        } else if !spec_record_fits(offset, MSI_NO_MASK_RECORD_BYTES) {
            Err(CapabilityError::MalformedCapabilityChain)
        } else {
            Ok(MsiNoMask::fields_at(space, tuple, offset))
        }
    }

    /// Decodes the MSI record at `offset`.
    pub fn from_cap_ptr(space: &ConfigSpace, tuple: BusFunctionAddress, offset: u8) -> (record:
        Result<Self, CapabilityError>)
        ensures
            record == MsiNoMask::decode(space, tuple, offset),
    {
        let cap_id = pci_config_read_word(space, tuple, offset) as u8;
        if cap_id != CAPABILITY_MSI {
            return Err(CapabilityError::CapabilityMismatch);
        }
        if !has_message_control(offset) {
            return Err(CapabilityError::MalformedCapabilityChain);
        }
        let next_ptr = (pci_config_read_word(space, tuple, offset + 0x1) >> 8) as u8;
        let message_control = pci_config_read_word(space, tuple, offset + 0x2);
        if message_control & MSI_64BIT == 0 {
            return Err(CapabilityError::UnsupportedMsiVariant);
        }
        if !record_fits(offset, MSI_NO_MASK_RECORD_BYTES) {
            return Err(CapabilityError::MalformedCapabilityChain);
        }
        let message_address = pci_config_read_long(space, tuple, offset + 0x4);
        let message_upper_address = pci_config_read_long(space, tuple, offset + 0x8);
        let message_data = pci_config_read_word(space, tuple, offset + 0xC);
        Ok(
            MsiNoMask {
                cap_id,
                next_ptr,
                message_control,
                message_address,
                message_upper_address,
                message_data,
            },
        )
    }
}

/// An MSI-X record. The two offsets are kept in units of eight bytes: the
/// three low bits of their registers are dropped.
#[derive(Debug, Clone, Copy, PartialEq, Eq)]
#[allow(non_camel_case_types)]
pub struct Msi_X {
    pub cap_id: u8,
    pub next_ptr: u8,
    pub message_control: u16,
    pub bir: u8,
    pub table_offset: u32,
    pub pending_bit_bir: u8,
    pub pending_bit_offset: u32,
}

impl Msi_X {
    /// The fields as the configuration space of `tuple` shows them from
    /// `offset` on.
    pub open spec fn fields_at(space: &ConfigSpace, tuple: BusFunctionAddress, offset: u8) -> Msi_X {
        Msi_X {
            cap_id: capability_id_at(space, tuple, offset),
            next_ptr: next_pointer_at(space, tuple, offset),
            message_control: message_control_at(space, tuple, offset),
            bir: spec_read_byte(space, tuple, (offset + 0x4) as u8),
            table_offset: spec_read_long(space, tuple, (offset + 0x4) as u8) >> 3,
            pending_bit_bir: spec_read_byte(space, tuple, (offset + 0x8) as u8),
            pending_bit_offset: spec_read_long(space, tuple, (offset + 0x8) as u8) >> 3,
        }
    }

    /// What decoding at `offset` yields: the fields, or the first of the
    /// checks that fails. The id is checked first, then whether the
    /// record lies within the function's configuration space.
    pub open spec fn decode(space: &ConfigSpace, tuple: BusFunctionAddress, offset: u8) -> Result<
        Msi_X,
        CapabilityError,
    > {
        if capability_id_at(space, tuple, offset) != CAPABILITY_MSI_X {
            Err(CapabilityError::CapabilityMismatch)
        } else if !spec_record_fits(offset, MSI_X_RECORD_BYTES) {
            Err(CapabilityError::MalformedCapabilityChain)
        } else {
            Ok(Msi_X::fields_at(space, tuple, offset))
        }
    }

    /// Decodes the MSI-X record at `offset`.
    pub fn from_cap_ptr(space: &ConfigSpace, tuple: BusFunctionAddress, offset: u8) -> (record:
        Result<Self, CapabilityError>)
        ensures
            record == Msi_X::decode(space, tuple, offset),
    {
        let cap_id = pci_config_read_word(space, tuple, offset) as u8;
        if cap_id != CAPABILITY_MSI_X {
            return Err(CapabilityError::CapabilityMismatch);
        }
        if !record_fits(offset, MSI_X_RECORD_BYTES) {
            return Err(CapabilityError::MalformedCapabilityChain);
        }
        let next_ptr = (pci_config_read_word(space, tuple, offset + 0x1) >> 8) as u8;
        let message_control = pci_config_read_word(space, tuple, offset + 0x2);
        let bir = pci_config_read_byte(space, tuple, offset + 4);
        let table_offset = pci_config_read_long(space, tuple, offset + 4) >> 3;
        let pending_bit_bir = pci_config_read_byte(space, tuple, offset + 0x8);
        let pending_bit_offset = pci_config_read_long(space, tuple, offset + 0x8) >> 3;
        Ok(
            Msi_X {
                cap_id,
                next_ptr,
                message_control,
                bir,
                table_offset,
                pending_bit_bir,
                pending_bit_offset,
            },
        )
    }
}

pub const SATAR0_MINOR_REVISION_MASK: u8 = 0x0F;

pub const SATAR0_MAJOR_REVISION_MASK: u8 = 0xF0;

pub const SATAR1_BAR_LOCATION: u32 = 0x0000_000F;

pub const SATAR1_BAR_OFFSET: u32 = 0x00FF_FFF0;

/// A SATA capability record: the two capability registers, and the offset
/// at which the record sits, from which one of its locations is counted.
#[derive(Debug, Clone, Copy, PartialEq, Eq)]
pub struct Sata {
    pub cap_id: u8,
    pub next_ptr: u8,
    pub minor0to4major4to7: u8,
    pub sata_r1: u32,
    pub offset: u8,
}

impl Sata {
    /// The fields as the configuration space of `tuple` shows them from
    /// `offset` on.
    pub open spec fn fields_at(space: &ConfigSpace, tuple: BusFunctionAddress, offset: u8) -> Sata {
        Sata {
            cap_id: capability_id_at(space, tuple, offset),
            next_ptr: next_pointer_at(space, tuple, offset),
            minor0to4major4to7: spec_read_word(space, tuple, (offset + 0x2) as u8) as u8,
            sata_r1: spec_read_long(space, tuple, (offset + 0x4) as u8),
            offset,
        }
    }

    /// What decoding at `offset` yields: the fields, or the first of the
    /// checks that fails. The id is checked first, then whether the
    /// record lies within the function's configuration space.
    pub open spec fn decode(space: &ConfigSpace, tuple: BusFunctionAddress, offset: u8) -> Result<
        Sata,
        CapabilityError,
    > {
        if capability_id_at(space, tuple, offset) != CAPABILITY_SATA {
            Err(CapabilityError::CapabilityMismatch)
        } else if !spec_record_fits(offset, SATA_RECORD_BYTES) {
            Err(CapabilityError::MalformedCapabilityChain)
        } else {
            Ok(Sata::fields_at(space, tuple, offset))
        }
    }

    /// Decodes the SATA record at `offset`.
    pub fn from_cap_ptr(space: &ConfigSpace, tuple: BusFunctionAddress, offset: u8) -> (record:
        Result<Self, CapabilityError>)
        ensures
            record == Sata::decode(space, tuple, offset),
    {
        let cap_id = pci_config_read_word(space, tuple, offset) as u8;
        if cap_id != CAPABILITY_SATA {
            return Err(CapabilityError::CapabilityMismatch);
        }
        if !record_fits(offset, SATA_RECORD_BYTES) {
            return Err(CapabilityError::MalformedCapabilityChain);
        }
        let next_ptr = (pci_config_read_word(space, tuple, offset + 0x1) >> 8) as u8;
        let revision = pci_config_read_word(space, tuple, offset + 0x2) as u8;
        let r1 = pci_config_read_long(space, tuple, offset + 0x4);
        Ok(Sata { cap_id, next_ptr, minor0to4major4to7: revision, sata_r1: r1, offset })
    }

    /// Minor revision: the low four bits of the revision byte.
    pub open spec fn spec_minor_revision(&self) -> u8 {
        self.minor0to4major4to7 & SATAR0_MINOR_REVISION_MASK
    }

    /// Major revision: the high four bits of the revision byte.
    pub open spec fn spec_major_revision(&self) -> u8 {
        (self.minor0to4major4to7 & SATAR0_MAJOR_REVISION_MASK) >> 4
    }

    /// The four-bit code of the register in which the window's base lies.
    pub open spec fn spec_bar_location_raw(&self) -> u8 {
        (self.sata_r1 & SATAR1_BAR_LOCATION) as u8
    }

    /// The twenty-bit offset field, in units of four bytes.
    pub open spec fn spec_bar_offset_raw(&self) -> u32 {
        (self.sata_r1 & SATAR1_BAR_OFFSET) >> 4
    }

    /// Minor revision: the low four bits of the revision byte.
    #[verifier::when_used_as_spec(spec_minor_revision)]
    pub fn minor_revision(&self) -> (minor: u8)
        ensures
            minor == self.spec_minor_revision(),
    {
        self.minor0to4major4to7 & SATAR0_MINOR_REVISION_MASK
    }

    /// Major revision: the high four bits of the revision byte.
    #[verifier::when_used_as_spec(spec_major_revision)]
    pub fn major_revision(&self) -> (major: u8)
        ensures
            major == self.spec_major_revision(),
    {
        (self.minor0to4major4to7 & SATAR0_MAJOR_REVISION_MASK) >> 4
    }

    /// The four-bit code of the register in which the window's base lies.
    #[verifier::when_used_as_spec(spec_bar_location_raw)]
    pub fn bar_location_raw(&self) -> (code: u8)
        ensures
            code == self.spec_bar_location_raw(),
    {
        (self.sata_r1 & SATAR1_BAR_LOCATION) as u8
    }

    /// The twenty-bit offset field, in units of four bytes.
    #[verifier::when_used_as_spec(spec_bar_offset_raw)]
    pub fn bar_offset_raw(&self) -> (raw: u32)
        ensures
            raw == self.spec_bar_offset_raw(),
            raw <= 0x000F_FFFF,
    {
        let r1 = self.sata_r1;
        assert((r1 & 0x00FF_FFF0u32) >> 4 <= 0x000F_FFFFu32) by (bit_vector);
        (self.sata_r1 & SATAR1_BAR_OFFSET) >> 4
    }

    /// The offset of the window from its base register, in bytes: four
    /// times the offset field.
    pub fn bar_offset(&self) -> (bytes: u32)
        ensures
            bytes == self.spec_bar_offset_raw() * 4,
    {
        self.bar_offset_raw() * 4
    }

    /// The configuration offset of the register that holds the window's
    /// base, and its name: one of the six base address registers, or the
    /// dword that follows this record.
    pub fn bar_location(&self) -> (location: (u8, &'static str))
        requires
            self.spec_bar_location_raw() == 0xF ==> self.offset <= 0xF7,
        ensures
            location.0 == match self.spec_bar_location_raw() {
                0x4 => 0x10u8,
                0x5 => 0x14u8,
                0x6 => 0x18u8,
                0x7 => 0x1Cu8,
                0x8 => 0x20u8,
                0x9 => 0x24u8,
                0xF => (self.offset + 8) as u8,
                _ => 0x10u8,
            },
            location.1@ == match self.spec_bar_location_raw() {
                0x4 => "BAR0"@,
                0x5 => "BAR1"@,
                0x6 => "BAR2"@,
                0x7 => "BAR3"@,
                0x8 => "BAR4"@,
                0x9 => "BAR5"@,
                0xF => "After SATACR1"@,
                _ => "unknown (using BAR0)"@,
            },
    {
        match self.bar_location_raw() {
            0b0100 => (0x10, "BAR0"),
            0b0101 => (0x14, "BAR1"),
            0b0110 => (0x18, "BAR2"),
            0b0111 => (0x1C, "BAR3"),
            0b1000 => (0x20, "BAR4"),
            0b1001 => (0x24, "BAR5"),
            0b1111 => (self.offset + 8, "After SATACR1"),
            _ => (0x10, "unknown (using BAR0)"),
        }
    }
}

/// The two kinds of MSI record that are decoded.
#[derive(Debug, Clone, Copy, PartialEq, Eq)]
pub enum MsiType {
    WithMask(Msi),
    WithoutMask(MsiNoMask),
}

/// One decoded record of a capability chain.
#[derive(Debug, Clone, Copy, PartialEq, Eq)]
pub enum Capability {
    Msi(MsiType),
    MsiX(Msi_X),
    Sata(Sata),
}

impl Capability {
    /// The offset of the record that follows this one; 0 ends the chain.
    pub open spec fn spec_next_ptr(&self) -> u8 {
        match *self {
            Capability::Msi(MsiType::WithMask(msi)) => msi.next_ptr,
            Capability::Msi(MsiType::WithoutMask(msi)) => msi.next_ptr,
            Capability::MsiX(msi_x) => msi_x.next_ptr,
            Capability::Sata(sata) => sata.next_ptr,
        }
    }

    /// The offset of the record that follows this one; 0 ends the chain.
    #[verifier::when_used_as_spec(spec_next_ptr)]
    pub fn next_ptr(&self) -> (next: u8)
        ensures
            next == self.spec_next_ptr(),
    {
        match self {
            Capability::Msi(MsiType::WithMask(msi)) => msi.next_ptr,
            Capability::Msi(MsiType::WithoutMask(msi)) => msi.next_ptr,
            Capability::MsiX(msi_x) => msi_x.next_ptr,
            Capability::Sata(sata) => sata.next_ptr,
        }
    }
}

/// What the record at `offset` decodes to, by its capability id: an MSI
/// record of the kind that its masking bit tells, an MSI-X record, a SATA
/// record, or `None` for an id that is not decoded.
pub open spec fn decode_capability(
    space: &ConfigSpace,
    tuple: BusFunctionAddress,
    offset: u8,
) -> Result<Option<Capability>, CapabilityError> {
    let cap_id = capability_id_at(space, tuple, offset);
    if cap_id == CAPABILITY_MSI {
        if !spec_has_message_control(offset) {
            Err(CapabilityError::MalformedCapabilityChain)
        } else if message_control_at(space, tuple, offset) & MSI_PER_VECTOR_MASKING != 0 {
            match Msi::decode(space, tuple, offset) {
                Ok(msi) => Ok(Some(Capability::Msi(MsiType::WithMask(msi)))),
                Err(error) => Err(error),
            }
        } else {
            match MsiNoMask::decode(space, tuple, offset) {
                Ok(msi) => Ok(Some(Capability::Msi(MsiType::WithoutMask(msi)))),
                Err(error) => Err(error),
            }
        }
    } else if cap_id == CAPABILITY_SATA {
        match Sata::decode(space, tuple, offset) {
            Ok(sata) => Ok(Some(Capability::Sata(sata))),
            Err(error) => Err(error),
        }
    } else if cap_id == CAPABILITY_MSI_X {
        match Msi_X::decode(space, tuple, offset) {
            Ok(msi_x) => Ok(Some(Capability::MsiX(msi_x))),
            Err(error) => Err(error),
        }
    } else {
        Ok(None)
    }
}

/// Decodes the record at `offset` by its capability id.
pub fn read_capability(space: &ConfigSpace, tuple: BusFunctionAddress, offset: u8) -> (record:
    Result<Option<Capability>, CapabilityError>)
    ensures
        record == decode_capability(space, tuple, offset),
{
    let cap_id = pci_config_read_word(space, tuple, offset) as u8;
    if cap_id == CAPABILITY_MSI {
        if !has_message_control(offset) {
            return Err(CapabilityError::MalformedCapabilityChain);
        }
        let control = pci_config_read_word(space, tuple, offset + 0x2);
        if control & MSI_PER_VECTOR_MASKING != 0 {
            match Msi::from_cap_ptr(space, tuple, offset) {
                Ok(msi) => Ok(Some(Capability::Msi(MsiType::WithMask(msi)))),
                Err(error) => Err(error),
            }
        } else {
            match MsiNoMask::from_cap_ptr(space, tuple, offset) {
                Ok(msi) => Ok(Some(Capability::Msi(MsiType::WithoutMask(msi)))),
                Err(error) => Err(error),
            }
        }
    } else if cap_id == CAPABILITY_SATA {
        match Sata::from_cap_ptr(space, tuple, offset) {
            Ok(sata) => Ok(Some(Capability::Sata(sata))),
            Err(error) => Err(error),
        }
    } else if cap_id == CAPABILITY_MSI_X {
        match Msi_X::from_cap_ptr(space, tuple, offset) {
            Ok(msi_x) => Ok(Some(Capability::MsiX(msi_x))),
            Err(error) => Err(error),
        }
    } else {
        Ok(None)
    }
}

/// Most records that a walk decodes. A chain without a cycle is shorter:
/// its records start at distinct offsets other than 0.
pub const MAX_CAPABILITY_HOPS: u32 = 255;

/// The records of the chain that starts at `offset`, in chain order, and
/// why the walk stopped early, if it did. The chain ends at a link of 0
/// and at a record whose id is not decoded; it is cut off with
/// `MalformedCapabilityChain` once `hops` records are decoded and the link
/// still leads on, and with the record's own error at a record that does
/// not decode.
pub open spec fn spec_walk(
    space: &ConfigSpace,
    tuple: BusFunctionAddress,
    offset: u8,
    hops: nat,
) -> (Seq<Capability>, Option<CapabilityError>)
    decreases hops,
{
    if offset == 0 {
        (Seq::empty(), None)
    } else if hops == 0 {
        (Seq::empty(), Some(CapabilityError::MalformedCapabilityChain))
    } else {
        match decode_capability(space, tuple, offset) {
            Err(error) => (Seq::empty(), Some(error)),
            Ok(None) => (Seq::empty(), None),
            Ok(Some(capability)) => {
                let rest = spec_walk(space, tuple, capability.spec_next_ptr(), (hops - 1) as nat);
                (seq![capability] + rest.0, rest.1)
            },
        }
    }
}

pub const AHCI_VENDOR_ID: u16 = 0x8086;

pub const AHCI_DEVICE_ID: u16 = 0x2922;

pub const AHCI_SUBSYSTEM_VENDOR_ID: u16 = 0x1af4;

pub const AHCI_SUBSYSTEM_ID: u16 = 0x1100;

/// Whether the header is that of the SATA controller that is brought up.
pub open spec fn is_ahci_controller(hdr: PCICommonHeader) -> bool {
    &&& hdr.vendor_id == AHCI_VENDOR_ID
    &&& hdr.device_id == AHCI_DEVICE_ID
    &&& hdr.subsystem_vendor_id == AHCI_SUBSYSTEM_VENDOR_ID
    &&& hdr.subsystem_id == AHCI_SUBSYSTEM_ID
}

/// The header once its controller is brought up.
pub open spec fn brought_up(hdr: PCICommonHeader) -> PCICommonHeader {
    PCICommonHeader { command: bring_up_command(hdr.command), ..hdr }
}

/// Hands a SATA capability's function to the AHCI bring-up where its
/// header is that of the known controller. The register window is taken
/// from the sixth base address register; `offset`, the window's offset
/// as the record tells it, plays no part.
pub fn dispatch_sata(hdr: &mut PCICommonHeader, offset: u32) -> (dispatch: Option<AhciDispatch>)
    ensures
        dispatch == if is_ahci_controller(*old(hdr)) {
            Some(dispatch_for(*old(hdr), old(hdr).base_address_registers[5]))
        } else {
            None
        },
        *final(hdr) == if is_ahci_controller(*old(hdr)) {
            brought_up(*old(hdr))
        } else {
            *old(hdr)
        },
{
    if hdr.vendor_id == AHCI_VENDOR_ID && hdr.device_id == AHCI_DEVICE_ID
        && hdr.subsystem_vendor_id == AHCI_SUBSYSTEM_VENDOR_ID && hdr.subsystem_id
        == AHCI_SUBSYSTEM_ID {
        let abar = hdr.base_address_registers[5];
        Some(ahci_init(hdr, abar))
    } else {
        None
    }
}

/// How many of the records are SATA records.
pub open spec fn sata_records(capabilities: Seq<Capability>) -> nat
    decreases capabilities.len(),
{
    if capabilities.len() == 0 {
        0
    } else {
        sata_records(capabilities.drop_last()) + if capabilities.last() is Sata {
            1nat
        } else {
            0nat
        }
    }
}

/// The bring-ups that a walk over `capabilities` asks for: one for each
/// SATA record where the header is that of the known controller.
pub open spec fn walk_dispatches(hdr: PCICommonHeader, capabilities: Seq<Capability>) -> Seq<
    AhciDispatch,
> {
    if is_ahci_controller(hdr) {
        Seq::new(
            sata_records(capabilities),
            |i: int| dispatch_for(hdr, hdr.base_address_registers[5]),
        )
    } else {
        Seq::empty()
    }
}

/// The header after a walk over `capabilities`.
pub open spec fn header_after_walk(
    hdr: PCICommonHeader,
    capabilities: Seq<Capability>,
) -> PCICommonHeader {
    if is_ahci_controller(hdr) && sata_records(capabilities) > 0 {
        brought_up(hdr)
    } else {
        hdr
    }
}

/// What a walk along a capability chain found.
#[derive(Debug, Clone, PartialEq, Eq)]
pub struct CapabilityWalk {
    /// The records that were decoded, in chain order.
    pub capabilities: Vec<Capability>,
    /// The controller bring-ups that the records asked for.
    pub dispatches: Vec<AhciDispatch>,
    /// Why the walk stopped before the end of the chain, if it did.
    pub error: Option<CapabilityError>,
}

proof fn lemma_bring_up_idempotent(command: u16)
    ensures
        bring_up_command(bring_up_command(command)) == bring_up_command(command),
{
    assert((((command | 0x0004u16) | 0x0400u16) | 0x0004u16) | 0x0400u16 == (command | 0x0004u16)
        | 0x0400u16) by (bit_vector);
}

/// Walks the capability chain of `tuple` from `offset`, decoding each
/// record and handing SATA records to the controller bring-up.
pub fn traverse_headers(
    space: &ConfigSpace,
    tuple: BusFunctionAddress,
    offset: u8,
    hdr: &mut PCICommonHeader,
) -> (walk: CapabilityWalk)
    ensures
        walk.capabilities@ == spec_walk(space, tuple, offset, MAX_CAPABILITY_HOPS as nat).0,
        walk.error == spec_walk(space, tuple, offset, MAX_CAPABILITY_HOPS as nat).1,
        walk.dispatches@ == walk_dispatches(*old(hdr), walk.capabilities@),
        *final(hdr) == header_after_walk(*old(hdr), walk.capabilities@),
{
    let ghost full = spec_walk(space, tuple, offset, MAX_CAPABILITY_HOPS as nat);
    let mut capabilities: Vec<Capability> = Vec::new();
    let mut dispatches: Vec<AhciDispatch> = Vec::new();
    let mut error: Option<CapabilityError> = None;
    let mut current: u8 = offset;
    let mut hops: u32 = MAX_CAPABILITY_HOPS;
    assert(walk_dispatches(*old(hdr), capabilities@) =~= dispatches@);
    loop
        invariant_except_break
            full.0 =~= capabilities@ + spec_walk(space, tuple, current, hops as nat).0,
            full.1 == spec_walk(space, tuple, current, hops as nat).1,
            error is None,
        invariant
            dispatches@ =~= walk_dispatches(*old(hdr), capabilities@),
            *hdr == header_after_walk(*old(hdr), capabilities@),
        ensures
            full.0 =~= capabilities@,
            full.1 == error,
        decreases hops,
    {
        if current == 0 {
            break ;
        }
        if hops == 0 {
            error = Some(CapabilityError::MalformedCapabilityChain);
            break ;
        }
        match read_capability(space, tuple, current) {
            Err(e) => {
                error = Some(e);
                break ;
            },
            Ok(None) => {
                break ;
            },
            Ok(Some(capability)) => {
                let ghost before = capabilities@;
                let ghost rest = spec_walk(
                    space,
                    tuple,
                    capability.spec_next_ptr(),
                    (hops - 1) as nat,
                );
                if let Capability::Sata(sata) = capability {
                    proof {
                        lemma_bring_up_idempotent(old(hdr).command);
                    }
                    if let Some(dispatch) = dispatch_sata(hdr, sata.bar_offset()) {
                        dispatches.push(dispatch);
                    }
                }
                capabilities.push(capability);
                proof {
                    assert(capabilities@.drop_last() =~= before);
                    assert(capabilities@ + rest.0 =~= before + (seq![capability] + rest.0));
                }
                current = capability.next_ptr();
                hops = hops - 1;
            },
        }
    }
    CapabilityWalk { capabilities, dispatches, error }
}

/// The offset to which the record at `offset` links: 0 where no record
/// is decoded there.
pub open spec fn link_at(space: &ConfigSpace, tuple: BusFunctionAddress, offset: u8) -> u8 {
    match decode_capability(space, tuple, offset) {
        Ok(Some(capability)) => capability.spec_next_ptr(),
        _ => 0,
    }
}

/// The offset that is reached from `start` after `steps` links.
pub open spec fn chain_offset(
    space: &ConfigSpace,
    tuple: BusFunctionAddress,
    start: u8,
    steps: nat,
) -> u8
    decreases steps,
{
    if steps == 0 {
        start
    } else {
        chain_offset(space, tuple, link_at(space, tuple, start), (steps - 1) as nat)
    }
}

/// Among more numbers than there are values for them, two are equal.
proof fn lemma_two_alike(values: Seq<int>, bound: nat)
    requires
        values.len() > bound,
        forall|k: int| 0 <= k < values.len() ==> 0 <= #[trigger] values[k] < bound,
    ensures
        exists|i: int, j: int| 0 <= i < j < values.len() && values[i] == values[j],
    decreases bound,
{
    if bound == 0 {
        let first = values[0];
        assert(0 <= first && first < bound);
    } else {
        let top = bound - 1;
        if exists|k: int| 0 <= k < values.len() && values[k] == top {
            let k = choose|k: int| 0 <= k < values.len() && values[k] == top;
            let rest = values.remove(k);
            if exists|l: int| 0 <= l < rest.len() && rest[l] == top {
                let l = choose|l: int| 0 <= l < rest.len() && rest[l] == top;
                if l < k {
                    assert(values[l] == values[k]);
                } else {
                    assert(values[k] == values[l + 1]);
                }
            } else {
                assert forall|m: int| 0 <= m < rest.len() implies 0 <= #[trigger] rest[m] < top by {
                    if m < k {
                        assert(rest[m] == values[m]);
                    } else {
                        assert(rest[m] == values[m + 1]);
                    }
                }
                lemma_two_alike(rest, top as nat);
                let (i, j) = choose|i: int, j: int|
                    0 <= i < j < rest.len() && rest[i] == rest[j];
                let i2 = if i < k {
                    i
                } else {
                    i + 1
                };
                let j2 = if j < k {
                    j
                } else {
                    j + 1
                };
                assert(values[i2] == values[j2]);
            }
        } else {
            lemma_two_alike(values, top as nat);
        }
    }
}

proof fn lemma_walk_follows_the_chain(
    space: &ConfigSpace,
    tuple: BusFunctionAddress,
    start: u8,
    hops: nat,
    steps: nat,
)
    requires
        spec_walk(space, tuple, start, hops).0.len() == hops,
        spec_walk(space, tuple, start, hops).1 is Some,
        steps <= hops,
    ensures
        chain_offset(space, tuple, start, steps) != 0,
    decreases hops,
{
    if hops > 0 && steps > 0 {
        match decode_capability(space, tuple, start) {
            Ok(Some(capability)) => {
                let rest = spec_walk(space, tuple, capability.spec_next_ptr(), (hops - 1) as nat);
                assert(spec_walk(space, tuple, start, hops).0 =~= seq![capability] + rest.0);
                lemma_walk_follows_the_chain(
                    space,
                    tuple,
                    capability.spec_next_ptr(),
                    (hops - 1) as nat,
                    (steps - 1) as nat,
                );
            },
            _ => {},
        }
    }
}

/// The hop limit cuts only a chain that leads back to where it has been:
/// where a walk has decoded as many records as the limit allows and then
/// stopped with an error, two of the offsets that the chain reaches within
/// the limit are the same.
pub proof fn lemma_hop_limit_cuts_only_cycles(
    space: &ConfigSpace,
    tuple: BusFunctionAddress,
    start: u8,
)
    requires
        spec_walk(space, tuple, start, MAX_CAPABILITY_HOPS as nat).0.len() == MAX_CAPABILITY_HOPS,
        spec_walk(space, tuple, start, MAX_CAPABILITY_HOPS as nat).1 is Some,
    ensures
        exists|i: nat, j: nat|
            #![trigger chain_offset(space, tuple, start, i), chain_offset(space, tuple, start, j)]
            i < j <= MAX_CAPABILITY_HOPS && chain_offset(space, tuple, start, i) == chain_offset(
                space,
                tuple,
                start,
                j,
            ),
{
    let offsets = Seq::new(
        256,
        |k: int| chain_offset(space, tuple, start, k as nat) as int - 1,
    );
    assert forall|k: int| 0 <= k < offsets.len() implies 0 <= #[trigger] offsets[k] < 255 by {
        lemma_walk_follows_the_chain(space, tuple, start, MAX_CAPABILITY_HOPS as nat, k as nat);
    }
    lemma_two_alike(offsets, 255);
    let (i, j) = choose|i: int, j: int| 0 <= i < j < offsets.len() && offsets[i] == offsets[j];
    let first = i as nat;
    let second = j as nat;
    assert(first < second <= MAX_CAPABILITY_HOPS && chain_offset(space, tuple, start, first)
        == chain_offset(space, tuple, start, second));
}

} // verus!
