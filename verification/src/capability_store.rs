//! Writing capability records into a configuration space, and the laws
//! that tie what is written to what is decoded.

use crate::capability::{
    capability_id_at, message_control_at, next_pointer_at, spec_record_fits, CapabilityError, Msi,
    MsiNoMask, Msi_X, Sata, CAPABILITY_MSI, CAPABILITY_MSI_X, CAPABILITY_SATA, MSI_64BIT,
    MSI_NO_MASK_RECORD_BYTES, MSI_PER_VECTOR_MASKING, MSI_RECORD_BYTES, MSI_X_RECORD_BYTES,
    SATA_RECORD_BYTES,
};
use crate::config_space::{BusFunctionAddress, ConfigSpace};
use crate::encode::{
    byte_pair, high_half, holds_words, lemma_byte_pair, lemma_long_reads,
    lemma_reads_at_even_offset, low_half, pack_bytes, push_halves, same_words_outside,
    store_words,
};
use crate::pci::spec_read_word;
use vstd::prelude::*;

verus! {

proof fn lemma_byte_in_word(byte: u8)
    ensures
        (byte as u16) as u8 == byte,
{
    assert(((byte as u16) as u8) == byte) by (bit_vector);
}

impl Msi {
    /// The twelve words that the record takes up in configuration space;
    /// the word that no field covers is 0.
    pub open spec fn words(&self) -> Seq<u16> {
        seq![
            byte_pair(self.cap_id, self.next_ptr),
            self.message_control,
            low_half(self.message_address),
            high_half(self.message_address),
            low_half(self.message_upper_address),
            high_half(self.message_upper_address),
            self.message_data,
            0u16,
            low_half(self.mask_bits),
            high_half(self.mask_bits),
            low_half(self.pending_bits),
            high_half(self.pending_bits),
        ]
    }

    /// Whether the record is one that decoding accepts.
    pub open spec fn decodable(&self) -> bool {
        &&& self.cap_id == CAPABILITY_MSI
        &&& self.message_control & MSI_64BIT != 0
        &&& self.message_control & MSI_PER_VECTOR_MASKING != 0
    }
}

/// What the reads of a record's first two words yield, told by the
/// words.
proof fn lemma_head_reads(
    space: &ConfigSpace,
    tuple: BusFunctionAddress,
    offset: u8,
    words: Seq<u16>,
    cap_id: u8,
    next_ptr: u8,
)
    requires
        offset % 2 == 0,
        offset + 4 <= 0x100,
        words.len() >= 2,
        holds_words(space, tuple, offset, words),
        words[0] == byte_pair(cap_id, next_ptr),
    ensures
        capability_id_at(space, tuple, offset) == cap_id,
        next_pointer_at(space, tuple, offset) == next_ptr,
        message_control_at(space, tuple, offset) == words[1],
        spec_read_word(space, tuple, (offset + 2) as u8) == words[1],
{
    assert(spec_read_word(space, tuple, (offset + 2 * 0) as u8) == words[0]);
    assert(spec_read_word(space, tuple, (offset + 2 * 1) as u8) == words[1]);
    lemma_reads_at_even_offset(space, tuple, offset);
    lemma_byte_pair(cap_id, next_ptr);
}

/// Decoding at an even offset where the configuration space holds the
/// words of an MSI record that can be decoded yields that record, field
/// by field.
pub proof fn lemma_msi_round_trip(
    space: &ConfigSpace,
    tuple: BusFunctionAddress,
    offset: u8,
    msi: Msi,
)
    requires
        offset % 2 == 0,
        spec_record_fits(offset, MSI_RECORD_BYTES),
        msi.decodable(),
        holds_words(space, tuple, offset, msi.words()),
    ensures
        Msi::decode(space, tuple, offset) == Ok::<Msi, CapabilityError>(msi),
{
    let words = msi.words();
    let decoded = Msi::fields_at(space, tuple, offset);
    assert(decoded.cap_id == msi.cap_id && decoded.next_ptr == msi.next_ptr
        && decoded.message_control == msi.message_control) by {
        lemma_head_reads(space, tuple, offset, words, msi.cap_id, msi.next_ptr);
    }
    assert(decoded.message_address == msi.message_address) by {
        lemma_long_reads(space, tuple, offset, words, 2, msi.message_address);
    }
    assert(decoded.message_upper_address == msi.message_upper_address) by {
        lemma_long_reads(space, tuple, offset, words, 4, msi.message_upper_address);
    }
    assert(decoded.message_data == msi.message_data) by {
        assert(spec_read_word(space, tuple, (offset + 2 * 6) as u8) == words[6]);
    }
    assert(decoded.mask_bits == msi.mask_bits) by {
        lemma_long_reads(space, tuple, offset, words, 8, msi.mask_bits);
    }
    assert(decoded.pending_bits == msi.pending_bits) by {
        lemma_long_reads(space, tuple, offset, words, 10, msi.pending_bits);
    }
    assert(decoded == msi);
}

impl MsiNoMask {
    /// The seven words that the record takes up in configuration space.
    pub open spec fn words(&self) -> Seq<u16> {
        seq![
            byte_pair(self.cap_id, self.next_ptr),
            self.message_control,
            low_half(self.message_address),
            high_half(self.message_address),
            low_half(self.message_upper_address),
            high_half(self.message_upper_address),
            self.message_data,
        ]
    }

    /// Whether the record is one that decoding accepts.
    pub open spec fn decodable(&self) -> bool {
        &&& self.cap_id == CAPABILITY_MSI
        &&& self.message_control & MSI_64BIT != 0
    }
}

/// Decoding at an even offset where the configuration space holds the
/// words of an MSI record without masking that can be decoded yields that
/// record.
pub proof fn lemma_msi_no_mask_round_trip(
    space: &ConfigSpace,
    tuple: BusFunctionAddress,
    offset: u8,
    msi: MsiNoMask,
)
    requires
        offset % 2 == 0,
        spec_record_fits(offset, MSI_NO_MASK_RECORD_BYTES),
        msi.decodable(),
        holds_words(space, tuple, offset, msi.words()),
    ensures
        MsiNoMask::decode(space, tuple, offset) == Ok::<MsiNoMask, CapabilityError>(msi),
{
    let words = msi.words();
    let decoded = MsiNoMask::fields_at(space, tuple, offset);
    assert(decoded.cap_id == msi.cap_id && decoded.next_ptr == msi.next_ptr
        && decoded.message_control == msi.message_control) by {
        lemma_head_reads(space, tuple, offset, words, msi.cap_id, msi.next_ptr);
    }
    assert(decoded.message_address == msi.message_address) by {
        lemma_long_reads(space, tuple, offset, words, 2, msi.message_address);
    }
    assert(decoded.message_upper_address == msi.message_upper_address) by {
        lemma_long_reads(space, tuple, offset, words, 4, msi.message_upper_address);
    }
    assert(decoded.message_data == msi.message_data) by {
        assert(spec_read_word(space, tuple, (offset + 2 * 6) as u8) == words[6]);
    }
    assert(decoded == msi);
}

/// The dword that holds an offset in units of eight bytes above the
/// three low bits of a base register number.
pub open spec fn offset_dword(offset: u32, bir: u8) -> u32 {
    (offset << 3) | ((bir & 0x07) as u32)
}

/// Whether a base register byte and an offset in units of eight bytes
/// can come from one dword: the offset fits in 29 bits, and its low five
/// bits are the high five bits of the byte.
pub open spec fn offset_matches(offset: u32, bir: u8) -> bool {
    offset <= 0x1FFF_FFFF && ((bir >> 3) as u32) == offset & 0x1F
}

proof fn lemma_offset_dword(offset: u32, bir: u8)
    requires
        offset_matches(offset, bir),
    ensures
        low_half(offset_dword(offset, bir)) as u8 == bir,
        offset_dword(offset, bir) >> 3 == offset,
{
    let d = (offset << 3) | ((bir & 0x07) as u32);
    assert(offset <= 0x1FFF_FFFF && ((bir >> 3) as u32) == offset & 0x1F && d == (offset << 3) | ((
    bir & 0x07) as u32) ==> ((d & 0xFFFF) as u16) as u8 == bir && d >> 3 == offset)
        by (bit_vector);
}

impl Msi_X {
    /// The six words that the record takes up in configuration space.
    pub open spec fn words(&self) -> Seq<u16> {
        seq![
            byte_pair(self.cap_id, self.next_ptr),
            self.message_control,
            low_half(offset_dword(self.table_offset, self.bir)),
            high_half(offset_dword(self.table_offset, self.bir)),
            low_half(offset_dword(self.pending_bit_offset, self.pending_bit_bir)),
            high_half(offset_dword(self.pending_bit_offset, self.pending_bit_bir)),
        ]
    }

    /// Whether the record is one that decoding can yield.
    pub open spec fn decodable(&self) -> bool {
        &&& self.cap_id == CAPABILITY_MSI_X
        &&& offset_matches(self.table_offset, self.bir)
        &&& offset_matches(self.pending_bit_offset, self.pending_bit_bir)
    }
}

/// Decoding at an even offset where the configuration space holds the
/// words of an MSI-X record that can be decoded yields that record.
pub proof fn lemma_msi_x_round_trip(
    space: &ConfigSpace,
    tuple: BusFunctionAddress,
    offset: u8,
    msi_x: Msi_X,
)
    requires
        offset % 2 == 0,
        spec_record_fits(offset, MSI_X_RECORD_BYTES),
        msi_x.decodable(),
        holds_words(space, tuple, offset, msi_x.words()),
    ensures
        Msi_X::decode(space, tuple, offset) == Ok::<Msi_X, CapabilityError>(msi_x),
{
    let words = msi_x.words();
    let decoded = Msi_X::fields_at(space, tuple, offset);
    assert(decoded.cap_id == msi_x.cap_id && decoded.next_ptr == msi_x.next_ptr
        && decoded.message_control == msi_x.message_control) by {
        lemma_head_reads(space, tuple, offset, words, msi_x.cap_id, msi_x.next_ptr);
    }
    assert(decoded.bir == msi_x.bir && decoded.table_offset == msi_x.table_offset) by {
        lemma_long_reads(
            space,
            tuple,
            offset,
            words,
            2,
            offset_dword(msi_x.table_offset, msi_x.bir),
        );
        lemma_offset_dword(msi_x.table_offset, msi_x.bir);
    }
    assert(decoded.pending_bit_bir == msi_x.pending_bit_bir && decoded.pending_bit_offset
        == msi_x.pending_bit_offset) by {
        lemma_long_reads(
            space,
            tuple,
            offset,
            words,
            4,
            offset_dword(msi_x.pending_bit_offset, msi_x.pending_bit_bir),
        );
        lemma_offset_dword(msi_x.pending_bit_offset, msi_x.pending_bit_bir);
    }
    assert(decoded == msi_x);
}

impl Sata {
    /// The four words that the record takes up in configuration space;
    /// the byte that no field covers is 0.
    pub open spec fn words(&self) -> Seq<u16> {
        seq![
            byte_pair(self.cap_id, self.next_ptr),
            self.minor0to4major4to7 as u16,
            low_half(self.sata_r1),
            high_half(self.sata_r1),
        ]
    }
}

/// Decoding at an even offset where the configuration space holds the
/// words of a SATA record with the SATA capability id yields that record.
pub proof fn lemma_sata_round_trip(
    space: &ConfigSpace,
    tuple: BusFunctionAddress,
    offset: u8,
    sata: Sata,
)
    requires
        offset % 2 == 0,
        spec_record_fits(offset, SATA_RECORD_BYTES),
        sata.cap_id == CAPABILITY_SATA,
        sata.offset == offset,
        holds_words(space, tuple, offset, sata.words()),
    ensures
        Sata::decode(space, tuple, offset) == Ok::<Sata, CapabilityError>(sata),
{
    let words = sata.words();
    let decoded = Sata::fields_at(space, tuple, offset);
    assert(decoded.cap_id == sata.cap_id && decoded.next_ptr == sata.next_ptr
        && decoded.minor0to4major4to7 == sata.minor0to4major4to7) by {
        lemma_head_reads(space, tuple, offset, words, sata.cap_id, sata.next_ptr);
        lemma_byte_in_word(sata.minor0to4major4to7);
    }
    assert(decoded.sata_r1 == sata.sata_r1) by {
        lemma_long_reads(space, tuple, offset, words, 2, sata.sata_r1);
    }
    assert(decoded == sata);
}

impl Msi {
    /// Writes the record at `offset`, so that decoding there yields it.
    pub fn store(&self, space: &mut ConfigSpace, tuple: BusFunctionAddress, offset: u8)
        requires
            offset % 2 == 0,
            spec_record_fits(offset, MSI_RECORD_BYTES),
            self.decodable(),
        ensures
            Msi::decode(final(space), tuple, offset) == Ok::<Msi, CapabilityError>(*self),
            same_words_outside(old(space), final(space), tuple, offset, 12),
    {
        let mut words: Vec<u16> = Vec::new();
        words.push(pack_bytes(self.cap_id, self.next_ptr));
        words.push(self.message_control);
        push_halves(&mut words, self.message_address);
        push_halves(&mut words, self.message_upper_address);
        words.push(self.message_data);
        words.push(0);
        push_halves(&mut words, self.mask_bits);
        push_halves(&mut words, self.pending_bits);
        assert(words@ =~= self.words());
        store_words(space, tuple, offset, &words);
        proof {
            lemma_msi_round_trip(space, tuple, offset, *self);
        }
    }
}

impl MsiNoMask {
    /// Writes the record at `offset`, so that decoding there yields it.
    pub fn store(&self, space: &mut ConfigSpace, tuple: BusFunctionAddress, offset: u8)
        requires
            offset % 2 == 0,
            spec_record_fits(offset, MSI_NO_MASK_RECORD_BYTES),
            self.decodable(),
        ensures
            MsiNoMask::decode(final(space), tuple, offset) == Ok::<MsiNoMask, CapabilityError>(
                *self,
            ),
            same_words_outside(old(space), final(space), tuple, offset, 7),
    {
        let mut words: Vec<u16> = Vec::new();
        words.push(pack_bytes(self.cap_id, self.next_ptr));
        words.push(self.message_control);
        push_halves(&mut words, self.message_address);
        push_halves(&mut words, self.message_upper_address);
        words.push(self.message_data);
        assert(words@ =~= self.words());
        store_words(space, tuple, offset, &words);
        proof {
            lemma_msi_no_mask_round_trip(space, tuple, offset, *self);
        }
    }
}

impl Msi_X {
    /// Writes the record at `offset`, so that decoding there yields it.
    pub fn store(&self, space: &mut ConfigSpace, tuple: BusFunctionAddress, offset: u8)
        requires
            offset % 2 == 0,
            spec_record_fits(offset, MSI_X_RECORD_BYTES),
            self.decodable(),
        ensures
            Msi_X::decode(final(space), tuple, offset) == Ok::<Msi_X, CapabilityError>(*self),
            same_words_outside(old(space), final(space), tuple, offset, 6),
    {
        let mut words: Vec<u16> = Vec::new();
        words.push(pack_bytes(self.cap_id, self.next_ptr));
        words.push(self.message_control);
        push_halves(&mut words, (self.table_offset << 3) | ((self.bir & 0x07) as u32));
        push_halves(
            &mut words,
            (self.pending_bit_offset << 3) | ((self.pending_bit_bir & 0x07) as u32),
        );
        assert(words@ =~= self.words());
        store_words(space, tuple, offset, &words);
        proof {
            lemma_msi_x_round_trip(space, tuple, offset, *self);
        }
    }
}

impl Sata {
    /// Writes the record at the offset that it names, so that decoding
    /// there yields it.
    pub fn store(&self, space: &mut ConfigSpace, tuple: BusFunctionAddress)
        requires
            self.offset % 2 == 0,
            spec_record_fits(self.offset, SATA_RECORD_BYTES),
            self.cap_id == CAPABILITY_SATA,
        ensures
            Sata::decode(final(space), tuple, self.offset) == Ok::<Sata, CapabilityError>(*self),
            same_words_outside(old(space), final(space), tuple, self.offset, 4),
    {
        let mut words: Vec<u16> = Vec::new();
        words.push(pack_bytes(self.cap_id, self.next_ptr));
        words.push(self.minor0to4major4to7 as u16);
        push_halves(&mut words, self.sata_r1);
        assert(words@ =~= self.words());
        store_words(space, tuple, self.offset, &words);
        proof {
            lemma_sata_round_trip(space, tuple, self.offset, *self);
        }
    }
}

} // verus!
