//! Writing words and headers into a configuration space, and the laws
//! that tie what is written to what is read and decoded.

use crate::config_space::{
    config_address, lemma_register_of_address, register_index, spec_config_address,
    BusFunctionAddress, ConfigSpace,
};
use crate::pci::{
    header_at, lemma_shift_of_offset, spec_read_byte, spec_read_long, spec_read_word,
    PCICommonHeader,
};
use vstd::prelude::*;

verus! {

/// The low 16 bits of a 32-bit value.
pub open spec fn low_half(value: u32) -> u16 {
    (value & 0xFFFF) as u16
}

/// The high 16 bits of a 32-bit value.
pub open spec fn high_half(value: u32) -> u16 {
    (value >> 16) as u16
}

/// Whether the words of `tuple` from the even offset `offset` on are
/// `words`, one after the other.
pub open spec fn holds_words(
    space: &ConfigSpace,
    tuple: BusFunctionAddress,
    offset: u8,
    words: Seq<u16>,
) -> bool {
    forall|k: int|
        0 <= k < words.len() ==> spec_read_word(space, tuple, (offset + 2 * k) as u8)
            == #[trigger] words[k]
}

/// Whether `after` reads as `before` does outside the `count` words of
/// `tuple` from the even offset `offset` on: at every other even offset
/// of the function, and in every register of every other function.
pub open spec fn same_words_outside(
    before: &ConfigSpace,
    after: &ConfigSpace,
    tuple: BusFunctionAddress,
    offset: u8,
    count: int,
) -> bool {
    &&& forall|other: u8|
        other % 2 == 0 && !(offset <= other < offset + 2 * count) ==> #[trigger] spec_read_word(
            after,
            tuple,
            other,
        ) == spec_read_word(before, tuple, other)
    &&& forall|index: int|
        !(register_index(spec_config_address(tuple, 0)) <= index < register_index(
            spec_config_address(tuple, 0),
        ) + 64) ==> #[trigger] after.register(index) == before.register(index)
}

/// A 32-bit value is its low half below its high half.
pub proof fn lemma_join_halves(value: u32)
    ensures
        (low_half(value) as u32) | ((high_half(value) as u32) << 16) == value,
{
    assert(((((value & 0xFFFF) as u16) as u32) | ((((value >> 16) as u16) as u32) << 16)) == value)
        by (bit_vector);
}

/// A read at an odd offset yields the word at the even offset below it,
/// and the bytes at an even offset and at the odd offset above it are the
/// low and the high byte of the word there.
pub proof fn lemma_reads_at_even_offset(
    space: &ConfigSpace,
    tuple: BusFunctionAddress,
    offset: u8,
)
    requires
        offset % 2 == 0,
    ensures
        spec_read_word(space, tuple, (offset + 1) as u8) == spec_read_word(space, tuple, offset),
        spec_read_byte(space, tuple, offset) == spec_read_word(space, tuple, offset) as u8,
        spec_read_byte(space, tuple, (offset + 1) as u8) == (spec_read_word(space, tuple, offset)
            >> 8) as u8,
{
    let next = (offset + 1) as u8;
    assert(offset % 2 == 0 && next == offset + 1 ==> (next & 0xFC) == (offset & 0xFC) && (next & 2)
        == (offset & 2) && (offset & 0xFE) == offset && (next & 0xFE) == offset && next % 2 == 1)
        by (bit_vector);
}

/// Stores `word` at the even offset `offset` of `tuple`; every other word
/// of the function and every register of every other function stays as
/// it is.
pub fn store_word(space: &mut ConfigSpace, tuple: BusFunctionAddress, offset: u8, word: u16)
    requires
        offset % 2 == 0,
    ensures
        spec_read_word(final(space), tuple, offset) == word,
        same_words_outside(old(space), final(space), tuple, offset, 1),
{
    let address = config_address(tuple, offset);
    let before = space.read_data(address);
    let after = if offset & 2 == 0 {
        (before & 0xFFFF_0000) | (word as u32)
    } else {
        (before & 0x0000_FFFF) | ((word as u32) << 16)
    };
    proof {
        assert(offset & 2 == 0 <==> offset % 4 < 2) by (bit_vector);
        assert(((((before & 0xFFFF_0000u32) | (word as u32)) >> 0) & 0xFFFF) as u16 == word && ((((
        before & 0xFFFF_0000u32) | (word as u32)) >> 16) & 0xFFFF) as u16 == ((before >> 16)
            & 0xFFFF) as u16 && ((((before & 0x0000_FFFFu32) | ((word as u32) << 16)) >> 16)
            & 0xFFFF) as u16 == word && ((((before & 0x0000_FFFFu32) | ((word as u32) << 16))
            >> 0) & 0xFFFF) as u16 == ((before >> 0) & 0xFFFF) as u16) by (bit_vector);
        lemma_shift_of_offset(offset);
        lemma_register_of_address(tuple, offset);
        lemma_register_of_address(tuple, 0);
    }
    space.store_data(address, after);
    proof {
        assert forall|other: u8| other % 2 == 0 && !(offset <= other < offset + 2) implies (
        #[trigger] spec_read_word(space, tuple, other)) == spec_read_word(
            old(space),
            tuple,
            other,
        ) by {
            lemma_shift_of_offset(other);
            lemma_register_of_address(tuple, other);
        }
    }
}

/// Stores `words` from the even offset `offset` of `tuple` on; every
/// other word of the function and every register of every other function
/// stays as it is.
pub fn store_words(
    space: &mut ConfigSpace,
    tuple: BusFunctionAddress,
    offset: u8,
    words: &Vec<u16>,
)
    requires
        offset % 2 == 0,
        offset + 2 * words@.len() <= 0x100,
    ensures
        holds_words(final(space), tuple, offset, words@),
        same_words_outside(old(space), final(space), tuple, offset, words@.len() as int),
{
    let mut k: usize = 0;
    while k < words.len()
        invariant
            k <= words@.len(),
            offset % 2 == 0,
            offset + 2 * words@.len() <= 0x100,
            forall|j: int|
                0 <= j < k ==> spec_read_word(space, tuple, (offset + 2 * j) as u8)
                    == #[trigger] words@[j],
            same_words_outside(old(space), space, tuple, offset, k as int),
        decreases words@.len() - k,
    {
        let ghost before = *space;
        let at: u8 = (offset as usize + 2 * k) as u8;
        store_word(space, tuple, at, words[k]);
        proof {
            assert forall|j: int| 0 <= j < k + 1 implies spec_read_word(
                space,
                tuple,
                (offset + 2 * j) as u8,
            ) == #[trigger] words@[j] by {
                if j < k {
                    let earlier = (offset + 2 * j) as u8;
                    assert(spec_read_word(space, tuple, earlier) == spec_read_word(
                        &before,
                        tuple,
                        earlier,
                    ));
                }
            }
            assert forall|other: u8|
                other % 2 == 0 && !(offset <= other < offset + 2 * (k + 1)) implies (
            #[trigger] spec_read_word(space, tuple, other)) == spec_read_word(
                old(space),
                tuple,
                other,
            ) by {
                assert(spec_read_word(space, tuple, other) == spec_read_word(
                    &before,
                    tuple,
                    other,
                ));
            }
        }
        k += 1;
    }
}

/// A long read at an offset that is a multiple of four yields the
/// register that the address word of the offset selects.
pub proof fn lemma_aligned_long_is_register(
    space: &ConfigSpace,
    tuple: BusFunctionAddress,
    offset: u8,
)
    requires
        offset % 4 == 0,
    ensures
        spec_read_long(space, tuple, offset) == space.data(spec_config_address(tuple, offset)),
{
    let dword = space.data(spec_config_address(tuple, offset));
    lemma_register_of_address(tuple, offset);
    lemma_register_of_address(tuple, (offset + 2) as u8);
    lemma_shift_of_offset(offset);
    lemma_shift_of_offset((offset + 2) as u8);
    assert(((((dword >> 0) & 0xFFFF) as u16) as u32) | (((((dword >> 16) & 0xFFFF) as u16) as u32)
        << 16) == dword) by (bit_vector);
}

/// The word that holds `low` in its low byte and `high` in its high byte.
pub open spec fn byte_pair(low: u8, high: u8) -> u16 {
    (low as u16) | ((high as u16) << 8)
}

/// The two bytes of a word made of two bytes are those bytes.
pub proof fn lemma_byte_pair(low: u8, high: u8)
    ensures
        byte_pair(low, high) as u8 == low,
        (byte_pair(low, high) >> 8) as u8 == high,
{
    assert((((low as u16) | ((high as u16) << 8)) as u8) == low && ((((low as u16) | ((
    high as u16) << 8)) >> 8) as u8) == high) by (bit_vector);
}

/// What the long read at the `k`-th word of a stored run yields, told
/// by that word and the next.
pub proof fn lemma_long_reads(
    space: &ConfigSpace,
    tuple: BusFunctionAddress,
    offset: u8,
    words: Seq<u16>,
    k: int,
    value: u32,
)
    requires
        offset % 2 == 0,
        0 <= k,
        k + 1 < words.len(),
        offset + 2 * words.len() <= 0x100,
        holds_words(space, tuple, offset, words),
        words[k] == low_half(value),
        words[k + 1] == high_half(value),
    ensures
        spec_read_long(space, tuple, (offset + 2 * k) as u8) == value,
        spec_read_byte(space, tuple, (offset + 2 * k) as u8) == low_half(value) as u8,
{
    let at = (offset + 2 * k) as u8;
    assert(spec_read_word(space, tuple, at) == words[k]);
    assert(spec_read_word(space, tuple, (offset + 2 * (k + 1)) as u8) == words[k + 1]);
    assert((at + 2) as u8 == (offset + 2 * (k + 1)) as u8);
    lemma_join_halves(value);
    lemma_reads_at_even_offset(space, tuple, at);
}

impl PCICommonHeader {
    /// The thirty-two words that the header takes up at the start of its
    /// function's configuration space; what no field covers is 0.
    pub open spec fn words(&self) -> Seq<u16> {
        seq![
            self.vendor_id,
            self.device_id,
            self.command,
            self.status,
            byte_pair(self.revision_id, self.prog_if),
            byte_pair(self.subclass, self.base_class),
            byte_pair(self.cacheline_size, self.latency_timer),
            byte_pair(self.header_type, self.bist),
            low_half(self.base_address_registers[0]),
            high_half(self.base_address_registers[0]),
            low_half(self.base_address_registers[1]),
            high_half(self.base_address_registers[1]),
            low_half(self.base_address_registers[2]),
            high_half(self.base_address_registers[2]),
            low_half(self.base_address_registers[3]),
            high_half(self.base_address_registers[3]),
            low_half(self.base_address_registers[4]),
            high_half(self.base_address_registers[4]),
            low_half(self.base_address_registers[5]),
            high_half(self.base_address_registers[5]),
            low_half(self.cardbus_cis_pointer),
            high_half(self.cardbus_cis_pointer),
            self.subsystem_vendor_id,
            self.subsystem_id,
            low_half(self.expansion_rom_base_address),
            high_half(self.expansion_rom_base_address),
            byte_pair(self.capabilities_pointer, 0),
            0u16,
            0u16,
            0u16,
            byte_pair(self.interrupt_line, self.interrupt_pin),
            byte_pair(self.min_gnt, self.max_latency),
        ]
    }
}

/// What the reads of the two bytes of the `k`-th word of a stored run
/// yield, where that word is made of two bytes.
proof fn lemma_byte_reads(
    space: &ConfigSpace,
    tuple: BusFunctionAddress,
    words: Seq<u16>,
    k: int,
    low: u8,
    high: u8,
)
    requires
        0 <= k < words.len(),
        2 * words.len() <= 0x100,
        holds_words(space, tuple, 0, words),
        words[k] == byte_pair(low, high),
    ensures
        spec_read_byte(space, tuple, (2 * k) as u8) == low,
        spec_read_byte(space, tuple, (2 * k + 1) as u8) == high,
{
    assert(spec_read_word(space, tuple, (0 + 2 * k) as u8) == words[k]);
    lemma_reads_at_even_offset(space, tuple, (2 * k) as u8);
    lemma_byte_pair(low, high);
}

/// Where the configuration space of the function that a header names
/// holds the words of the header from offset 0 on, the header of that
/// function is that header, field by field.
pub proof fn lemma_header_round_trip(space: &ConfigSpace, header: PCICommonHeader)
    requires
        holds_words(space, (header.bus, header.device, header.function), 0, header.words()),
    ensures
        header_at(space, (header.bus, header.device, header.function)) == header,
{
    let tuple = (header.bus, header.device, header.function);
    let words = header.words();
    let decoded = header_at(space, tuple);
    assert(decoded.vendor_id == header.vendor_id && decoded.device_id == header.device_id
        && decoded.command == header.command && decoded.status == header.status) by {
        assert(spec_read_word(space, tuple, (0 + 2 * 0) as u8) == words[0]);
        assert(spec_read_word(space, tuple, (0 + 2 * 1) as u8) == words[1]);
        assert(spec_read_word(space, tuple, (0 + 2 * 2) as u8) == words[2]);
        assert(spec_read_word(space, tuple, (0 + 2 * 3) as u8) == words[3]);
    }
    assert(decoded.revision_id == header.revision_id && decoded.prog_if == header.prog_if) by {
        lemma_byte_reads(space, tuple, words, 4, header.revision_id, header.prog_if);
    }
    assert(decoded.subclass == header.subclass && decoded.base_class == header.base_class) by {
        lemma_byte_reads(space, tuple, words, 5, header.subclass, header.base_class);
    }
    assert(decoded.cacheline_size == header.cacheline_size && decoded.latency_timer
        == header.latency_timer) by {
        lemma_byte_reads(space, tuple, words, 6, header.cacheline_size, header.latency_timer);
    }
    assert(decoded.header_type == header.header_type && decoded.bist == header.bist) by {
        lemma_byte_reads(space, tuple, words, 7, header.header_type, header.bist);
    }
    assert(decoded.base_address_registers == header.base_address_registers) by {
        lemma_long_reads(space, tuple, 0, words, 8, header.base_address_registers[0]);
        lemma_long_reads(space, tuple, 0, words, 10, header.base_address_registers[1]);
        lemma_long_reads(space, tuple, 0, words, 12, header.base_address_registers[2]);
        lemma_long_reads(space, tuple, 0, words, 14, header.base_address_registers[3]);
        lemma_long_reads(space, tuple, 0, words, 16, header.base_address_registers[4]);
        lemma_long_reads(space, tuple, 0, words, 18, header.base_address_registers[5]);
        assert(decoded.base_address_registers@ =~= header.base_address_registers@);
    }
    assert(decoded.cardbus_cis_pointer == header.cardbus_cis_pointer) by {
        lemma_long_reads(space, tuple, 0, words, 20, header.cardbus_cis_pointer);
    }
    assert(decoded.subsystem_vendor_id == header.subsystem_vendor_id && decoded.subsystem_id
        == header.subsystem_id) by {
        assert(spec_read_word(space, tuple, (0 + 2 * 22) as u8) == words[22]);
        assert(spec_read_word(space, tuple, (0 + 2 * 23) as u8) == words[23]);
    }
    assert(decoded.expansion_rom_base_address == header.expansion_rom_base_address) by {
        lemma_long_reads(space, tuple, 0, words, 24, header.expansion_rom_base_address);
    }
    assert(decoded.capabilities_pointer == header.capabilities_pointer) by {
        lemma_byte_reads(space, tuple, words, 26, header.capabilities_pointer, 0);
    }
    assert(decoded.interrupt_line == header.interrupt_line && decoded.interrupt_pin
        == header.interrupt_pin) by {
        lemma_byte_reads(space, tuple, words, 30, header.interrupt_line, header.interrupt_pin);
    }
    assert(decoded.min_gnt == header.min_gnt && decoded.max_latency == header.max_latency) by {
        lemma_byte_reads(space, tuple, words, 31, header.min_gnt, header.max_latency);
    }
    assert(decoded == header);
}

/// Packs two bytes into a word, the first in the low byte.
pub fn pack_bytes(low: u8, high: u8) -> (word: u16)
    ensures
        word == byte_pair(low, high),
{
    (low as u16) | ((high as u16) << 8)
}

/// Appends the low and the high half of `value` to `words`.
pub fn push_halves(words: &mut Vec<u16>, value: u32)
    ensures
        final(words)@ == old(words)@.push(low_half(value)).push(high_half(value)),
{
    words.push((value & 0xFFFF) as u16);
    words.push((value >> 16) as u16);
}

impl PCICommonHeader {
    /// Writes the header to the start of the configuration space of the
    /// function that it names, so that decoding there yields it.
    pub fn store(&self, space: &mut ConfigSpace)
        ensures
            header_at(final(space), (self.bus, self.device, self.function)) == *self,
            same_words_outside(
                old(space),
                final(space),
                (self.bus, self.device, self.function),
                0,
                32,
            ),
    {
        let mut words: Vec<u16> = Vec::new();
        words.push(self.vendor_id);
        words.push(self.device_id);
        words.push(self.command);
        words.push(self.status);
        words.push(pack_bytes(self.revision_id, self.prog_if));
        words.push(pack_bytes(self.subclass, self.base_class));
        words.push(pack_bytes(self.cacheline_size, self.latency_timer));
        words.push(pack_bytes(self.header_type, self.bist));
        push_halves(&mut words, self.base_address_registers[0]);
        push_halves(&mut words, self.base_address_registers[1]);
        push_halves(&mut words, self.base_address_registers[2]);
        push_halves(&mut words, self.base_address_registers[3]);
        push_halves(&mut words, self.base_address_registers[4]);
        push_halves(&mut words, self.base_address_registers[5]);
        push_halves(&mut words, self.cardbus_cis_pointer);
        words.push(self.subsystem_vendor_id);
        words.push(self.subsystem_id);
        push_halves(&mut words, self.expansion_rom_base_address);
        words.push(pack_bytes(self.capabilities_pointer, 0));
        words.push(0);
        words.push(0);
        words.push(0);
        words.push(pack_bytes(self.interrupt_line, self.interrupt_pin));
        words.push(pack_bytes(self.min_gnt, self.max_latency));
        assert(words@ =~= self.words());
        store_words(space, (self.bus, self.device, self.function), 0, &words);
        proof {
            lemma_header_round_trip(space, *self);
        }
    }
}

} // verus!
