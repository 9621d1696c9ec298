//! The PCI configuration-space access mechanism: the address word that goes
//! to the address port, and a snapshot of what the data port answers.

use vstd::prelude::*;

verus! {

/// I/O port that takes the configuration address word.
pub const CONFIG_ADDRESS: u16 = 0xCF8;

/// I/O port that yields the addressed configuration dword.
pub const CONFIG_DATA: u16 = 0xCFC;

/// Number of dwords in the whole configuration space: 256 buses of 32
/// devices of 8 functions of 64 registers.
pub const CONFIG_SPACE_DWORDS: usize = 0x40_0000;

/// What a read of an absent function yields on every register.
pub const FLOATING_BUS: u32 = 0xFFFF_FFFF;

/// Identifies one function's configuration space: `(bus, device, function)`.
pub type BusFunctionAddress = (u8, u8, u8);

/// The address word for a register of a function: enable bit 31, bus in
/// bits 23..16, device in 15..11, function in 10..8, and the register offset
/// with its two low bits cleared.
pub open spec fn spec_config_address(tuple: BusFunctionAddress, offset: u8) -> u32 {
    ((tuple.0 as u32) << 16) | (((tuple.1 & 0x1F) as u32) << 11) | (((tuple.2 & 0x07) as u32) << 8)
        | ((offset & 0xFC) as u32) | (1u32 << 31)
}

/// Index of the register that an address word selects, counted in dwords
/// from bus 0, device 0, function 0, register 0.
pub open spec fn register_index(address: u32) -> int {
    ((address & 0x00FF_FFFC) >> 2) as int
}

/// Every address word selects one of the registers of the configuration
/// space.
pub proof fn lemma_register_index_bound(address: u32)
    ensures
        0 <= register_index(address) < CONFIG_SPACE_DWORDS,
{
    assert(((address & 0x00FF_FFFCu32) >> 2) < 0x40_0000u32) by (bit_vector);
}

/// The register that an address word selects is the `offset / 4`-th of
/// its function, and the functions follow each other by bus, device and
/// function number: two address words select the same register exactly
/// if they agree on these.
pub proof fn lemma_register_of_address(tuple: BusFunctionAddress, offset: u8)
    ensures
        register_index(spec_config_address(tuple, offset)) == tuple.0 * 0x4000 + (tuple.1 % 32)
            * 0x200 + (tuple.2 % 8) * 0x40 + offset / 4,
{
    let bus = tuple.0;
    let device = tuple.1;
    let function = tuple.2;
    assert(((((bus as u32) << 16) | (((device & 0x1F) as u32) << 11) | (((function & 0x07) as u32)
        << 8) | ((offset & 0xFC) as u32) | (1u32 << 31)) & 0x00FF_FFFCu32) >> 2 == (bus as u32)
        * 0x4000 + ((device % 32) as u32) * 0x200 + ((function % 8) as u32) * 0x40 + (offset
        / 4) as u32) by (bit_vector);
}

/// The fields of an address word lie where the access mechanism wants
/// them: bit 31 is set, bits 24 to 30 and the two low bits are clear,
/// and the bus, the device, the function and the register number can be
/// read back from their bit ranges.
pub proof fn lemma_address_fields(tuple: BusFunctionAddress, offset: u8)
    ensures
        spec_config_address(tuple, offset) & 0x8000_0000 == 0x8000_0000,
        spec_config_address(tuple, offset) & 0x7F00_0003 == 0,
        (spec_config_address(tuple, offset) >> 16) & 0xFF == tuple.0,
        (spec_config_address(tuple, offset) >> 11) & 0x1F == tuple.1 % 32,
        (spec_config_address(tuple, offset) >> 8) & 0x07 == tuple.2 % 8,
        (spec_config_address(tuple, offset) >> 2) & 0x3F == offset / 4,
{
    let bus = tuple.0;
    let device = tuple.1;
    let function = tuple.2;
    let address = ((bus as u32) << 16) | (((device & 0x1F) as u32) << 11) | (((function
        & 0x07) as u32) << 8) | ((offset & 0xFC) as u32) | (1u32 << 31);
    assert(address == ((bus as u32) << 16) | (((device & 0x1F) as u32) << 11) | (((function
        & 0x07) as u32) << 8) | ((offset & 0xFC) as u32) | (1u32 << 31) ==> address & 0x8000_0000
        == 0x8000_0000 && address & 0x7F00_0003 == 0 && (address >> 16) & 0xFF == bus as u32 && (
    address >> 11) & 0x1F == (device % 32) as u32 && (address >> 8) & 0x07 == (function
        % 8) as u32 && (address >> 2) & 0x3F == (offset / 4) as u32) by (bit_vector);
}

/// Computes the address word for `offset` within the function `tuple`.
#[verifier::when_used_as_spec(spec_config_address)]
pub fn config_address(tuple: BusFunctionAddress, offset: u8) -> (address: u32)
    ensures
        address == spec_config_address(tuple, offset),
{
    ((tuple.0 as u32) << 16) | (((tuple.1 & 0x1F) as u32) << 11) | (((tuple.2 & 0x07) as u32) << 8)
        | ((offset & 0xFC) as u32) | (1u32 << 31)
}

/// A snapshot of the configuration space as the access mechanism shows it:
/// one dword for every register of every function. Registers that were
/// never stored read as a floating bus does.
pub struct ConfigSpace {
    dwords: Vec<u32>,
}

impl ConfigSpace {
    /// The dword in the register with the given index, counted from bus
    /// 0, device 0, function 0, register 0.
    pub closed spec fn register(&self, index: int) -> u32 {
        if 0 <= index < self.dwords@.len() {
            self.dwords@[index]
        } else {
            FLOATING_BUS
        }
    }

    /// The dword that the data port yields once `address` has been written
    /// to the address port.
    pub open spec fn data(&self, address: u32) -> u32 {
        self.register(register_index(address))
    }

    /// A space in which no function answers.
    pub fn new() -> (space: ConfigSpace)
        ensures
            forall|index: int| #[trigger] space.register(index) == FLOATING_BUS,
    {
        ConfigSpace { dwords: Vec::new() }
    }

    /// Reads the data port for `address`.
    pub fn read_data(&self, address: u32) -> (value: u32)
        ensures
            value == self.data(address),
    {
        proof {
            lemma_register_index_bound(address);
        }
        let index: usize = ((address & 0x00FF_FFFC) >> 2) as usize;
        if index < self.dwords.len() {
            self.dwords[index]
        } else {
            FLOATING_BUS
        }
    }

    /// Stores `value` in the register that `address` selects; every other
    /// register keeps its dword.
    pub fn store_data(&mut self, address: u32, value: u32)
        ensures
            forall|index: int| #[trigger]
                final(self).register(index) == if index == register_index(address) {
                    value
                } else {
                    old(self).register(index)
                },
    {
        proof {
            lemma_register_index_bound(address);
        }
        let index: usize = ((address & 0x00FF_FFFC) >> 2) as usize;
        while self.dwords.len() <= index
            invariant
                index < CONFIG_SPACE_DWORDS,
                old(self).dwords@.len() <= self.dwords@.len(),
                forall|i: int|
                    0 <= i < old(self).dwords@.len() ==> self.dwords@[i] == old(self).dwords@[i],
                forall|i: int|
                    old(self).dwords@.len() <= i < self.dwords@.len() ==> self.dwords@[i]
                        == FLOATING_BUS,
            decreases index + 1 - self.dwords@.len(),
        {
            self.dwords.push(FLOATING_BUS);
        }
        self.dwords.set(index, value);
    }
}

} // verus!
