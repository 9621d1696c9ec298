//! Translation between physical, kernel-virtual and device-virtual
//! addresses. Addresses are plain 64-bit numbers.

use vstd::prelude::*;

verus! {

/// First kernel virtual address; physical memory is mapped from here on.
pub const KERNBASE: u64 = 0xFFFF_FFFF_8000_0000;

/// First device virtual address.
pub const DEVBASE: u64 = 0xFFFF_FFFF_4000_0000;

/// Physical address from which memory-mapped devices are found.
pub const DEVSPACE: u64 = 0xFD00_0000;

/// Distance from a device's physical address to its virtual address.
pub const DEVICE_SHIFT: u64 = 0xFFFF_FFFE_4300_0000;

/// The distance between device-physical and device-virtual addresses is
/// that between `DEVSPACE` and `DEVBASE`.
pub proof fn lemma_device_shift()
    ensures
        DEVICE_SHIFT == DEVBASE - DEVSPACE,
{
}

/// The physical address behind the kernel virtual address `a`; the
/// subtraction wraps around for addresses below `KERNBASE`.
pub open spec fn spec_v2p(a: u64) -> u64 {
    if a >= KERNBASE {
        (a - KERNBASE) as u64
    } else {
        (a - KERNBASE + 0x1_0000_0000_0000_0000) as u64
    }
}

/// The kernel virtual address of the physical address `a`.
pub open spec fn spec_p2v(a: u64) -> u64
    recommends
        a + KERNBASE <= u64::MAX,
{
    (a + KERNBASE) as u64
}

/// The device virtual address of the device-physical address `a`.
pub open spec fn spec_io2v(a: u64) -> u64
    recommends
        a + DEVICE_SHIFT <= u64::MAX,
{
    (a + DEVICE_SHIFT) as u64
}

/// The device-physical address behind the device virtual address `a`; the
/// subtraction wraps around for addresses below the shift.
pub open spec fn spec_v2io(a: u64) -> u64 {
    if a >= DEVICE_SHIFT {
        (a - DEVICE_SHIFT) as u64
    } else {
        (a - DEVICE_SHIFT + 0x1_0000_0000_0000_0000) as u64
    }
}

/// Translates a kernel virtual address to the physical address behind it.
#[verifier::when_used_as_spec(spec_v2p)]
pub fn v2p(a: u64) -> (physical: u64)
    ensures
        physical == spec_v2p(a),
{
    a.wrapping_sub(KERNBASE)
}

/// Translates a physical address to its kernel virtual address.
#[verifier::when_used_as_spec(spec_p2v)]
pub fn p2v(a: u64) -> (virt: u64)
    requires
        a + KERNBASE <= u64::MAX,
    ensures
        virt == spec_p2v(a),
{
    a + KERNBASE
}

/// Translates a device-physical address to its device virtual address.
#[verifier::when_used_as_spec(spec_io2v)]
pub fn io2v(a: u64) -> (virt: u64)
    requires
        a + DEVICE_SHIFT <= u64::MAX,
    ensures
        virt == spec_io2v(a),
{
    a + DEVICE_SHIFT
}

/// Translates a device virtual address to the device-physical address
/// behind it.
#[verifier::when_used_as_spec(spec_v2io)]
pub fn v2io(a: u64) -> (physical: u64)
    ensures
        physical == spec_v2io(a),
{
    a.wrapping_sub(DEVICE_SHIFT)
}

/// Translating a physical address to its virtual address and back yields
/// the address again, for kernel memory and for devices.
pub proof fn lemma_translation_round_trip(a: u64)
    ensures
        a + KERNBASE <= u64::MAX ==> spec_v2p(spec_p2v(a)) == a,
        a + DEVICE_SHIFT <= u64::MAX ==> spec_v2io(spec_io2v(a)) == a,
{
}

/// Every 32-bit device-physical address has a device virtual address.
pub proof fn lemma_io2v_covers_32_bit(a: u32)
    ensures
        a + DEVICE_SHIFT <= u64::MAX,
{
}

} // verus!
