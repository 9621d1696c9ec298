//! Request codes of device control calls.

use vstd::prelude::*;

verus! {

/// The request moves data both ways.
pub const _IOC_RW: u32 = 0b11;

/// The request reads from the device.
pub const _IOC_RO: u32 = 0b01;

/// The request writes to the device.
pub const _IOC_WO: u32 = 0b10;

pub const _IOC_NONE: u32 = 0;

/// The geometry of a frame buffer.
#[derive(Debug, Clone, Copy, PartialEq, Eq)]
pub struct FbVarScreenInfo {
    pub xres: u32,
    pub yres: u32,
    pub bpp: u8,
}

/// The request code of a driver's command: the driver's magic byte in
/// bits 24 to 31, the command's number from bit 16, the size of its
/// argument from bit 2, and the direction in the two low bits.
pub open spec fn spec_ioc(drv_magic: u8, rw: u32, size: u32, number: u32) -> u32 {
    ((drv_magic as u32) << 24) | (number << 16) | (size << 2) | rw
}

/// Composes the request code of a driver's command.
#[verifier::when_used_as_spec(spec_ioc)]
pub fn ioc(drv_magic: u8, rw: u32, size: u32, number: u32) -> (request: u32)
    ensures
        request == spec_ioc(drv_magic, rw, size, number),
{
    ((drv_magic as u32) << 24) | (number << 16) | (size << 2) | rw
}

} // verus!
