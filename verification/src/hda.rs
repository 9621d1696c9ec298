//! The high definition audio controller: decoding of its global
//! capabilities register.

use crate::ahci::MmioWindow;
use crate::memlayout::{io2v, spec_io2v};
use crate::pci::PCICommonHeader;
use vstd::prelude::*;

verus! {

/// A field value that the controller's specification reserves.
#[derive(Debug, Clone, Copy, PartialEq, Eq)]
pub struct Reserved<T>(pub T);

/// Where the controller's registers are mapped.
#[derive(Debug, Clone, Copy, PartialEq, Eq)]
pub struct HDAControllerRegister {
    /// Device virtual address at which the registers start.
    pub address: u64,
}

/// The global capabilities register.
#[derive(Debug, Clone, Copy, PartialEq, Eq)]
pub struct GlobalCapabilities(pub u16);

impl HDAControllerRegister {
    /// The controller whose registers lie at the physical address `addr`.
    pub fn with_physical_addr(addr: u64) -> (controller: Self)
        requires
            addr + crate::memlayout::DEVICE_SHIFT <= u64::MAX,
        ensures
            controller.address == spec_io2v(addr),
    {
        Self { address: io2v(addr) }
    }

    /// The global capabilities: the low half of the window's first
    /// register.
    pub fn global_capabilities(&self, window: &MmioWindow) -> (capabilities: Option<
        GlobalCapabilities,
    >)
        ensures
            capabilities == if window.covers(0) {
                Some(GlobalCapabilities((window.dword(0) & 0xFFFF) as u16))
            } else {
                None
            },
    {
        match window.read_u32(0) {
            Some(register) => Some(GlobalCapabilities((register & 0xFFFF) as u16)),
            None => None,
        }
    }

    /// The minor version: the third byte of the window.
    pub fn minor_version(&self, window: &MmioWindow) -> (version: Option<u8>)
        ensures
            version == if window.covers(0) {
                Some(((window.dword(0) >> 16) & 0xFF) as u8)
            } else {
                None
            },
    {
        match window.read_u32(0) {
            Some(register) => Some(((register >> 16) & 0xFF) as u8),
            None => None,
        }
    }

    /// The major version: the fourth byte of the window.
    pub fn major_version(&self, window: &MmioWindow) -> (version: Option<u8>)
        ensures
            version == if window.covers(0) {
                Some(((window.dword(0) >> 24) & 0xFF) as u8)
            } else {
                None
            },
    {
        match window.read_u32(0) {
            Some(register) => Some(((register >> 24) & 0xFF) as u8),
            None => None,
        }
    }
}

impl GlobalCapabilities {
    /// The field of serial data out signals: bits 1 and 2.
    pub open spec fn sdo_field(&self) -> u8 {
        ((self.0 >> 1) & 0b11) as u8
    }

    /// The field of bidirectional streams: bits 3 to 7.
    pub open spec fn bss_field(&self) -> u8 {
        ((self.0 >> 3) & 0b11111) as u8
    }

    /// Whether the register reports anything at all.
    pub fn is_64ok(&self) -> (ok: bool)
        ensures
            ok == (self.0 != 0),
    {
        self.0 != 0
    }

    /// Number of serial data out signals: 1, 2 or 4 for the field values
    /// 0, 1 and 2; the field value 3 is reserved.
    pub fn num_sdo(&self) -> (signals: Result<u8, Reserved<u8>>)
        ensures
            signals == if self.sdo_field() == 0 {
                Ok::<u8, Reserved<u8>>(1u8)
            } else if self.sdo_field() == 1 {
                Ok(2u8)
            } else if self.sdo_field() == 2 {
                Ok(4u8)
            } else {
                Err(Reserved(self.sdo_field()))
            },
    {
        let x = ((self.0 >> 1) & 0b11) as u8;
        match x {
            0b0 => Ok(1),
            0b1 => Ok(2),
            0b10 => Ok(4),
            _ => Err(Reserved(x)),
        }
    }

    /// Number of bidirectional streams; the field value 31 is reserved.
    pub fn num_bss(&self) -> (streams: Result<u8, Reserved<u8>>)
        ensures
            streams == if self.bss_field() == 0b11111 {
                Err::<u8, Reserved<u8>>(Reserved(self.bss_field()))
            } else {
                Ok(self.bss_field())
            },
    {
        let x = ((self.0 >> 3) & 0b11111) as u8;
        match x {
            0b11111 => Err(Reserved(x)),
            _ => Ok(x),
        }
    }

    /// Number of input streams: bits 8 to 11.
    pub fn num_iss(&self) -> (streams: u8)
        ensures
            streams == ((self.0 >> 8) & 0b1111) as u8,
    {
        ((self.0 >> 8) & 0b1111) as u8
    }

    /// Number of output streams: bits 12 to 15.
    pub fn num_oss(&self) -> (streams: u8)
        ensures
            streams == ((self.0 >> 12) & 0b1111) as u8,
    {
        ((self.0 >> 12) & 0b1111) as u8
    }
}

/// Locates the registers of the audio controller behind `hdr`: they are
/// mapped from the first base address register.
pub fn driver_init(hdr: &PCICommonHeader) -> (controller: HDAControllerRegister)
    ensures
        controller.address == spec_io2v(hdr.base_address_registers[0] as u64),
{
    HDAControllerRegister::with_physical_addr(hdr.bar()[0] as u64)
}

} // verus!
