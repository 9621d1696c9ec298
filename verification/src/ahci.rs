//! The AHCI host bus adapter: bring-up of a controller found on the bus
//! and the model of its memory-mapped registers.

use crate::config_space::{config_address, spec_config_address, ConfigSpace};
use crate::encode::{same_words_outside, store_word};
use crate::memlayout::{io2v, spec_io2v};
use crate::pci::{
    disable_intr, enable_command_bus_master, spec_read_word, PCICommonHeader,
    COMMAND_BUS_MASTER, COMMAND_INTERRUPT_DISABLE,
};
use crate::text::{append_decimal, decimal_text, texts};
use vstd::prelude::*;
use vstd::string::StringExecFns;

verus! {

/// What bringing a controller up asks of the platform: the command word
/// to write to the function's command register, and where the register
/// window of the adapter is mapped.
#[derive(Clone, Copy, Debug, PartialEq, Eq)]
pub struct AhciDispatch {
    pub bus: u8,
    pub device: u8,
    pub function: u8,
    /// Physical base address of the register window.
    pub abar: u32,
    /// The function's command word with bus mastering switched on and the
    /// legacy interrupt switched off.
    pub command: u16,
    /// Device virtual address of the register window.
    pub virt_abar: u64,
}

/// The command word of a function that is being brought up.
pub open spec fn bring_up_command(command: u16) -> u16 {
    (command | COMMAND_BUS_MASTER) | COMMAND_INTERRUPT_DISABLE
}

/// What bringing up the controller behind `hdr` at `abar_addr` asks for.
pub open spec fn dispatch_for(hdr: PCICommonHeader, abar_addr: u32) -> AhciDispatch {
    AhciDispatch {
        bus: hdr.bus,
        device: hdr.device,
        function: hdr.function,
        abar: abar_addr,
        command: bring_up_command(hdr.command),
        virt_abar: spec_io2v(abar_addr as u64),
    }
}

/// Brings up the controller whose registers lie at the physical address
/// `abar_addr`: switches bus mastering on and the legacy interrupt off in
/// the header, and says where the register window is mapped.
pub fn ahci_init(hdr: &mut PCICommonHeader, abar_addr: u32) -> (dispatch: AhciDispatch)
    ensures
        *final(hdr) == (PCICommonHeader { command: bring_up_command(old(hdr).command), ..*old(hdr) }),
        dispatch == dispatch_for(*old(hdr), abar_addr),
{
    enable_command_bus_master(hdr);
    disable_intr(hdr);
    let virt_abar = io2v(abar_addr as u64);
    AhciDispatch {
        bus: hdr.bus,
        device: hdr.device,
        function: hdr.function,
        abar: abar_addr,
        command: hdr.command,
        virt_abar,
    }
}

/// Offset of the command word in a function's configuration space.
pub const COMMAND_OFFSET: u8 = 0x04;

impl AhciDispatch {
    /// The write to the function's command register that the bring-up
    /// asks for: the address word for the address port, and the dword for
    /// the data port. The dword holds the command word, and zeros where
    /// the status word lies, whose bits a written one would clear.
    pub fn command_write(&self) -> (write: (u32, u32))
        ensures
            write.0 == spec_config_address((self.bus, self.device, self.function), COMMAND_OFFSET),
            write.1 == self.command as u32,
    {
        (config_address((self.bus, self.device, self.function), COMMAND_OFFSET), self.command as u32)
    }

    /// Carries the command write out on a snapshot: the command word of
    /// the function becomes that of the bring-up, and nothing else
    /// changes.
    pub fn apply(&self, space: &mut ConfigSpace)
        ensures
            spec_read_word(final(space), (self.bus, self.device, self.function), COMMAND_OFFSET)
                == self.command,
            same_words_outside(
                old(space),
                final(space),
                (self.bus, self.device, self.function),
                COMMAND_OFFSET,
                1,
            ),
    {
        store_word(space, (self.bus, self.device, self.function), COMMAND_OFFSET, self.command);
    }
}

/// A snapshot of a memory-mapped register window, one 32-bit register per
/// entry, from the window's first byte on.
#[derive(Debug)]
pub struct MmioWindow {
    pub dwords: Vec<u32>,
}

impl MmioWindow {
    /// The size of the window in bytes.
    pub open spec fn len_bytes(&self) -> int {
        (self.dwords@.len() * 4) as int
    }

    /// Whether the window holds a whole 32-bit register at the byte
    /// offset `offset`.
    pub open spec fn covers(&self, offset: int) -> bool {
        0 <= offset && offset % 4 == 0 && offset + 4 <= self.len_bytes()
    }

    /// The 32-bit register at the byte offset `offset`.
    pub open spec fn dword(&self, offset: int) -> u32 {
        self.dwords@[offset / 4]
    }

    /// The 64-bit value whose low half is the register at `offset` and
    /// whose high half is the register that follows it.
    pub open spec fn qword(&self, offset: int) -> u64 {
        (self.dword(offset) as u64) | ((self.dword(offset + 4) as u64) << 32)
    }

    /// Wraps the registers read from a window.
    pub fn new(dwords: Vec<u32>) -> (window: MmioWindow)
        ensures
            window.dwords@ == dwords@,
    {
        MmioWindow { dwords }
    }

    /// Reads the register at the byte offset `offset`, if the window
    /// holds one there.
    pub fn read_u32(&self, offset: usize) -> (value: Option<u32>)
        ensures
            value == if self.covers(offset as int) {
                Some(self.dword(offset as int))
            } else {
                None
            },
    {
        if offset % 4 != 0 {
            return None;
        }
        let index = offset / 4;
        if index < self.dwords.len() {
            Some(self.dwords[index])
        } else {
            None
        }
    }
}

/// Byte offsets of the adapter's global registers from the window's base.
pub const HBA_CAP: usize = 0x00;

pub const HBA_GHC: usize = 0x04;

pub const HBA_IS: usize = 0x08;

pub const HBA_PI: usize = 0x0C;

pub const HBA_VS: usize = 0x10;

pub const HBA_CCC_CTL: usize = 0x14;

pub const HBA_CCC_PORTS: usize = 0x18;

pub const HBA_EM_LOC: usize = 0x1C;

pub const HBA_EM_CTL: usize = 0x20;

pub const HBA_CAP2: usize = 0x24;

pub const HBA_BOHC: usize = 0x28;

/// Bytes that the global registers span.
pub const HBA_GLOBAL_BYTES: usize = 0x2C;

/// Byte offset of the register block of port 0.
pub const HBA_PORT_BASE: usize = 0x100;

/// Bytes from one port's register block to the next.
pub const HBA_PORT_STRIDE: usize = 0x80;

/// The registers of one port.
#[derive(Debug, Clone, Copy, PartialEq, Eq)]
pub struct PortRegister {
    /// Command list base address.
    pub clb: u64,
    /// FIS base address.
    pub fb: u64,
    /// Interrupt status.
    pub is: u32,
    /// Interrupt enable.
    pub ie: u32,
    /// Command and status.
    pub cmd: u32,
    /// Task file data.
    pub tfd: u32,
    /// Signature.
    pub sig: u32,
    /// Serial ATA status.
    pub ssts: u32,
    /// Serial ATA control.
    pub sctl: u32,
    /// Serial ATA error.
    pub serr: u32,
    /// Serial ATA active.
    pub sact: u32,
    /// Command issue.
    pub ci: u32,
    /// Serial ATA notification.
    pub sntf: u32,
    /// FIS-based switching control.
    pub fbs: u32,
    /// Device sleep.
    pub devslp: u32,
    /// Vendor specific.
    pub vs: [u32; 4],
}

impl PortRegister {
    /// Whether the window holds a whole port register block at the byte
    /// offset `base`.
    pub open spec fn fits(window: &MmioWindow, base: int) -> bool {
        0 <= base && base % 4 == 0 && base + HBA_PORT_STRIDE <= window.len_bytes()
    }

    /// The registers of the port whose block starts at the byte offset
    /// `base`. The error register and the switching control are both read
    /// at `0x40`.
    pub open spec fn at(window: &MmioWindow, base: int) -> PortRegister {
        PortRegister {
            clb: window.qword(base + 0x00),
            fb: window.qword(base + 0x08),
            is: window.dword(base + 0x10),
            ie: window.dword(base + 0x14),
            cmd: window.dword(base + 0x18),
            tfd: window.dword(base + 0x20),
            sig: window.dword(base + 0x24),
            ssts: window.dword(base + 0x28),
            sctl: window.dword(base + 0x2C),
            serr: window.dword(base + 0x40),
            sact: window.dword(base + 0x34),
            ci: window.dword(base + 0x38),
            sntf: window.dword(base + 0x3C),
            fbs: window.dword(base + 0x40),
            devslp: window.dword(base + 0x44),
            vs: [
                window.dword(base + 0x70),
                window.dword(base + 0x74),
                window.dword(base + 0x78),
                window.dword(base + 0x7C),
            ],
        }
    }

    /// Reads the port register block at the byte offset `base`, if the
    /// window holds one there.
    pub fn from_ptr(window: &MmioWindow, base: usize) -> (port: Option<PortRegister>)
        ensures
            port == if PortRegister::fits(window, base as int) {
                Some(PortRegister::at(window, base as int))
            } else {
                None
            },
    {
        if base % 4 != 0 {
            return None;
        }
        let first = base / 4;
        let len = window.dwords.len();
        if len < 0x20 || first > len - 0x20 {
            return None;
        }
        let clb = (window.dwords[first] as u64) | ((window.dwords[first + 1] as u64) << 32);
        let fb = (window.dwords[first + 2] as u64) | ((window.dwords[first + 3] as u64) << 32);
        let is = window.dwords[first + 4];
        let ie = window.dwords[first + 5];
        let cmd = window.dwords[first + 6];
        let tfd = window.dwords[first + 8];
        let sig = window.dwords[first + 9];
        let ssts = window.dwords[first + 10];
        let sctl = window.dwords[first + 11];
        let serr = window.dwords[first + 16];
        let sact = window.dwords[first + 13];
        let ci = window.dwords[first + 14];
        let sntf = window.dwords[first + 15];
        let fbs = window.dwords[first + 16];
        let devslp = window.dwords[first + 17];
        let vendor1 = window.dwords[first + 28];
        let vendor2 = window.dwords[first + 29];
        let vendor3 = window.dwords[first + 30];
        let vendor4 = window.dwords[first + 31];
        let vs = [vendor1, vendor2, vendor3, vendor4];
        let port = PortRegister {
            clb,
            fb,
            is,
            ie,
            cmd,
            tfd,
            sig,
            ssts,
            sctl,
            serr,
            sact,
            ci,
            sntf,
            fbs,
            devslp,
            vs,
        };
        assert(port.vs@ =~= PortRegister::at(window, base as int).vs@);
        Some(port)
    }
}

/// The adapter's global registers and the registers of each port that
/// it implements, in ascending port order.
#[derive(Debug, Clone, PartialEq, Eq)]
pub struct RegisterHBAMemory {
    pub host_cap: u32,
    pub global_hba_control: u32,
    pub interrupt_status: u32,
    pub ports_implemented: u32,
    /// Major version in the high half, minor in the low half.
    pub version: u32,
    /// Command completion coalescing control.
    pub ccc_ctl: u32,
    /// Command completion coalescing ports.
    pub ccc_ports: u32,
    /// Enclosure management location.
    pub em_loc: u32,
    /// Enclosure management control.
    pub em_ctl: u32,
    /// Host capabilities extended.
    pub cap2: u32,
    /// BIOS/OS handoff control and status.
    pub bohc: u32,
    pub ports: Vec<PortRegister>,
}

/// Whether bit `index` of the ports-implemented bitmap is set.
pub open spec fn port_implemented(ports_implemented: u32, index: int) -> bool {
    (ports_implemented >> (index as u32)) & 1 != 0
}

/// Byte offset of the register block of port `index`.
pub open spec fn port_offset(index: int) -> int {
    HBA_PORT_BASE + index * HBA_PORT_STRIDE
}

/// The registers of the implemented ports from `index` on, in ascending
/// port order.
pub open spec fn ports_from(window: &MmioWindow, ports_implemented: u32, index: int) -> Seq<
    PortRegister,
>
    decreases 32 - index,
{
    if index >= 32 || index < 0 {
        Seq::empty()
    } else if port_implemented(ports_implemented, index) {
        seq![PortRegister::at(window, port_offset(index))] + ports_from(
            window,
            ports_implemented,
            index + 1,
        )
    } else {
        ports_from(window, ports_implemented, index + 1)
    }
}

/// Whether the window holds the global registers and the register block
/// of each port that the bitmap at `0x0C` marks as implemented.
pub open spec fn hba_fits(window: &MmioWindow) -> bool {
    &&& HBA_GLOBAL_BYTES <= window.len_bytes()
    &&& forall|index: int|
        0 <= index < 32 && #[trigger] port_implemented(window.dword(HBA_PI as int), index)
            ==> PortRegister::fits(window, port_offset(index))
}

impl RegisterHBAMemory {
    /// Decodes the adapter's registers from a snapshot of its window:
    /// the eleven global registers, then one port register block for each
    /// set bit of the ports-implemented bitmap, from bit 0 up. Yields
    /// `None` where the window is too short for a register that is read.
    pub fn from_abar(window: &MmioWindow) -> (hba: Option<Self>)
        ensures
            hba is Some <==> hba_fits(window),
            hba matches Some(h) ==> {
                &&& h.host_cap == window.dword(HBA_CAP as int)
                &&& h.global_hba_control == window.dword(HBA_GHC as int)
                &&& h.interrupt_status == window.dword(HBA_IS as int)
                &&& h.ports_implemented == window.dword(HBA_PI as int)
                &&& h.version == window.dword(HBA_VS as int)
                &&& h.ccc_ctl == window.dword(HBA_CCC_CTL as int)
                &&& h.ccc_ports == window.dword(HBA_CCC_PORTS as int)
                &&& h.em_loc == window.dword(HBA_EM_LOC as int)
                &&& h.em_ctl == window.dword(HBA_EM_CTL as int)
                &&& h.cap2 == window.dword(HBA_CAP2 as int)
                &&& h.bohc == window.dword(HBA_BOHC as int)
                &&& h.ports@ == ports_from(window, window.dword(HBA_PI as int), 0)
            },
    {
        if window.dwords.len() < HBA_GLOBAL_BYTES / 4 {
            return None;
        }
        let cap = window.dwords[HBA_CAP / 4];
        let ghc = window.dwords[HBA_GHC / 4];
        let is = window.dwords[HBA_IS / 4];
        let pi = window.dwords[HBA_PI / 4];
        let vs = window.dwords[HBA_VS / 4];
        let ccc_ctl = window.dwords[HBA_CCC_CTL / 4];
        let ccc_ports = window.dwords[HBA_CCC_PORTS / 4];
        let em_loc = window.dwords[HBA_EM_LOC / 4];
        let em_ctl = window.dwords[HBA_EM_CTL / 4];
        let cap2 = window.dwords[HBA_CAP2 / 4];
        let bohc = window.dwords[HBA_BOHC / 4];

        let mut ports: Vec<PortRegister> = Vec::new();
        let mut bit_position: u32 = 0;
        while bit_position < 32
            invariant
                bit_position <= 32,
                pi == window.dword(HBA_PI as int),
                HBA_GLOBAL_BYTES <= window.len_bytes(),
                forall|index: int|
                    0 <= index < bit_position && #[trigger] port_implemented(pi, index)
                        ==> PortRegister::fits(window, port_offset(index)),
                ports_from(window, pi, 0) =~= ports@ + ports_from(window, pi, bit_position as int),
            decreases 32 - bit_position,
        {
            if (pi >> bit_position) & 1 != 0 {
                assert(port_implemented(pi, bit_position as int));
                let base: usize = HBA_PORT_BASE + (bit_position as usize) * HBA_PORT_STRIDE;
                match PortRegister::from_ptr(window, base) {
                    Some(port) => {
                        ports.push(port);
                    },
                    None => {
                        return None;
                    },
                }
            }
            bit_position += 1;
        }
        Some(
            Self {
                host_cap: cap,
                global_hba_control: ghc,
                interrupt_status: is,
                ports_implemented: pi,
                version: vs,
                ccc_ctl,
                ccc_ports,
                em_loc,
                em_ctl,
                cap2,
                bohc,
                ports,
            },
        )
    }
}

/// Host capability bits.
pub const CAP_A64: u32 = 0x8000_0000;

pub const CAP_CQA: u32 = 0x4000_0000;

pub const CAP_CD: u32 = 0x2000_0000;

pub const CAP_IS: u32 = 0x1000_0000;

pub const CAP_SSU: u32 = 0x0800_0000;

pub const CAP_ALPM: u32 = 0x0400_0000;

pub const CAP_AL: u32 = 0x0200_0000;

pub const CAP_RAWFIS: u32 = 0x0100_0000;

/// Interface speed support: bits 20 to 23.
pub const CAP_ISS: u32 = 0x00F0_0000;

pub const CAP_NZDO: u32 = 0x0008_0000;

pub const CAP_PSSA: u32 = 0x0004_0000;

pub const CAP_PM: u32 = 0x0002_0000;

pub const CAP_PMFS: u32 = 0x0001_0000;

pub const CAP_PMD: u32 = 0x0000_8000;

pub const CAP_SSC: u32 = 0x0000_4000;

pub const CAP_PS: u32 = 0x0000_2000;

/// Number of command slots, less one: bits 8 to 12.
pub const CAP_NCS: u32 = 0x0000_1F00;

pub const CAP_CCCS: u32 = 0x0000_0080;

pub const CAP_EMS: u32 = 0x0000_0040;

pub const CAP_SXS: u32 = 0x0000_0020;

/// Number of ports, less one: bits 0 to 4.
pub const CAP_NP: u32 = 0x0000_001F;

/// Global control bits.
pub const GHC_AE: u32 = 0x8000_0000;

pub const GHC_MRSM: u32 = 0x0000_0004;

pub const GHC_IE: u32 = 0x0000_0002;

pub const GHC_HR: u32 = 0x0000_0001;

/// Whether all bits of `bit` are set in `bits`.
pub open spec fn spec_is_set(bits: u32, bit: u32) -> bool {
    bits & bit == bit
}

/// Tells whether all bits of `bit` are set in `bits`.
#[verifier::when_used_as_spec(spec_is_set)]
pub fn is_set(bits: u32, bit: u32) -> (set: bool)
    ensures
        set == spec_is_set(bits, bit),
{
    bits & bit == bit
}

/// The one-entry list of `label` where `bit` is set in `bits`, else the
/// empty list.
pub open spec fn flag_label(bits: u32, bit: u32, label: Seq<char>) -> Seq<Seq<char>> {
    if spec_is_set(bits, bit) {
        seq![label]
    } else {
        Seq::empty()
    }
}

/// The interface speed field of the host capabilities.
pub open spec fn speed_generation(host_cap: u32) -> u32 {
    (host_cap & CAP_ISS) >> 20
}

/// The entry for the interface speed: none for generation 0, the name
/// and rate of generations 1 to 3, the number alone beyond.
pub open spec fn speed_label(host_cap: u32) -> Seq<Seq<char>> {
    let generation = speed_generation(host_cap);
    if generation == 0 {
        Seq::empty()
    } else if generation == 1 {
        seq!["Gen 1 (1.5Gbps)"@]
    } else if generation == 2 {
        seq!["Gen 2 (3 Gbps)"@]
    } else if generation == 3 {
        seq!["Gen 3 (6 Gbps)"@]
    } else {
        seq!["Gen "@ + decimal_text(generation as nat) + " (? Gbps)"@]
    }
}

/// The number of command slots: the five-bit field at bit 8, plus one.
pub open spec fn spec_command_slots(host_cap: u32) -> u32 {
    (((host_cap & CAP_NCS) >> 8) + 1) as u32
}

/// The number of ports: the five-bit field at bit 0, plus one.
pub open spec fn spec_port_count(host_cap: u32) -> u32 {
    ((host_cap & CAP_NP) + 1) as u32
}

/// The entries that describe the host capabilities, in the order in
/// which they are listed.
pub open spec fn cap_labels(host_cap: u32) -> Seq<Seq<char>> {
    Seq::<Seq<char>>::empty() + flag_label(host_cap, CAP_A64, "64bit"@) + flag_label(
        host_cap,
        CAP_CQA,
        "ncq"@,
    ) + flag_label(host_cap, CAP_CD, "cpd"@) + flag_label(host_cap, CAP_SSU, "ssu"@) + flag_label(
        host_cap,
        CAP_ALPM,
        "alpm"@,
    ) + flag_label(host_cap, CAP_AL, "al"@) + flag_label(host_cap, CAP_RAWFIS, "rawfis"@)
        + speed_label(host_cap) + flag_label(host_cap, CAP_NZDO, "ahci_only"@) + flag_label(
        host_cap,
        CAP_PM,
        "pm"@,
    ) + flag_label(host_cap, CAP_PMFS, "fis_switching"@) + flag_label(host_cap, CAP_PMD, "pmd"@)
        + flag_label(host_cap, CAP_SSC, "ssc"@) + flag_label(host_cap, CAP_PS, "ps"@)
        + seq!["slots="@ + decimal_text(spec_command_slots(host_cap) as nat)] + flag_label(
        host_cap,
        CAP_CCCS,
        "cccs"@,
    ) + flag_label(host_cap, CAP_EMS, "ems"@) + flag_label(host_cap, CAP_SXS, "sxs"@)
        + seq!["ports="@ + decimal_text(spec_port_count(host_cap) as nat)]
}

/// The entries that describe the global control register.
pub open spec fn ghc_labels(control: u32) -> Seq<Seq<char>> {
    Seq::<Seq<char>>::empty() + flag_label(control, GHC_AE, "ae"@) + flag_label(
        control,
        GHC_MRSM,
        "msrm"@,
    ) + flag_label(control, GHC_IE, "int_enable"@) + flag_label(control, GHC_HR, "hba_reset"@)
}

/// The version as text: major and minor, each a two-digit binary-coded
/// decimal number, joined by a dot.
pub open spec fn version_text(version: u32) -> Seq<char> {
    decimal_text((((version & 0xFF00_0000) >> 24) * 10 + ((version & 0x00FF_0000) >> 16)) as nat)
        + "."@ + decimal_text((((version & 0x0000_FF00) >> 8) * 10 + (version & 0x0000_00FF)) as nat)
}

proof fn lemma_field_bounds(bits: u32)
    ensures
        (bits & 0x0000_1F00) >> 8 <= 31,
        bits & 0x0000_001F <= 31,
        (bits & 0xFF00_0000) >> 24 <= 255,
        (bits & 0x00FF_0000) >> 16 <= 255,
        (bits & 0x0000_FF00) >> 8 <= 255,
        bits & 0x0000_00FF <= 255,
        (bits & 0x00F0_0000) >> 20 <= 15,
{
    assert((bits & 0x0000_1F00u32) >> 8 <= 31 && bits & 0x0000_001Fu32 <= 31 && (bits
        & 0xFF00_0000u32) >> 24 <= 255 && (bits & 0x00FF_0000u32) >> 16 <= 255 && (bits
        & 0x0000_FF00u32) >> 8 <= 255 && bits & 0x0000_00FFu32 <= 255 && (bits & 0x00F0_0000u32)
        >> 20 <= 15) by (bit_vector);
}

/// Appends `label` to `labels` where `bit` is set in `bits`.
fn push_flag(labels: &mut Vec<String>, bits: u32, bit: u32, label: &str)
    ensures
        texts(final(labels)@) == texts(old(labels)@) + flag_label(bits, bit, label@),
{
    if is_set(bits, bit) {
        labels.push(String::from_str(label));
    }
    assert(texts(labels@) =~= texts(old(labels)@) + flag_label(bits, bit, label@));
}

/// Appends `prefix` followed by `n` in decimal to `labels`.
fn push_count(labels: &mut Vec<String>, prefix: &str, n: u32)
    ensures
        texts(final(labels)@) == texts(old(labels)@) + seq![prefix@ + decimal_text(n as nat)],
{
    let mut tmp = String::from_str(prefix);
    append_decimal(&mut tmp, n as u64);
    labels.push(tmp);
    assert(texts(labels@) =~= texts(old(labels)@) + seq![prefix@ + decimal_text(n as nat)]);
}

impl RegisterHBAMemory {
    /// The number of ports that the adapter supports.
    pub fn ports(&self) -> (count: u32)
        ensures
            count == spec_port_count(self.host_cap),
            1 <= count <= 32,
    {
        proof {
            lemma_field_bounds(self.host_cap);
        }
        (self.host_cap & CAP_NP) + 1
    }

    /// The number of command slots that the adapter supports.
    pub fn command_slots(&self) -> (count: u32)
        ensures
            count == spec_command_slots(self.host_cap),
            1 <= count <= 32,
    {
        proof {
            lemma_field_bounds(self.host_cap);
        }
        ((self.host_cap & CAP_NCS) >> 8) + 1
    }

    /// The version as text, such as `1.30`.
    pub fn version(&self) -> (text: String)
        ensures
            text@ == version_text(self.version),
    {
        proof {
            lemma_field_bounds(self.version);
        }
        let major = ((self.version & 0xFF00_0000) >> 24) * 10 + ((self.version & 0x00FF_0000)
            >> 16);
        let minor = ((self.version & 0x0000_FF00) >> 8) * 10 + (self.version & 0x0000_00FF);
        let mut text = String::new();
        append_decimal(&mut text, major as u64);
        text.append(".");
        append_decimal(&mut text, minor as u64);
        assert(text@ =~= version_text(self.version));
        text
    }

    /// The host capabilities as a list of short entries.
    pub fn cap(&self) -> (labels: Vec<String>)
        ensures
            texts(labels@) == cap_labels(self.host_cap),
    {
        let mut ret: Vec<String> = Vec::new();
        assert(texts(ret@) =~= Seq::<Seq<char>>::empty());
        push_flag(&mut ret, self.host_cap, CAP_A64, "64bit");
        push_flag(&mut ret, self.host_cap, CAP_CQA, "ncq");
        push_flag(&mut ret, self.host_cap, CAP_CD, "cpd");
        push_flag(&mut ret, self.host_cap, CAP_SSU, "ssu");
        push_flag(&mut ret, self.host_cap, CAP_ALPM, "alpm");
        push_flag(&mut ret, self.host_cap, CAP_AL, "al");
        push_flag(&mut ret, self.host_cap, CAP_RAWFIS, "rawfis");
        push_speed(&mut ret, self.host_cap);
        push_flag(&mut ret, self.host_cap, CAP_NZDO, "ahci_only");
        push_flag(&mut ret, self.host_cap, CAP_PM, "pm");
        push_flag(&mut ret, self.host_cap, CAP_PMFS, "fis_switching");
        push_flag(&mut ret, self.host_cap, CAP_PMD, "pmd");
        push_flag(&mut ret, self.host_cap, CAP_SSC, "ssc");
        push_flag(&mut ret, self.host_cap, CAP_PS, "ps");
        push_count(&mut ret, "slots=", self.command_slots());
        push_flag(&mut ret, self.host_cap, CAP_CCCS, "cccs");
        push_flag(&mut ret, self.host_cap, CAP_EMS, "ems");
        push_flag(&mut ret, self.host_cap, CAP_SXS, "sxs");
        push_count(&mut ret, "ports=", self.ports());
        ret
    }

    /// The global control register as a list of short entries.
    pub fn ghc(&self) -> (labels: Vec<String>)
        ensures
            texts(labels@) == ghc_labels(self.global_hba_control),
    {
        let mut vec: Vec<String> = Vec::new();
        assert(texts(vec@) =~= Seq::<Seq<char>>::empty());
        push_flag(&mut vec, self.global_hba_control, GHC_AE, "ae");
        push_flag(&mut vec, self.global_hba_control, GHC_MRSM, "msrm");
        push_flag(&mut vec, self.global_hba_control, GHC_IE, "int_enable");
        push_flag(&mut vec, self.global_hba_control, GHC_HR, "hba_reset");
        vec
    }

    /// How many ports are implemented without a gap from port 0 on: the
    /// number of trailing ones of the bitmap.
    pub fn pi(&self) -> (count: u32)
        ensures
            count == vstd::std_specs::bits::u32_trailing_ones(self.ports_implemented),
    {
        self.ports_implemented.trailing_ones()
    }
}

/// Appends the entry for the interface speed to `labels`.
fn push_speed(labels: &mut Vec<String>, host_cap: u32)
    ensures
        texts(final(labels)@) == texts(old(labels)@) + speed_label(host_cap),
{
    proof {
        lemma_field_bounds(host_cap);
    }
    let generation = (host_cap & CAP_ISS) >> 20;
    if generation != 0 {
        let entry = if generation == 1 {
            String::from_str("Gen 1 (1.5Gbps)")
        } else if generation == 2 {
            String::from_str("Gen 2 (3 Gbps)")
        } else if generation == 3 {
            String::from_str("Gen 3 (6 Gbps)")
        } else {
            let mut text = String::from_str("Gen ");
            append_decimal(&mut text, generation as u64);
            text.append(" (? Gbps)");
            text
        };
        labels.push(entry);
    }
    assert(texts(labels@) =~= texts(old(labels)@) + speed_label(host_cap));
}

pub const SATA_SIG_ATA: u32 = 0x0000_0101;

pub const SATA_SIG_ATAPI: u32 = 0xEB14_0101;

pub const SATA_SIG_SEMB: u32 = 0xC33C_0101;

pub const SATA_SIG_PM: u32 = 0x9669_0101;

/// Value of the interface power management field of an active link.
pub const PORT_IPM_ACTIVE: u32 = 1;

/// Value of the device detection field where a device is present and
/// the link is up.
pub const PORT_DET_PRESENT: u32 = 3;

/// What is attached to a port.
#[derive(Debug, Clone, Copy, PartialEq, Eq, Structural)]
pub enum DeviceType {
    /// No device, or no active link to one.
    Null,
    Sata,
    /// Enclosure management bridge.
    Semb,
    /// Port multiplier.
    Pm,
    Satapi,
    /// A device with a signature that is not known; the signature is kept.
    Unknown(u32),
}

/// The device detection field of the status register: bits 0 to 3.
pub open spec fn detection_field(ssts: u32) -> u32 {
    ssts & 0x0F
}

/// The interface power management field of the status register: bits
/// 8 to 11.
pub open spec fn power_field(ssts: u32) -> u32 {
    (ssts >> 8) & 0x0F
}

/// The kind of device that a port with the status `ssts` and the
/// signature `sig` holds: none unless a device is present on an active
/// link, else what the signature names.
pub open spec fn classify(ssts: u32, sig: u32) -> DeviceType {
    if detection_field(ssts) != PORT_DET_PRESENT || power_field(ssts) != PORT_IPM_ACTIVE {
        DeviceType::Null
    } else if sig == SATA_SIG_ATAPI {
        DeviceType::Satapi
    } else if sig == SATA_SIG_SEMB {
        DeviceType::Semb
    } else if sig == SATA_SIG_PM {
        DeviceType::Pm
    } else if sig == SATA_SIG_ATA {
        DeviceType::Sata
    } else {
        DeviceType::Unknown(sig)
    }
}

/// Classifies the device attached to `port`.
pub fn check_type(port: &PortRegister) -> (kind: DeviceType)
    ensures
        kind == classify(port.ssts, port.sig),
{
    let ssts = port.ssts;
    let ipm = (ssts >> 8) & 0xF;
    let det = ssts & 0x0F;

    if det != PORT_DET_PRESENT || ipm != PORT_IPM_ACTIVE {
        return DeviceType::Null;
    }
    let sig = port.sig;
    if sig == SATA_SIG_ATAPI {
        DeviceType::Satapi
    } else if sig == SATA_SIG_SEMB {
        DeviceType::Semb
    } else if sig == SATA_SIG_PM {
        DeviceType::Pm
    } else if sig == SATA_SIG_ATA {
        DeviceType::Sata
    } else {
        DeviceType::Unknown(sig)
    }
}

impl DeviceType {
    /// The name under which the kind is reported.
    pub open spec fn spec_name(&self) -> Seq<char> {
        match *self {
            DeviceType::Sata => "SATA"@,
            DeviceType::Satapi => "SATAPI"@,
            DeviceType::Semb => "SEMB"@,
            DeviceType::Pm => "PM"@,
            DeviceType::Null => "NULL"@,
            DeviceType::Unknown(_) => "Unknown"@,
        }
    }

    /// The name under which the kind is reported.
    pub fn name(&self) -> (name: &'static str)
        ensures
            name@ == self.spec_name(),
    {
        match self {
            DeviceType::Sata => "SATA",
            DeviceType::Satapi => "SATAPI",
            DeviceType::Semb => "SEMB",
            DeviceType::Pm => "PM",
            DeviceType::Null => "NULL",
            DeviceType::Unknown(_) => "Unknown",
        }
    }
}

/// The line that reports a device of the given kind: its name, and for a
/// kind that is not known the signature in decimal.
pub open spec fn device_text(kind: DeviceType) -> Seq<char> {
    let head = "AHCI Port Device "@ + kind.spec_name() + " "@;
    match kind {
        DeviceType::Unknown(sig) => head + " ("@ + decimal_text(sig as nat) + ") "@,
        _ => head,
    }
}

impl PortRegister {
    /// The line that reports what is attached to the port.
    pub fn describe(&self) -> (text: String)
        ensures
            text@ == device_text(classify(self.ssts, self.sig)),
    {
        let kind = check_type(self);
        let mut text = String::from_str("AHCI Port Device ");
        text.append(kind.name());
        text.append(" ");
        if let DeviceType::Unknown(sig) = kind {
            text.append(" (");
            append_decimal(&mut text, sig as u64);
            text.append(") ");
        }
        text
    }
}

impl RegisterHBAMemory {
    /// The count of ports implemented from port 0 on without a gap, a
    /// slash, and the number of ports that the adapter supports.
    pub fn ports_implemented_text(&self) -> (text: String)
        ensures
            text@ == decimal_text(
                vstd::std_specs::bits::u32_trailing_ones(self.ports_implemented) as nat,
            ) + "/"@ + decimal_text(spec_port_count(self.host_cap) as nat),
    {
        let mut text = String::new();
        append_decimal(&mut text, self.pi() as u64);
        text.append("/");
        append_decimal(&mut text, self.ports() as u64);
        assert(text@ =~= decimal_text(
            vstd::std_specs::bits::u32_trailing_ones(self.ports_implemented) as nat,
        ) + "/"@ + decimal_text(spec_port_count(self.host_cap) as nat));
        text
    }
}

/// The least size of a window that holds the global registers and the
/// register block of each port that `ports_implemented` marks: it ends
/// with the block of the highest such port.
pub fn hba_window_bytes(ports_implemented: u32) -> (bytes: usize)
    ensures
        HBA_GLOBAL_BYTES <= bytes <= HBA_PORT_BASE + 32 * HBA_PORT_STRIDE,
        bytes % 4 == 0,
        forall|window: &MmioWindow|
            window.dword(HBA_PI as int) == ports_implemented ==> (#[trigger] hba_fits(window)
                <==> bytes <= window.len_bytes()),
{
    let mut above: u32 = 32;
    while above > 0 && (ports_implemented >> (above - 1)) & 1 == 0
        invariant
            above <= 32,
            forall|index: int|
                above <= index < 32 ==> !#[trigger] port_implemented(ports_implemented, index),
        decreases above,
    {
        above -= 1;
    }
    if above == 0 {
        assert forall|window: &MmioWindow|
            window.dword(HBA_PI as int) == ports_implemented implies (#[trigger] hba_fits(window)
            <==> HBA_GLOBAL_BYTES <= window.len_bytes()) by {}
        HBA_GLOBAL_BYTES
    } else {
        let bytes = HBA_PORT_BASE + (above as usize) * HBA_PORT_STRIDE;
        assert(port_implemented(ports_implemented, above - 1));
        assert forall|window: &MmioWindow|
            window.dword(HBA_PI as int) == ports_implemented implies (#[trigger] hba_fits(window)
            <==> bytes <= window.len_bytes()) by {
            if hba_fits(window) {
                assert(PortRegister::fits(window, port_offset(above - 1)));
            }
            if bytes <= window.len_bytes() {
                assert forall|index: int|
                    0 <= index < 32 && #[trigger] port_implemented(
                        window.dword(HBA_PI as int),
                        index,
                    ) implies PortRegister::fits(window, port_offset(index)) by {
                    assert(index < above);
                }
            }
        }
        bytes
    }
}

} // verus!
