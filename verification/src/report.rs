//! Diagnostic text about a function's header, command word and status
//! word.

use crate::config_space::ConfigSpace;
use crate::pci::{function_present, header_at, PCICommonHeader};
use crate::text::{
    append_bool, append_decimal, append_hex, bool_text, decimal_text, hex_text, texts,
};
use vstd::prelude::*;
use vstd::string::StringExecFns;

verus! {

/// Whether bit `num` of `bits` is set, counted from 0.
pub open spec fn spec_bit(bits: u16, num: u16) -> bool {
    bits & (1u16 << num) != 0
}

/// Tells whether bit `num` of `bits` is set, counted from 0.
#[verifier::when_used_as_spec(spec_bit)]
pub fn bit(bits: u16, num: u16) -> (set: bool)
    requires
        num < 16,
    ensures
        set == spec_bit(bits, num),
{
    bits & (1u16 << num) != 0
}

/// Mask of the status bits from bit 9 on by which the response timing is
/// told.
pub const DEVSEL_MASK: u16 = 0xb11;

/// The name of the response timing that the status word reports.
pub open spec fn devsel_text(status: u16) -> Seq<char> {
    let timing = (status >> 9) & DEVSEL_MASK;
    if timing == 0 {
        "Fast"@
    } else if timing == 1 {
        "Medium"@
    } else if timing == 2 {
        "Slow"@
    } else {
        "Unknown"@
    }
}

/// The line that reports the status word.
pub open spec fn status_text(status: u16) -> Seq<char> {
    "Cap: "@ + bool_text(spec_bit(status, 4)) + " 66MHz: "@ + bool_text(spec_bit(status, 5))
        + " FastB2B: "@ + bool_text(spec_bit(status, 7)) + " MParityErr: "@ + bool_text(
        spec_bit(status, 8),
    ) + " DEVSEL="@ + devsel_text(status) + " SifTAbort: "@ + bool_text(spec_bit(status, 11))
        + " RecTAbort: "@ + bool_text(spec_bit(status, 12)) + " RecMAbort: "@ + bool_text(
        spec_bit(status, 13),
    ) + " SigSysError: "@ + bool_text(spec_bit(status, 14)) + " ParityErr "@ + bool_text(
        spec_bit(status, 15),
    )
}

/// Renders the status word as one line.
pub fn pci_status(status: u16) -> (line: String)
    ensures
        line@ == status_text(status),
{
    let mut line = String::from_str("Cap: ");
    append_bool(&mut line, bit(status, 4));
    line.append(" 66MHz: ");
    append_bool(&mut line, bit(status, 5));
    line.append(" FastB2B: ");
    append_bool(&mut line, bit(status, 7));
    line.append(" MParityErr: ");
    append_bool(&mut line, bit(status, 8));
    line.append(" DEVSEL=");
    let timing = (status >> 9) & DEVSEL_MASK;
    line.append(
        if timing == 0 {
            "Fast"
        } else if timing == 1 {
            "Medium"
        } else if timing == 2 {
            "Slow"
        } else {
            "Unknown"
        },
    );
    line.append(" SifTAbort: ");
    append_bool(&mut line, bit(status, 11));
    line.append(" RecTAbort: ");
    append_bool(&mut line, bit(status, 12));
    line.append(" RecMAbort: ");
    append_bool(&mut line, bit(status, 13));
    line.append(" SigSysError: ");
    append_bool(&mut line, bit(status, 14));
    line.append(" ParityErr ");
    append_bool(&mut line, bit(status, 15));
    line
}

/// `before` followed by the lines that report the command word, one for
/// each of its bits that has a name.
pub open spec fn with_control_lines(before: Seq<Seq<char>>, control: u16) -> Seq<Seq<char>> {
    before.push("I/O space: "@ + bool_text(spec_bit(control, 0))).push(
        "MemSpace: "@ + bool_text(spec_bit(control, 1)),
    ).push("BusMaster: "@ + bool_text(spec_bit(control, 2))).push(
        "SpecCycle: "@ + bool_text(spec_bit(control, 3)),
    ).push("memory WInv: "@ + bool_text(spec_bit(control, 4))).push(
        "VGASnoop: "@ + bool_text(spec_bit(control, 5)),
    ).push("ParErr: "@ + bool_text(spec_bit(control, 6))).push(
        "SERR#: "@ + bool_text(spec_bit(control, 8)),
    ).push("FastB2B: "@ + bool_text(spec_bit(control, 9))).push(
        "IntOff: "@ + bool_text(spec_bit(control, 10)),
    )
}

/// The lines that report the command word.
pub open spec fn control_lines(control: u16) -> Seq<Seq<char>> {
    with_control_lines(Seq::empty(), control)
}

/// Appends the line `label` followed by `true` or `false` to `lines`.
fn push_bit_line(lines: &mut Vec<String>, label: &str, value: bool)
    ensures
        texts(final(lines)@) == texts(old(lines)@).push(label@ + bool_text(value)),
{
    let mut line = String::from_str(label);
    append_bool(&mut line, value);
    lines.push(line);
    assert(texts(lines@) =~= texts(old(lines)@).push(label@ + bool_text(value)));
}

/// Appends the line `text` to `lines`.
fn push_line(lines: &mut Vec<String>, text: String)
    ensures
        texts(final(lines)@) == texts(old(lines)@).push(text@),
{
    lines.push(text);
    assert(texts(lines@) =~= texts(old(lines)@).push(text@));
}

/// Appends the lines that report the command word to `lines`.
fn push_control_lines(lines: &mut Vec<String>, control: u16)
    ensures
        texts(final(lines)@) == with_control_lines(texts(old(lines)@), control),
{
    push_bit_line(lines, "I/O space: ", bit(control, 0));
    push_bit_line(lines, "MemSpace: ", bit(control, 1));
    push_bit_line(lines, "BusMaster: ", bit(control, 2));
    push_bit_line(lines, "SpecCycle: ", bit(control, 3));
    push_bit_line(lines, "memory WInv: ", bit(control, 4));
    push_bit_line(lines, "VGASnoop: ", bit(control, 5));
    push_bit_line(lines, "ParErr: ", bit(control, 6));
    push_bit_line(lines, "SERR#: ", bit(control, 8));
    push_bit_line(lines, "FastB2B: ", bit(control, 9));
    push_bit_line(lines, "IntOff: ", bit(control, 10));
}

/// Renders the command word as one line for each named bit.
pub fn pci_control(control: u16) -> (lines: Vec<String>)
    ensures
        texts(lines@) == control_lines(control),
{
    let mut lines: Vec<String> = Vec::new();
    assert(texts(lines@) =~= Seq::<Seq<char>>::empty());
    push_control_lines(&mut lines, control);
    lines
}

/// The lines that report a header's capability pointer, command word,
/// status word and interrupt routing.
pub open spec fn header_lines(hdr: PCICommonHeader) -> Seq<Seq<char>> {
    with_control_lines(
        Seq::<Seq<char>>::empty().push(
            "Cap ptr: "@ + hex_text(hdr.capabilities_pointer as nat),
        ).push("== Command Register =="@),
        hdr.command,
    ).push("== Status Register =="@).push(status_text(hdr.status)).push(
        "intr: line "@ + decimal_text(hdr.interrupt_line as nat) + " pin "@ + decimal_text(
            hdr.interrupt_pin as nat,
        ),
    )
}

/// Renders the capability pointer, the command and status words and the
/// interrupt routing of `hdr`.
pub fn command_and_status_registers(hdr: &PCICommonHeader) -> (lines: Vec<String>)
    ensures
        texts(lines@) == header_lines(*hdr),
{
    let mut lines: Vec<String> = Vec::new();
    assert(texts(lines@) =~= Seq::<Seq<char>>::empty());
    let mut pointer = String::from_str("Cap ptr: ");
    append_hex(&mut pointer, hdr.capabilities_pointer as u64);
    push_line(&mut lines, pointer);
    push_line(&mut lines, String::from_str("== Command Register =="));
    push_control_lines(&mut lines, hdr.command);
    push_line(&mut lines, String::from_str("== Status Register =="));
    push_line(&mut lines, pci_status(hdr.status));
    let mut routing = String::from_str("intr: line ");
    append_decimal(&mut routing, hdr.interrupt_line as u64);
    routing.append(" pin ");
    append_decimal(&mut routing, hdr.interrupt_pin as u64);
    push_line(&mut lines, routing);
    lines
}

/// The line that names a function: vendor and device, subsystem vendor
/// and subsystem, class, subclass and programming interface, revision
/// and header type, all in hexadecimal.
pub open spec fn header_text(hdr: PCICommonHeader) -> Seq<char> {
    hex_text(hdr.vendor_id as nat) + ":"@ + hex_text(hdr.device_id as nat) + " "@ + hex_text(
        hdr.subsystem_vendor_id as nat,
    ) + ":"@ + hex_text(hdr.subsystem_id as nat) + " "@ + hex_text(hdr.base_class as nat) + ":"@
        + hex_text(hdr.subclass as nat) + ":"@ + hex_text(hdr.prog_if as nat) + " (rev "@
        + hex_text(hdr.revision_id as nat) + ") header type "@ + hex_text(hdr.header_type as nat)
}

impl PCICommonHeader {
    /// The line that names this function.
    pub fn to_string(&self) -> (line: String)
        ensures
            line@ == header_text(*self),
    {
        let mut line = String::new();
        append_hex(&mut line, self.vendor_id as u64);
        assert(line@ =~= hex_text(self.vendor_id as nat));
        line.append(":");
        append_hex(&mut line, self.device_id as u64);
        line.append(" ");
        append_hex(&mut line, self.subsystem_vendor_id as u64);
        line.append(":");
        append_hex(&mut line, self.subsystem_id as u64);
        line.append(" ");
        append_hex(&mut line, self.base_class as u64);
        line.append(":");
        append_hex(&mut line, self.subclass as u64);
        line.append(":");
        append_hex(&mut line, self.prog_if as u64);
        line.append(" (rev ");
        append_hex(&mut line, self.revision_id as u64);
        line.append(") header type ");
        append_hex(&mut line, self.header_type as u64);
        line
    }
}

/// The lines that name function 0 of each device that answers, over the
/// devices numbered below `count`: device `n` is device `n % 32` of bus
/// `n / 32`.
pub open spec fn brute_force_lines(space: &ConfigSpace, count: nat) -> Seq<Seq<char>>
    decreases count,
{
    if count == 0 {
        Seq::empty()
    } else {
        let number = (count - 1) as nat;
        let tuple = ((number / 32) as u8, (number % 32) as u8, 0u8);
        let before = brute_force_lines(space, number);
        if function_present(space, tuple) {
            before.push(header_text(header_at(space, tuple)))
        } else {
            before
        }
    }
}

/// Names function 0 of every device of every bus that answers, bus by
/// bus and device by device, without following bridges.
pub fn pci_brute_force_scan(space: &ConfigSpace) -> (lines: Vec<String>)
    ensures
        texts(lines@) == brute_force_lines(space, 256 * 32),
{
    let mut lines: Vec<String> = Vec::new();
    assert(texts(lines@) =~= brute_force_lines(space, 0));
    let mut number: u32 = 0;
    while number < 256 * 32
        invariant
            number <= 256 * 32,
            texts(lines@) == brute_force_lines(space, number as nat),
        decreases 256 * 32 - number,
    {
        let bus = (number / 32) as u8;
        let device = (number % 32) as u8;
        let dev = PCICommonHeader::from(space, bus, device, 0);
        if let Some(dev) = dev {
            push_line(&mut lines, dev.to_string());
        }
        number += 1;
    }
    lines
}

} // verus!
