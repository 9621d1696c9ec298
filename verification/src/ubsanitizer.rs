//! The messages with which undefined behaviour that the sanitizer caught
//! is reported.

use crate::text::{append_decimal, append_hex, decimal_text, hex_text};
use vstd::prelude::*;
use vstd::string::StringExecFns;

verus! {

/// The arithmetic operation that overflowed.
#[derive(Debug, Clone, Copy, PartialEq, Eq, Structural)]
pub enum Overflow {
    Add,
    Sub,
    Mul,
    Divrem,
}

impl Overflow {
    /// The name of the operation.
    pub open spec fn spec_name(&self) -> Seq<char> {
        match *self {
            Overflow::Add => "add"@,
            Overflow::Sub => "sub"@,
            Overflow::Mul => "mul"@,
            Overflow::Divrem => "divrem"@,
        }
    }

    /// The sign of the operation, with a space on both sides.
    pub open spec fn spec_sign(&self) -> Seq<char> {
        match *self {
            Overflow::Add => " + "@,
            Overflow::Sub => " - "@,
            Overflow::Mul => " * "@,
            Overflow::Divrem => " / "@,
        }
    }
}

/// The report of an overflow of `lhs` and `rhs`.
pub open spec fn overflow_text(operation: Overflow, lhs: u64, rhs: u64) -> Seq<char> {
    "KUBSAN: "@ + operation.spec_name() + " overflow: "@ + decimal_text(lhs as nat)
        + operation.spec_sign() + decimal_text(rhs as nat)
}

/// Renders the report of an overflow of `lhs` and `rhs`.
pub fn overflow_message(operation: Overflow, lhs: u64, rhs: u64) -> (message: String)
    ensures
        message@ == overflow_text(operation, lhs, rhs),
{
    let mut message = String::from_str("KUBSAN: ");
    message.append(
        match operation {
            Overflow::Add => "add",
            Overflow::Sub => "sub",
            Overflow::Mul => "mul",
            Overflow::Divrem => "divrem",
        },
    );
    message.append(" overflow: ");
    append_decimal(&mut message, lhs);
    message.append(
        match operation {
            Overflow::Add => " + ",
            Overflow::Sub => " - ",
            Overflow::Mul => " * ",
            Overflow::Divrem => " / ",
        },
    );
    append_decimal(&mut message, rhs);
    message
}

/// The report of pointer arithmetic that went wrong, from the pointer
/// before and after.
pub open spec fn pointer_overflow_text(base: u64, result: u64) -> Seq<char> {
    if base == 0 && result == 0 {
        "KUBSAN: applied zero offset to nullptr"@
    } else if base == 0 {
        "KUBSAN: applied nonzero offset "@ + hex_text(result as nat) + " to nullptr"@
    } else if result == 0 {
        "KUBSAN: applying nonzero offset to non-null pointer "@ + hex_text(base as nat)
            + " produced null pointer"@
    } else {
        "KUBSAN: addition of unsigned offset to "@ + hex_text(base as nat) + " overflowed to "@
            + hex_text(result as nat)
    }
}

/// Renders the report of pointer arithmetic that went wrong.
pub fn pointer_overflow_message(base: u64, result: u64) -> (message: String)
    ensures
        message@ == pointer_overflow_text(base, result),
{
    if base == 0 && result == 0 {
        String::from_str("KUBSAN: applied zero offset to nullptr")
    } else if base == 0 && result != 0 {
        let mut message = String::from_str("KUBSAN: applied nonzero offset ");
        append_hex(&mut message, result);
        message.append(" to nullptr");
        message
    } else if base != 0 && result == 0 {
        let mut message = String::from_str("KUBSAN: applying nonzero offset to non-null pointer ");
        append_hex(&mut message, base);
        message.append(" produced null pointer");
        message
    } else {
        let mut message = String::from_str("KUBSAN: addition of unsigned offset to ");
        append_hex(&mut message, base);
        message.append(" overflowed to ");
        append_hex(&mut message, result);
        message
    }
}

/// Number of kinds of access that a type mismatch can be reported for.
pub const TYPE_CHECK_KINDS: u8 = 12;

/// What was done with a pointer, by the number of the kind of access.
pub open spec fn kind_text(typecheck_kind: u8) -> Seq<char> {
    if typecheck_kind == 0 {
        "load of"@
    } else if typecheck_kind == 1 {
        "store to"@
    } else if typecheck_kind == 2 {
        "reference binding to"@
    } else if typecheck_kind == 3 {
        "member access within"@
    } else if typecheck_kind == 4 {
        "member call on"@
    } else if typecheck_kind == 5 {
        "constructor call on"@
    } else if typecheck_kind == 6 || typecheck_kind == 7 {
        "downcast of"@
    } else if typecheck_kind == 8 {
        "upcast of"@
    } else if typecheck_kind == 9 {
        "cast to virtual base of"@
    } else if typecheck_kind == 10 {
        "_Nonnull binding to"@
    } else {
        "dynamic operation on"@
    }
}

fn kind_name(typecheck_kind: u8) -> (name: &'static str)
    requires
        typecheck_kind < TYPE_CHECK_KINDS,
    ensures
        name@ == kind_text(typecheck_kind),
{
    if typecheck_kind == 0 {
        "load of"
    } else if typecheck_kind == 1 {
        "store to"
    } else if typecheck_kind == 2 {
        "reference binding to"
    } else if typecheck_kind == 3 {
        "member access within"
    } else if typecheck_kind == 4 {
        "member call on"
    } else if typecheck_kind == 5 {
        "constructor call on"
    } else if typecheck_kind == 6 || typecheck_kind == 7 {
        "downcast of"
    } else if typecheck_kind == 8 {
        "upcast of"
    } else if typecheck_kind == 9 {
        "cast to virtual base of"
    } else if typecheck_kind == 10 {
        "_Nonnull binding to"
    } else {
        "dynamic operation on"
    }
}

/// Whether `ptr` is not a multiple of two to the power `log_alignment`.
pub open spec fn misaligned(ptr: u64, log_alignment: u8) -> bool {
    ptr & (((1u64 << log_alignment) - 1) as u64) != 0
}

/// The report of an access through a pointer that does not suit the
/// type: a null pointer, a pointer that is not aligned as the type asks,
/// or one that points to too little space.
pub open spec fn type_mismatch_text(typecheck_kind: u8, log_alignment: u8, ptr: u64) -> Seq<char> {
    if ptr == 0 {
        "KUBSAN: "@ + kind_text(typecheck_kind) + " null pointer"@
    } else if misaligned(ptr, log_alignment) {
        "KUBSAN: "@ + kind_text(typecheck_kind) + " misaligned address "@ + hex_text(ptr as nat)
    } else {
        "KUBSAN: "@ + kind_text(typecheck_kind) + " address "@ + hex_text(ptr as nat)
            + " with insufficient space"@
    }
}

/// Renders the report of an access through a pointer that does not suit
/// the type.
pub fn type_mismatch_message(typecheck_kind: u8, log_alignment: u8, ptr: u64) -> (message: String)
    requires
        typecheck_kind < TYPE_CHECK_KINDS,
        log_alignment < 64,
    ensures
        message@ == type_mismatch_text(typecheck_kind, log_alignment, ptr),
{
    assert((1u64 << log_alignment) >= 1) by (bit_vector)
        requires
            log_alignment < 64,
    ;
    let alignment: u64 = 1u64 << log_alignment;
    let kind = kind_name(typecheck_kind);
    let mut message = String::from_str("KUBSAN: ");
    message.append(kind);
    if ptr == 0 {
        message.append(" null pointer");
    } else if (ptr & (alignment - 1)) != 0 {
        message.append(" misaligned address ");
        append_hex(&mut message, ptr);
    } else {
        message.append(" address ");
        append_hex(&mut message, ptr);
        message.append(" with insufficient space");
    }
    message
}

/// The line that tells at which place in the program the behaviour was
/// caught.
pub open spec fn location_text(filename: Option<Seq<char>>, line: u32, column: u32) -> Seq<char> {
    match filename {
        None => "KUBSAN: in unknown file"@,
        Some(name) => "KUBSAN: at "@ + name + ", line "@ + decimal_text(line as nat)
            + ", _column: "@ + decimal_text(column as nat),
    }
}

/// Renders the line that tells at which place in the program the
/// behaviour was caught. A report with a known file is the last thing the kernel does.
pub fn location_message(filename: Option<&str>, line: u32, column: u32) -> (report: (String, bool))
    ensures
        report.0@ == location_text(
            match filename {
                Some(name) => Some(name@),
                None => None,
            },
            line,
            column,
        ),
        report.1 == filename is Some,
{
    match filename {
        None => (String::from_str("KUBSAN: in unknown file"), false),
        Some(name) => {
            let mut message = String::from_str("KUBSAN: at ");
            message.append(name);
            message.append(", line ");
            append_decimal(&mut message, line as u64);
            message.append(", _column: ");
            append_decimal(&mut message, column as u64);
            (message, true)
        },
    }
}

} // verus!
