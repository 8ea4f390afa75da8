//! OpenGL error reports and the byte sizes of OpenGL scalar types.
use vstd::prelude::*;
use crate::gl_enums;
use crate::string_utils::{dec, push_decimal};
use vstd::string::StringExecFns;

verus! {

/// The name of the OpenGL error `code`.
pub open spec fn error_name(code: u32) -> Seq<char> {
    if code == gl_enums::INVALID_ENUM {
        "INVALID_ENUM"@
    } else if code == gl_enums::INVALID_VALUE {
        "INVALID_VALUE"@
    } else if code == gl_enums::INVALID_OPERATION {
        "INVALID_OPERATION"@
    } else if code == gl_enums::INVALID_FRAMEBUFFER_OPERATION {
        "INVALID_FRAMEBUFFER_OPERATION"@
    } else if code == gl_enums::STACK_OVERFLOW {
        "STACK_OVERFLOW"@
    } else if code == gl_enums::STACK_UNDERFLOW {
        "STACK_UNDERFLOW"@
    } else if code == gl_enums::OUT_OF_MEMORY {
        "OUT_OF_MEMORY"@
    } else {
        "UNKNOWN_ERROR"@
    }
}

/// One line of an error report: `OpenGL error [<code>]: <name>`.
pub open spec fn error_entry(code: u32) -> Seq<char> {
    "OpenGL error ["@ + dec(code as nat) + "]: "@ + error_name(code)
}

/// The entries of `codes`, in order, separated by `, `.
pub open spec fn error_report(codes: Seq<u32>) -> Seq<char>
    decreases codes.len(),
{
    if codes.len() == 0 {
        Seq::empty()
    } else if codes.len() == 1 {
        error_entry(codes[0])
    } else {
        error_report(codes.drop_last()) + ", "@ + error_entry(codes.last())
    }
}

/// The name of the OpenGL error `code`.
pub fn gl_error_name(code: u32) -> (r: &'static str)
    ensures
        r@ == error_name(code),
{
    if code == gl_enums::INVALID_ENUM {
        "INVALID_ENUM"
    } else if code == gl_enums::INVALID_VALUE {
        "INVALID_VALUE"
    } else if code == gl_enums::INVALID_OPERATION {
        "INVALID_OPERATION"
    } else if code == gl_enums::INVALID_FRAMEBUFFER_OPERATION {
        "INVALID_FRAMEBUFFER_OPERATION"
    } else if code == gl_enums::STACK_OVERFLOW {
        "STACK_OVERFLOW"
    } else if code == gl_enums::STACK_UNDERFLOW {
        "STACK_UNDERFLOW"
    } else if code == gl_enums::OUT_OF_MEMORY {
        "OUT_OF_MEMORY"
    } else {
        "UNKNOWN_ERROR"
    }
}

fn push_error_entry(s: &mut String, code: u32)
    ensures
        final(s)@ == old(s)@ + error_entry(code),
{
    s.append("OpenGL error [");
    push_decimal(s, code as u128);
    s.append("]: ");
    s.append(gl_error_name(code));
    assert(final(s)@ =~= old(s)@ + error_entry(code));
}

/// Judges the errors that OpenGL reported, in the order it reported them
/// (the codes read before it answered `NO_ERROR`): none is success, any
/// gives a report that names each of them.
pub fn check_gl_error(error_codes: &[u32]) -> (r: Result<(), String>)
    ensures
        r is Ok <==> error_codes@.len() == 0,
        r matches Err(m) ==> m@ == error_report(error_codes@),
{
    if error_codes.len() == 0 {
        return Ok(());
    }
    let mut report = String::new();
    push_error_entry(&mut report, error_codes[0]);
    let mut i: usize = 1;
    assert(error_codes@.subrange(0, 1).drop_last() =~= Seq::<u32>::empty());
    while i < error_codes.len()
        invariant
            1 <= i <= error_codes@.len(),
            report@ == error_report(error_codes@.subrange(0, i as int)),
        decreases error_codes@.len() - i,
    {
        let ghost before = error_codes@.subrange(0, i as int);
        report.append(", ");
        push_error_entry(&mut report, error_codes[i]);
        assert(error_codes@.subrange(0, i + 1).drop_last() =~= before);
        i = i + 1;
    }
    assert(error_codes@.subrange(0, error_codes@.len() as int) =~= error_codes@);
    Err(report)
}

/// The OpenGL scalar types whose size is known here.
pub open spec fn sized_type(data_type: u32) -> bool {
    data_type == gl_enums::BYTE || data_type == gl_enums::UNSIGNED_BYTE || data_type == gl_enums::SHORT
        || data_type == gl_enums::UNSIGNED_SHORT || data_type == gl_enums::INT || data_type
        == gl_enums::UNSIGNED_INT || data_type == gl_enums::FLOAT
}

/// The size in bytes of a value of the OpenGL scalar type `data_type`.
pub fn gl_enum_size(data_type: u32) -> (r: usize)
    requires
        sized_type(data_type),
    ensures
        r == (if data_type == gl_enums::BYTE || data_type == gl_enums::UNSIGNED_BYTE {
            1usize
        } else if data_type == gl_enums::SHORT || data_type == gl_enums::UNSIGNED_SHORT {
            2usize
        } else {
            4usize
        }),
{
    if data_type == gl_enums::BYTE || data_type == gl_enums::UNSIGNED_BYTE {
        1
    } else if data_type == gl_enums::SHORT || data_type == gl_enums::UNSIGNED_SHORT {
        2
    } else {
        4
    }
}

} // verus!
