//! Decoding of the messages the OpenGL driver reports through its debug
//! output: which are shown, how they are worded and at what level.

use vstd::prelude::*;

use crate::graphics::gl_enums::{
    GL_DEBUG_SEVERITY_HIGH, GL_DEBUG_SEVERITY_LOW, GL_DEBUG_SEVERITY_MEDIUM,
    GL_DEBUG_SEVERITY_NOTIFICATION, GL_DEBUG_TYPE_DEPRECATED_BEHAVIOR, GL_DEBUG_TYPE_ERROR,
    GL_DEBUG_TYPE_MARKER, GL_DEBUG_TYPE_OTHER, GL_DEBUG_TYPE_PERFORMANCE, GL_DEBUG_TYPE_POP_GROUP,
    GL_DEBUG_TYPE_PORTABILITY, GL_DEBUG_TYPE_PUSH_GROUP, GL_DEBUG_TYPE_UNDEFINED_BEHAVIOR,
    GL_NO_ERROR,
};

verus! {

/// The upper-case hexadecimal digit of `d` (below 16).
pub open spec fn hex_digit(d: nat) -> char {
    if d < 10 {
        (('0' as u32) + d) as char
    } else {
        (('A' as u32) + (d - 10)) as char
    }
}

/// `n` in upper-case hexadecimal, without leading zeros.
pub open spec fn spec_hex(n: nat) -> Seq<char>
    decreases n,
{
    if n < 16 {
        seq![hex_digit(n)]
    } else {
        spec_hex(n / 16) + seq![hex_digit(n % 16)]
    }
}

fn hex_digit_str(d: u32) -> (r: &'static str)
    requires
        d < 16,
    ensures
        r@ == seq![hex_digit(d as nat)],
{
    proof {
        reveal_strlit("0");
        reveal_strlit("1");
        reveal_strlit("2");
        reveal_strlit("3");
        reveal_strlit("4");
        reveal_strlit("5");
        reveal_strlit("6");
        reveal_strlit("7");
        reveal_strlit("8");
        reveal_strlit("9");
        reveal_strlit("A");
        reveal_strlit("B");
        reveal_strlit("C");
        reveal_strlit("D");
        reveal_strlit("E");
        reveal_strlit("F");
    }
    let r = match d {
        0 => "0",
        1 => "1",
        2 => "2",
        3 => "3",
        4 => "4",
        5 => "5",
        6 => "6",
        7 => "7",
        8 => "8",
        9 => "9",
        10 => "A",
        11 => "B",
        12 => "C",
        13 => "D",
        14 => "E",
        _ => "F",
    };
    assert(r@ =~= seq![hex_digit(d as nat)]);
    r
}

/// Appends `n` in upper-case hexadecimal to `s`.
pub fn append_hex(s: &mut String, n: u32)
    ensures
        final(s)@ == old(s)@ + spec_hex(n as nat),
    decreases n,
{
    if n >= 16 {
        append_hex(s, n / 16);
    }
    s.append(hex_digit_str(n % 16));
    if n >= 16 {
        assert(s@ =~= old(s)@ + spec_hex(n as nat));
    } else {
        assert(s@ =~= old(s)@ + spec_hex(n as nat));
    }
}

/// The line naming the kind of a debug message; other kinds read as errors.
pub open spec fn spec_type_line(e_type: u32) -> Seq<char> {
    if e_type == GL_DEBUG_TYPE_DEPRECATED_BEHAVIOR {
        "\nType =>\t\t Deprecated behavior;"@
    } else if e_type == GL_DEBUG_TYPE_UNDEFINED_BEHAVIOR {
        "\nType =>\t\t Undefined behavior;"@
    } else if e_type == GL_DEBUG_TYPE_PORTABILITY {
        "\nType =>\t\t Portability;"@
    } else if e_type == GL_DEBUG_TYPE_MARKER {
        "\nType =>\t\t Marker;"@
    } else if e_type == GL_DEBUG_TYPE_PUSH_GROUP {
        "\nType =>\t\t Push group;"@
    } else if e_type == GL_DEBUG_TYPE_POP_GROUP {
        "\nType =>\t\t Pop group;"@
    } else {
        "\nType =>\t\t Error;"@
    }
}

/// The line naming the severity of a debug message.
pub open spec fn spec_severity_line(severity: u32) -> Seq<char> {
    if severity == GL_DEBUG_SEVERITY_HIGH {
        "\nSeverity =>\t High (Fatal);"@
    } else if severity == GL_DEBUG_SEVERITY_MEDIUM {
        "\nSeverity =>\t Medium;"@
    } else if severity == GL_DEBUG_SEVERITY_LOW {
        "\nSeverity =>\t Low;"@
    } else if severity == GL_DEBUG_SEVERITY_NOTIFICATION {
        "\nSeverity =>\t Info;"@
    } else {
        "\nSeverity =>\t Unknown;"@
    }
}

/// Whether a debug message is shown at all: not when there is no error, nor
/// for performance notes and messages of other kinds.
pub open spec fn spec_debug_shown(error_code: u32, e_type: u32) -> bool {
    error_code != GL_NO_ERROR && e_type != GL_DEBUG_TYPE_PERFORMANCE && e_type != GL_DEBUG_TYPE_OTHER
}

/// The text shown for a debug message.
pub open spec fn spec_debug_text(error_code: u32, e_type: u32, severity: u32, message: Seq<char>) -> Seq<char> {
    "\nCode =>\t\t 0x"@ + spec_hex(error_code as nat) + ";"@ + spec_type_line(e_type) + spec_severity_line(
        severity,
    ) + "\nMessage =>\t "@ + message + "\n"@
}

fn type_line(e_type: u32) -> (r: &'static str)
    ensures
        r@ == spec_type_line(e_type),
{
    if e_type == GL_DEBUG_TYPE_DEPRECATED_BEHAVIOR {
        "\nType =>\t\t Deprecated behavior;"
    } else if e_type == GL_DEBUG_TYPE_UNDEFINED_BEHAVIOR {
        "\nType =>\t\t Undefined behavior;"
    } else if e_type == GL_DEBUG_TYPE_PORTABILITY {
        "\nType =>\t\t Portability;"
    } else if e_type == GL_DEBUG_TYPE_MARKER {
        "\nType =>\t\t Marker;"
    } else if e_type == GL_DEBUG_TYPE_PUSH_GROUP {
        "\nType =>\t\t Push group;"
    } else if e_type == GL_DEBUG_TYPE_POP_GROUP {
        "\nType =>\t\t Pop group;"
    } else {
        "\nType =>\t\t Error;"
    }
}

fn severity_line(severity: u32) -> (r: &'static str)
    ensures
        r@ == spec_severity_line(severity),
{
    if severity == GL_DEBUG_SEVERITY_HIGH {
        "\nSeverity =>\t High (Fatal);"
    } else if severity == GL_DEBUG_SEVERITY_MEDIUM {
        "\nSeverity =>\t Medium;"
    } else if severity == GL_DEBUG_SEVERITY_LOW {
        "\nSeverity =>\t Low;"
    } else if severity == GL_DEBUG_SEVERITY_NOTIFICATION {
        "\nSeverity =>\t Info;"
    } else {
        "\nSeverity =>\t Unknown;"
    }
}

/// The text to show for a message of the driver's debug output, or `None`
/// when it is not shown (no error, a performance note, or another kind).
pub fn describe_debug_message(error_code: u32, e_type: u32, severity: u32, message: &str) -> (r: Option<String>)
    ensures
        spec_debug_shown(error_code, e_type) ==> (r matches Some(s) && s@ == spec_debug_text(
            error_code,
            e_type,
            severity,
            message@,
        )),
        !spec_debug_shown(error_code, e_type) ==> r is None,
{
    if error_code == GL_NO_ERROR || e_type == GL_DEBUG_TYPE_PERFORMANCE || e_type == GL_DEBUG_TYPE_OTHER {
        return None;
    }
    let mut s = String::from_str("\nCode =>\t\t 0x");
    append_hex(&mut s, error_code);
    s.append(";");
    s.append(type_line(e_type));
    s.append(severity_line(severity));
    s.append("\nMessage =>\t ");
    s.append(message);
    s.append("\n");
    Some(s)
}

/// The level at which a debug message is logged.
#[derive(Debug, Copy, Clone, PartialEq, Eq, Structural, Hash)]
pub enum EnumDebugLevel {
    Error,
    Warn,
    Info,
}

/// High and unknown severities are errors, medium and low warnings,
/// notifications information.
pub fn debug_level(severity: u32) -> (r: EnumDebugLevel)
    ensures
        r == (if severity == GL_DEBUG_SEVERITY_MEDIUM || severity == GL_DEBUG_SEVERITY_LOW {
            EnumDebugLevel::Warn
        } else if severity == GL_DEBUG_SEVERITY_NOTIFICATION {
            EnumDebugLevel::Info
        } else {
            EnumDebugLevel::Error
        }),
{
    if severity == GL_DEBUG_SEVERITY_MEDIUM || severity == GL_DEBUG_SEVERITY_LOW {
        EnumDebugLevel::Warn
    } else if severity == GL_DEBUG_SEVERITY_NOTIFICATION {
        EnumDebugLevel::Info
    } else {
        EnumDebugLevel::Error
    }
}

/// A message of high severity is reported as a fatal driver error.
pub fn is_fatal_severity(severity: u32) -> (r: bool)
    ensures
        r == (severity == GL_DEBUG_SEVERITY_HIGH),
{
    severity == GL_DEBUG_SEVERITY_HIGH
}

} // verus!
