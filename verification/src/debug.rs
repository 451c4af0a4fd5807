//! The debug output of the native API: which messages are reported, and how
//! a message reads.

use std::cmp::Ordering;
use vstd::prelude::*;
use vstd::std_specs::cmp::PartialOrdSpecImpl;
use vstd::string::*;

verus! {

pub const GL_DEBUG_SOURCE_API: u32 = 0x8246;

pub const GL_DEBUG_SOURCE_WINDOW_SYSTEM: u32 = 0x8247;

pub const GL_DEBUG_SOURCE_SHADER_COMPILER: u32 = 0x8248;

pub const GL_DEBUG_SOURCE_THIRD_PARTY: u32 = 0x8249;

pub const GL_DEBUG_SOURCE_APPLICATION: u32 = 0x824A;

pub const GL_DEBUG_SOURCE_OTHER: u32 = 0x824B;

pub const GL_DEBUG_TYPE_ERROR: u32 = 0x824C;

pub const GL_DEBUG_TYPE_DEPRECATED_BEHAVIOR: u32 = 0x824D;

pub const GL_DEBUG_TYPE_UNDEFINED_BEHAVIOR: u32 = 0x824E;

pub const GL_DEBUG_TYPE_PORTABILITY: u32 = 0x824F;

pub const GL_DEBUG_TYPE_PERFORMANCE: u32 = 0x8250;

pub const GL_DEBUG_TYPE_OTHER: u32 = 0x8251;

pub const GL_DEBUG_TYPE_MARKER: u32 = 0x8268;

pub const GL_DEBUG_TYPE_PUSH_GROUP: u32 = 0x8269;

pub const GL_DEBUG_TYPE_POP_GROUP: u32 = 0x826A;

pub const GL_DEBUG_SEVERITY_NOTIFICATION: u32 = 0x826B;

pub const GL_DEBUG_SEVERITY_HIGH: u32 = 0x9146;

pub const GL_DEBUG_SEVERITY_MEDIUM: u32 = 0x9147;

pub const GL_DEBUG_SEVERITY_LOW: u32 = 0x9148;

/// The bit of a context's flags that marks a debug context.
pub const GL_CONTEXT_FLAG_DEBUG_BIT: u32 = 0x0000_0002;

/// The least severity that is reported.  The levels are ordered by urgency:
/// `All` lies below every severity, `DEBUG_SEVERITY_HIGH` above all others.
#[allow(non_camel_case_types)]
#[derive(Clone, Copy, Debug, PartialEq, Eq, Structural)]
pub enum GLErrorSeverityLogLevel {
    DEBUG_SEVERITY_HIGH,
    DEBUG_SEVERITY_MEDIUM,
    DEBUG_SEVERITY_LOW,
    DEBUG_SEVERITY_NOTIFICATION,
    All,
}

impl GLErrorSeverityLogLevel {
    /// The place of a level in the order of urgency, from 1 for `All` to 5
    /// for `DEBUG_SEVERITY_HIGH`.
    pub open spec fn rank(self) -> int {
        match self {
            GLErrorSeverityLogLevel::DEBUG_SEVERITY_HIGH => 5,
            GLErrorSeverityLogLevel::DEBUG_SEVERITY_MEDIUM => 4,
            GLErrorSeverityLogLevel::DEBUG_SEVERITY_LOW => 3,
            GLErrorSeverityLogLevel::DEBUG_SEVERITY_NOTIFICATION => 2,
            GLErrorSeverityLogLevel::All => 1,
        }
    }

    /// The level of a severity of the native API.
    pub open spec fn of_severity(gl: u32) -> GLErrorSeverityLogLevel {
        if gl == GL_DEBUG_SEVERITY_HIGH {
            GLErrorSeverityLogLevel::DEBUG_SEVERITY_HIGH
        } else if gl == GL_DEBUG_SEVERITY_MEDIUM {
            GLErrorSeverityLogLevel::DEBUG_SEVERITY_MEDIUM
        } else if gl == GL_DEBUG_SEVERITY_LOW {
            GLErrorSeverityLogLevel::DEBUG_SEVERITY_LOW
        } else if gl == GL_DEBUG_SEVERITY_NOTIFICATION {
            GLErrorSeverityLogLevel::DEBUG_SEVERITY_NOTIFICATION
        } else {
            GLErrorSeverityLogLevel::All
        }
    }

    /// The place of the level in the order of urgency.
    pub fn level(&self) -> (r: u8)
        ensures
            r == self.rank(),
    {
        match self {
            GLErrorSeverityLogLevel::DEBUG_SEVERITY_HIGH => 5,
            GLErrorSeverityLogLevel::DEBUG_SEVERITY_MEDIUM => 4,
            GLErrorSeverityLogLevel::DEBUG_SEVERITY_LOW => 3,
            GLErrorSeverityLogLevel::DEBUG_SEVERITY_NOTIFICATION => 2,
            GLErrorSeverityLogLevel::All => 1,
        }
    }

    /// The level of a severity of the native API; `All` for a value that is
    /// none.
    pub fn from_gl(gl: u32) -> (r: GLErrorSeverityLogLevel)
        ensures
            r == Self::of_severity(gl),
    {
        if gl == GL_DEBUG_SEVERITY_HIGH {
            GLErrorSeverityLogLevel::DEBUG_SEVERITY_HIGH
        } else if gl == GL_DEBUG_SEVERITY_MEDIUM {
            GLErrorSeverityLogLevel::DEBUG_SEVERITY_MEDIUM
        } else if gl == GL_DEBUG_SEVERITY_LOW {
            GLErrorSeverityLogLevel::DEBUG_SEVERITY_LOW
        } else if gl == GL_DEBUG_SEVERITY_NOTIFICATION {
            GLErrorSeverityLogLevel::DEBUG_SEVERITY_NOTIFICATION
        } else {
            GLErrorSeverityLogLevel::All
        }
    }
}

impl PartialOrd for GLErrorSeverityLogLevel {
    fn partial_cmp(&self, other: &Self) -> (r: Option<Ordering>) {
        let mine = self.level();
        let theirs = other.level();
        if mine < theirs {
            Some(Ordering::Less)
        } else if mine > theirs {
            Some(Ordering::Greater)
        } else {
            Some(Ordering::Equal)
        }
    }
}

impl PartialOrdSpecImpl for GLErrorSeverityLogLevel {
    open spec fn obeys_partial_cmp_spec() -> bool {
        true
    }

    open spec fn partial_cmp_spec(&self, other: &Self) -> Option<Ordering> {
        if self.rank() < other.rank() {
            Some(Ordering::Less)
        } else if self.rank() > other.rank() {
            Some(Ordering::Greater)
        } else {
            Some(Ordering::Equal)
        }
    }
}

/// Whether a context with these flags is no debug context, so that debug
/// output has to be switched on by hand.
pub fn lacks_debug_bit(context_flags: u32) -> (r: bool)
    ensures
        r == (context_flags & GL_CONTEXT_FLAG_DEBUG_BIT == 0),
{
    context_flags & GL_CONTEXT_FLAG_DEBUG_BIT == 0
}

/// In words, where a message comes from; a fixed text for a value that the
/// API does not define.
pub open spec fn source_name(value: u32) -> Seq<char> {
    if value == GL_DEBUG_SOURCE_API {
        "DEBUG_SOURCE_API"@
    } else if value == GL_DEBUG_SOURCE_APPLICATION {
        "DEBUG_SOURCE_APPLICATION"@
    } else if value == GL_DEBUG_SOURCE_OTHER {
        "DEBUG_SOURCE_OTHER"@
    } else if value == GL_DEBUG_SOURCE_SHADER_COMPILER {
        "DEBUG_SOURCE_SHADER_COMPILER"@
    } else if value == GL_DEBUG_SOURCE_THIRD_PARTY {
        "DEBUG_SOURCE_THIRD_PARTY"@
    } else if value == GL_DEBUG_SOURCE_WINDOW_SYSTEM {
        "DEBUG_SOURCE_WINDOW_SYSTEM"@
    } else {
        "Unknown source"@
    }
}

/// In words, where a message comes from.
pub fn get_source_name(value: u32) -> (r: &'static str)
    ensures
        r@ == source_name(value),
{
    if value == GL_DEBUG_SOURCE_API {
        "DEBUG_SOURCE_API"
    } else if value == GL_DEBUG_SOURCE_APPLICATION {
        "DEBUG_SOURCE_APPLICATION"
    } else if value == GL_DEBUG_SOURCE_OTHER {
        "DEBUG_SOURCE_OTHER"
    } else if value == GL_DEBUG_SOURCE_SHADER_COMPILER {
        "DEBUG_SOURCE_SHADER_COMPILER"
    } else if value == GL_DEBUG_SOURCE_THIRD_PARTY {
        "DEBUG_SOURCE_THIRD_PARTY"
    } else if value == GL_DEBUG_SOURCE_WINDOW_SYSTEM {
        "DEBUG_SOURCE_WINDOW_SYSTEM"
    } else {
        "Unknown source"
    }
}

/// In words, how urgent a message is; a fixed text for a value that the API
/// does not define.
pub open spec fn severity_name(value: u32) -> Seq<char> {
    if value == GL_DEBUG_SEVERITY_HIGH {
        "HIGH"@
    } else if value == GL_DEBUG_SEVERITY_MEDIUM {
        "MEDIUM"@
    } else if value == GL_DEBUG_SEVERITY_LOW {
        "LOW"@
    } else if value == GL_DEBUG_SEVERITY_NOTIFICATION {
        "NOTIFICATION"@
    } else {
        "Unknown severity"@
    }
}

/// In words, how urgent a message is.
pub fn get_severity_name(value: u32) -> (r: &'static str)
    ensures
        r@ == severity_name(value),
{
    if value == GL_DEBUG_SEVERITY_HIGH {
        "HIGH"
    } else if value == GL_DEBUG_SEVERITY_MEDIUM {
        "MEDIUM"
    } else if value == GL_DEBUG_SEVERITY_LOW {
        "LOW"
    } else if value == GL_DEBUG_SEVERITY_NOTIFICATION {
        "NOTIFICATION"
    } else {
        "Unknown severity"
    }
}

/// In words, what kind of message it is; a fixed text for a value that the
/// API does not define.
pub open spec fn kind_name(value: u32) -> Seq<char> {
    if value == GL_DEBUG_TYPE_DEPRECATED_BEHAVIOR {
        "DEBUG_TYPE_DEPRECATED_BEHAVIOR"@
    } else if value == GL_DEBUG_TYPE_ERROR {
        "DEBUG_TYPE_ERROR"@
    } else if value == GL_DEBUG_TYPE_MARKER {
        "DEBUG_TYPE_MARKER"@
    } else if value == GL_DEBUG_TYPE_OTHER {
        "DEBUG_TYPE_OTHER"@
    } else if value == GL_DEBUG_TYPE_PERFORMANCE {
        "DEBUG_TYPE_PERFORMANCE"@
    } else if value == GL_DEBUG_TYPE_POP_GROUP {
        "DEBUG_TYPE_POP_GROUP"@
    } else if value == GL_DEBUG_TYPE_PORTABILITY {
        "DEBUG_TYPE_PORTABILITY"@
    } else if value == GL_DEBUG_TYPE_PUSH_GROUP {
        "DEBUG_TYPE_PUSH_GROUP"@
    } else if value == GL_DEBUG_TYPE_UNDEFINED_BEHAVIOR {
        "DEBUG_TYPE_UNDEFINED_BEHAVIOR"@
    } else {
        "Unknown error type"@
    }
}

/// In words, what kind of message it is.
pub fn get_kind_name(value: u32) -> (r: &'static str)
    ensures
        r@ == kind_name(value),
{
    if value == GL_DEBUG_TYPE_DEPRECATED_BEHAVIOR {
        "DEBUG_TYPE_DEPRECATED_BEHAVIOR"
    } else if value == GL_DEBUG_TYPE_ERROR {
        "DEBUG_TYPE_ERROR"
    } else if value == GL_DEBUG_TYPE_MARKER {
        "DEBUG_TYPE_MARKER"
    } else if value == GL_DEBUG_TYPE_OTHER {
        "DEBUG_TYPE_OTHER"
    } else if value == GL_DEBUG_TYPE_PERFORMANCE {
        "DEBUG_TYPE_PERFORMANCE"
    } else if value == GL_DEBUG_TYPE_POP_GROUP {
        "DEBUG_TYPE_POP_GROUP"
    } else if value == GL_DEBUG_TYPE_PORTABILITY {
        "DEBUG_TYPE_PORTABILITY"
    } else if value == GL_DEBUG_TYPE_PUSH_GROUP {
        "DEBUG_TYPE_PUSH_GROUP"
    } else if value == GL_DEBUG_TYPE_UNDEFINED_BEHAVIOR {
        "DEBUG_TYPE_UNDEFINED_BEHAVIOR"
    } else {
        "Unknown error type"
    }
}

/// The digits of base sixteen, in their order.
pub const HEX_DIGITS: &'static str = "0123456789ABCDEF";

/// The digit for `n` in base sixteen, capital letters above nine.
pub open spec fn hex_digit(n: int) -> char
    recommends
        0 <= n < 16,
{
    HEX_DIGITS@[n]
}

fn hex_digit_text(n: u32) -> (r: &'static str)
    requires
        n < 16,
    ensures
        r@ == seq![hex_digit(n as int)],
{
    proof {
        reveal_strlit("0123456789ABCDEF");
    }
    let r = HEX_DIGITS.substring_char(n as usize, n as usize + 1);
    proof {
        assert(r@ =~= seq![hex_digit(n as int)]);
    }
    r
}

/// The last `places` digits of `value` in base sixteen, most significant
/// first, with leading zeros.
pub open spec fn hex_digits(value: int, places: nat) -> Seq<char>
    decreases places,
{
    if places == 0 {
        Seq::empty()
    } else {
        hex_digits(value / 16, (places - 1) as nat).push(hex_digit(value % 16))
    }
}

fn get_hex_digits(value: u32, places: u8) -> (r: String)
    ensures
        r@ == hex_digits(value as int, places as nat),
    decreases places,
{
    if places == 0 {
        String::new()
    } else {
        let mut r = get_hex_digits(value / 16, places - 1);
        r.append(hex_digit_text(value % 16));
        proof {
            assert(r@ =~= hex_digits(value as int, places as nat));
        }
        r
    }
}

pub const HEX_PREFIX: &'static str = "0x";

/// A message's number as it is printed: `0x` and eight digits in base
/// sixteen.
pub open spec fn id_text(id: u32) -> Seq<char> {
    HEX_PREFIX@ + hex_digits(id as int, 8)
}

/// A message's number as it is printed.
pub fn get_id_text(id: u32) -> (r: String)
    ensures
        r@ == id_text(id),
{
    let mut r = String::new();
    r.append(HEX_PREFIX);
    r.append(get_hex_digits(id, 8).as_str());
    proof {
        assert(r@ =~= id_text(id));
    }
    r
}

pub const MESSAGE_HEAD: &'static str = "OpenGL Debug Message\n  Severity : ";

pub const MESSAGE_SOURCE: &'static str = "\n  Source   : ";

pub const MESSAGE_ID: &'static str = "\n  ID       : ";

pub const MESSAGE_TYPE: &'static str = "\n  GLType   : ";

pub const MESSAGE_BODY: &'static str = "\n  Message  : ";

/// What stands for a message whose text cannot be read.
pub const UNREADABLE_MESSAGE: &'static str = "Failed to read debug message";

/// Whether a message of the native severity `severity` is reported at the
/// level `log_level`: its own level is not below that one.
pub open spec fn is_reported(severity: u32, log_level: GLErrorSeverityLogLevel) -> bool {
    GLErrorSeverityLogLevel::of_severity(severity).rank() >= log_level.rank()
}

/// A debug message as it is reported.
pub open spec fn debug_message_text(
    source: u32,
    gltype: u32,
    id: u32,
    severity: u32,
    message: Option<Seq<char>>,
) -> Seq<char> {
    MESSAGE_HEAD@ + severity_name(severity) + MESSAGE_SOURCE@ + source_name(source) + MESSAGE_ID@
        + id_text(id) + MESSAGE_TYPE@ + kind_name(gltype) + MESSAGE_BODY@ + (match message {
        Some(text) => text,
        None => UNREADABLE_MESSAGE@,
    })
}

/// The report of a debug message, or none where its severity lies below
/// `log_level`.  `message` is none where its text cannot be read.
pub fn debug_message(
    source: u32,
    gltype: u32,
    id: u32,
    severity: u32,
    message: Option<&str>,
    log_level: GLErrorSeverityLogLevel,
) -> (r: Option<String>)
    ensures
        match r {
            Some(text) => is_reported(severity, log_level) && text@ == debug_message_text(
                source,
                gltype,
                id,
                severity,
                match message {
                    Some(m) => Some(m@),
                    None => None,
                },
            ),
            None => !is_reported(severity, log_level),
        },
{
    if GLErrorSeverityLogLevel::from_gl(severity) < log_level {
        return None;
    }
    let mut r = String::new();
    r.append(MESSAGE_HEAD);
    r.append(get_severity_name(severity));
    r.append(MESSAGE_SOURCE);
    r.append(get_source_name(source));
    r.append(MESSAGE_ID);
    r.append(get_id_text(id).as_str());
    r.append(MESSAGE_TYPE);
    r.append(get_kind_name(gltype));
    r.append(MESSAGE_BODY);
    match message {
        Some(text) => r.append(text),
        None => r.append(UNREADABLE_MESSAGE),
    }
    proof {
        assert(r@ =~= debug_message_text(
            source,
            gltype,
            id,
            severity,
            match message {
                Some(m) => Some(m@),
                None => None,
            },
        ));
    }
    Some(r)
}

} // verus!
