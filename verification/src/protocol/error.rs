//! Errors of the Lumi protocol layer, and their messages.
use vstd::prelude::*;

verus! {

/// Why a protocol operation failed.
#[derive(Debug)]
pub enum LmpError {
    /// A URI that does not start with `lumi://`.
    InvalidScheme,
    /// A frame that does not start with the magic bytes `LUMI`.
    InvalidMagic,
    /// A frame of another protocol version.
    UnsupportedVersion(u8),
    /// A transport failure, with its description.
    Io(String),
    /// A header or package that could not be encoded or decoded, with the
    /// reason.
    Serialization(String),
    /// A frame whose header or payload exceeds the limits; it carries the
    /// announced payload length.
    PayloadTooLarge(usize),
    /// A host that the name service does not know.
    LnsResolutionFailed(String),
}

/// The decimal digits of `n`, most significant first.
pub open spec fn decimal(n: nat) -> Seq<char>
    decreases n,
{
    if n < 10 {
        seq![digit_char(n)]
    } else {
        decimal(n / 10).push(digit_char(n % 10))
    }
}

pub open spec fn digit_char(d: nat) -> char {
    if d == 0 {
        '0'
    } else if d == 1 {
        '1'
    } else if d == 2 {
        '2'
    } else if d == 3 {
        '3'
    } else if d == 4 {
        '4'
    } else if d == 5 {
        '5'
    } else if d == 6 {
        '6'
    } else if d == 7 {
        '7'
    } else if d == 8 {
        '8'
    } else {
        '9'
    }
}

fn digit(d: u64) -> (c: char)
    requires
        d < 10,
    ensures
        c == digit_char(d as nat),
{
    if d == 0 {
        '0'
    } else if d == 1 {
        '1'
    } else if d == 2 {
        '2'
    } else if d == 3 {
        '3'
    } else if d == 4 {
        '4'
    } else if d == 5 {
        '5'
    } else if d == 6 {
        '6'
    } else if d == 7 {
        '7'
    } else if d == 8 {
        '8'
    } else {
        '9'
    }
}

/// Appends the decimal digits of `n` to `s`.
pub fn push_decimal(s: &mut String, n: u64)
    ensures
        final(s)@ == old(s)@ + decimal(n as nat),
    decreases n,
{
    if n < 10 {
        crate::text::string_push(s, digit(n));
        assert(decimal(n as nat) =~= seq![digit_char(n as nat)]);
    } else {
        push_decimal(s, n / 10);
        crate::text::string_push(s, digit(n % 10));
        assert(final(s)@ =~= old(s)@ + decimal(n as nat));
    }
}

impl LmpError {
    /// The text that describes the error.
    pub open spec fn spec_message(&self) -> Seq<char> {
        match self {
            LmpError::InvalidScheme => "Invalid scheme in URI. Expected 'lumi://'"@,
            LmpError::InvalidMagic => "Invalid magic bytes in LMP packet frame"@,
            LmpError::UnsupportedVersion(v) => "Unsupported LMP protocol version: "@ + decimal(
                *v as nat,
            ),
            LmpError::Io(m) => "IO error: "@ + m@,
            LmpError::Serialization(m) => "Serialization error: "@ + m@,
            LmpError::PayloadTooLarge(n) => "Packet frame payload too large: "@ + decimal(
                *n as nat,
            ) + " bytes"@,
            LmpError::LnsResolutionFailed(h) => "LNS resolution failed for host: "@ + h@,
        }
    }

    /// The text that describes the error.
    pub fn message(&self) -> (m: String)
        ensures
            m@ == self.spec_message(),
    {
        match self {
            LmpError::InvalidScheme => String::from_str("Invalid scheme in URI. Expected 'lumi://'"),
            LmpError::InvalidMagic => String::from_str("Invalid magic bytes in LMP packet frame"),
            LmpError::UnsupportedVersion(v) => {
                let mut m = String::from_str("Unsupported LMP protocol version: ");
                push_decimal(&mut m, *v as u64);
                m
            },
            LmpError::Io(e) => {
                let mut m = String::from_str("IO error: ");
                m.append(e.as_str());
                m
            },
            LmpError::Serialization(e) => {
                let mut m = String::from_str("Serialization error: ");
                m.append(e.as_str());
                m
            },
            LmpError::PayloadTooLarge(n) => {
                let mut m = String::from_str("Packet frame payload too large: ");
                push_decimal(&mut m, *n as u64);
                m.append(" bytes");
                m
            },
            LmpError::LnsResolutionFailed(h) => {
                let mut m = String::from_str("LNS resolution failed for host: ");
                m.append(h.as_str());
                m
            },
        }
    }
}

} // verus!
