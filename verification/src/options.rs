//! Reading the host's options: seeds and colours written in hexadecimal.

use vstd::prelude::*;
use vstd::slice::slice_subrange;
use vstd::string::StringSliceAdditionalSpecFns;

verus! {

/// A colour: red, green and blue.
#[derive(Debug, Clone, Copy, PartialEq, Eq)]
pub struct Rgb {
    pub r: u8,
    pub g: u8,
    pub b: u8,
}

/// Why an option was refused. Each variant carries the text that was refused.
#[derive(Debug)]
pub enum OptionError {
    /// The text is no colour.
    InvalidColor(String),
    /// The text is no seed.
    InvalidSeed(String),
}

/// The value of a hexadecimal digit, written as a digit or as a letter of
/// either case.
pub open spec fn spec_digit(byte: u8) -> Option<u8> {
    if 0x30 <= byte <= 0x39 {
        Some((byte - 0x30) as u8)
    } else if 0x61 <= byte <= 0x66 {
        Some((byte - 0x61 + 10) as u8)
    } else if 0x41 <= byte <= 0x46 {
        Some((byte - 0x41 + 10) as u8)
    } else {
        None
    }
}

/// Whether every byte of `digits` is a hexadecimal digit.
pub open spec fn spec_all_digits(digits: Seq<u8>) -> bool {
    forall|k: int| 0 <= k < digits.len() ==> spec_digit(#[trigger] digits[k]) is Some
}

/// The number that `digits` write in base sixteen, the first digit the highest.
pub open spec fn spec_value(digits: Seq<u8>) -> nat
    decreases digits.len(),
{
    if digits.len() == 0 {
        0
    } else {
        spec_value(digits.drop_last()) * 16 + match spec_digit(digits.last()) {
            Some(digit) => digit as nat,
            None => 0,
        }
    }
}

/// The number that `text` writes in base sixteen, if it writes one that is no
/// greater than `max`: an optional plus sign, then one hexadecimal digit or
/// more.
pub open spec fn spec_number(text: Seq<u8>, max: nat) -> Option<nat> {
    let digits = if text.len() > 0 && text[0] == 0x2b {
        text.drop_first()
    } else {
        text
    };
    if digits.len() > 0 && spec_all_digits(digits) && spec_value(digits) <= max {
        Some(spec_value(digits))
    } else {
        None
    }
}

/// The seed that `text` writes: `0x` and then a hexadecimal number of sixteen
/// bits.
pub open spec fn spec_seed(text: Seq<u8>) -> Option<u16> {
    if text.len() >= 2 && text[0] == 0x30 && text[1] == 0x78 {
        match spec_number(text.skip(2), u16::MAX as nat) {
            Some(value) => Some(value as u16),
            None => None,
        }
    } else {
        None
    }
}

/// The colour that `text` writes: `#` and then a hexadecimal number of 32 bits
/// whose highest byte is not zero. The three lower bytes are red, green and
/// blue.
pub open spec fn spec_color(text: Seq<u8>) -> Option<Rgb> {
    if text.len() >= 1 && text[0] == 0x23 {
        match spec_number(text.skip(1), u32::MAX as nat) {
            Some(value) => {
                let hex = value as u32;
                if hex & 0xff000000 != 0 {
                    Some(
                        Rgb {
                            r: ((hex >> 16) & 0xff) as u8,
                            g: ((hex >> 8) & 0xff) as u8,
                            b: (hex & 0xff) as u8,
                        },
                    )
                } else {
                    None
                }
            },
            None => None,
        }
    } else {
        None
    }
}

/// A number never gets smaller by more digits written after it.
proof fn lemma_value_grows(digits: Seq<u8>, k: int)
    requires
        0 <= k <= digits.len(),
    ensures
        spec_value(digits.take(k)) <= spec_value(digits),
    decreases digits.len() - k,
{
    if k < digits.len() {
        lemma_value_grows(digits, k + 1);
        assert(digits.take(k + 1).drop_last() =~= digits.take(k));
    } else {
        assert(digits.take(k) =~= digits);
    }
}

/// The value of the hexadecimal digit `byte`, if it is one.
fn digit(byte: u8) -> (value: Option<u8>)
    ensures
        value == spec_digit(byte),
{
    if 0x30 <= byte && byte <= 0x39 {
        Some(byte - 0x30)
    } else if 0x61 <= byte && byte <= 0x66 {
        Some(byte - 0x61 + 10)
    } else if 0x41 <= byte && byte <= 0x46 {
        Some(byte - 0x41 + 10)
    } else {
        None
    }
}

/// Reads `text` as a hexadecimal number no greater than `max`.
fn number(text: &[u8], max: u32) -> (value: Option<u32>)
    ensures
        value == (match spec_number(text@, max as nat) {
            Some(value) => Some(value as u32),
            None => None,
        }),
{
    let start: usize = if text.len() > 0 && text[0] == 0x2b {
        1
    } else {
        0
    };
    let digits = slice_subrange(text, start, text.len());
    if digits.len() == 0 {
        return None;
    }
    let mut value: u64 = 0;
    let mut k: usize = 0;
    while k < digits.len()
        invariant
            k <= digits@.len(),
            digits@.len() > 0,
            digits@ == (if text@.len() > 0 && text@[0] == 0x2b {
                text@.drop_first()
            } else {
                text@
            }),
            value == spec_value(digits@.take(k as int)),
            value <= max,
            spec_all_digits(digits@.take(k as int)),
        decreases digits@.len() - k,
    {
        let next: u8 = match digit(digits[k]) {
            Some(next) => next,
            None => {
                return None;
            },
        };
        assert(digits@.take(k + 1).drop_last() =~= digits@.take(k as int));
        value = value * 16 + next as u64;
        if value > max as u64 {
            proof {
                lemma_value_grows(digits@, k + 1);
            }
            return None;
        }
        k += 1;
    }
    assert(digits@.take(k as int) =~= digits@);
    Some(value as u32)
}

/// Reads a seed: `0x` and then a hexadecimal number of sixteen bits. Anything
/// else is refused with `InvalidSeed` and the text.
pub fn parse_seed(src: &str) -> (r: Result<u16, OptionError>)
    ensures
        match spec_seed(src.spec_bytes()) {
            Some(seed) => r == Ok::<u16, OptionError>(seed),
            None => r matches Err(OptionError::InvalidSeed(text)) && text@ == src@,
        },
{
    let bytes = src.as_bytes();
    if bytes.len() >= 2 && bytes[0] == 0x30 && bytes[1] == 0x78 {
        let hex = slice_subrange(bytes, 2, bytes.len());
        match number(hex, 0xffff) {
            Some(value) => Ok(value as u16),
            None => Err(OptionError::InvalidSeed(src.to_owned())),
        }
    } else {
        Err(OptionError::InvalidSeed(src.to_owned()))
    }
}

/// Reads a colour: `#` and then a hexadecimal number of 32 bits whose highest
/// byte is not zero; the three lower bytes are red, green and blue. Anything
/// else is refused with `InvalidColor` and the text.
pub fn parse_color(src: &str) -> (r: Result<Rgb, OptionError>)
    ensures
        match spec_color(src.spec_bytes()) {
            Some(color) => r == Ok::<Rgb, OptionError>(color),
            None => r matches Err(OptionError::InvalidColor(text)) && text@ == src@,
        },
{
    let bytes = src.as_bytes();
    if bytes.len() >= 1 && bytes[0] == 0x23 {
        let digits = slice_subrange(bytes, 1, bytes.len());
        match number(digits, 0xffff_ffff) {
            Some(hex) => {
                if (hex & 0xff000000) != 0 {
                    Ok(
                        Rgb {
                            r: #[verifier::truncate]
                            (((hex >> 16) & 0xff) as u8),
                            g: #[verifier::truncate]
                            (((hex >> 8) & 0xff) as u8),
                            b: #[verifier::truncate]
                            ((hex & 0xff) as u8),
                        },
                    )
                } else {
                    Err(OptionError::InvalidColor(src.to_owned()))
                }
            },
            None => Err(OptionError::InvalidColor(src.to_owned())),
        }
    } else {
        Err(OptionError::InvalidColor(src.to_owned()))
    }
}

} // verus!
