//! Decoding of UTF-16LE string payloads.
//!
//! Filename payloads in metadata-object records are stored as UTF-16 in
//! little-endian byte order. Decoding walks the 16-bit code units in order:
//! a unit outside the surrogate range stands for its own code point, a high
//! surrogate must be followed by a low surrogate and the pair combines into
//! one supplementary code point, and any other arrangement (an unpaired or
//! reversed surrogate) makes the whole payload invalid.

use crate::records::le16;
use crate::text::{char_from_u32, push_char};
use vstd::prelude::*;
use vstd::utf8::char_u32_cast;

verus! {

/// Whether `u` is a UTF-16 high (leading) surrogate.
pub open spec fn is_high_surrogate(u: u16) -> bool {
    0xD800 <= u < 0xDC00
}

/// Whether `u` is a UTF-16 low (trailing) surrogate.
pub open spec fn is_low_surrogate(u: u16) -> bool {
    0xDC00 <= u < 0xE000
}

/// The code point a surrogate pair stands for.
pub open spec fn surrogate_pair_scalar(hi: u16, lo: u16) -> u32
    recommends
        is_high_surrogate(hi),
        is_low_surrogate(lo),
{
    (0x10000 + (hi - 0xD800) * 0x400 + (lo - 0xDC00)) as u32
}

/// Whether a sequence of 16-bit code units is a valid UTF-16 encoding.
pub open spec fn utf16_valid(units: Seq<u16>) -> bool
    decreases units.len(),
{
    if units.len() == 0 {
        true
    } else if !is_high_surrogate(units[0]) && !is_low_surrogate(units[0]) {
        utf16_valid(units.drop_first())
    } else if is_high_surrogate(units[0]) && units.len() >= 2 && is_low_surrogate(units[1]) {
        utf16_valid(units.skip(2))
    } else {
        false
    }
}

/// The character sequence a valid UTF-16 encoding denotes.
pub open spec fn utf16_chars(units: Seq<u16>) -> Seq<char>
    recommends
        utf16_valid(units),
    decreases units.len(),
{
    if units.len() == 0 {
        seq![]
    } else if !is_high_surrogate(units[0]) && !is_low_surrogate(units[0]) {
        seq![(units[0] as u32) as char] + utf16_chars(units.drop_first())
    } else if is_high_surrogate(units[0]) && units.len() >= 2 && is_low_surrogate(units[1]) {
        seq![surrogate_pair_scalar(units[0], units[1]) as char] + utf16_chars(units.skip(2))
    } else {
        seq![]
    }
}

/// The `n` 16-bit little-endian code units stored at `start` in `b`.
pub open spec fn le_units(b: Seq<u8>, start: int, n: int) -> Seq<u16>
    recommends
        0 <= start,
        0 <= n,
        start + 2 * n <= b.len(),
{
    Seq::new(n as nat, |i: int| le16(b, start + 2 * i))
}

/// Decodes the `n` UTF-16LE code units stored at `start` as a string.
///
/// Returns `None` exactly when the code units are not valid UTF-16.
pub fn decode_utf16le(buf: &Vec<u8>, start: usize, n: usize) -> (r: Option<String>)
    requires
        start + 2 * n <= buf@.len(),
    ensures
        r is Some <==> utf16_valid(le_units(buf@, start as int, n as int)),
        r matches Some(s) ==> s@ == utf16_chars(le_units(buf@, start as int, n as int)),
{
    let buf_len = buf.len();
    let ghost units = le_units(buf@, start as int, n as int);
    let mut out = String::new();
    let mut i: usize = 0;
    proof {
        assert(units.skip(0) =~= units);
        assert(out@ + utf16_chars(units) =~= utf16_chars(units));
    }
    while i < n
        invariant
            i <= n,
            start + 2 * n <= buf_len,
            buf_len == buf@.len(),
            units == le_units(buf@, start as int, n as int),
            units.len() == n,
            utf16_valid(units) <==> utf16_valid(units.skip(i as int)),
            utf16_valid(units) ==> utf16_chars(units) == out@ + utf16_chars(
                units.skip(i as int),
            ),
        decreases n - i,
    {
        let ghost rest = units.skip(i as int);
        proof {
            assert(rest.len() == n - i);
            assert(rest[0] == units[i as int]);
        }
        let u = read_first(buf, start, i);
        proof {
            assert(u == units[i as int]);
        }
        if u < 0xD800 || u >= 0xE000 {
            let c = match char_from_u32(u as u32) {
                Some(c) => c,
                None => {
                    proof {
                        assert(false);
                    }
                    return None;
                },
            };
            let ghost out0 = out@;
            push_char(&mut out, c);
            proof {
                char_u32_cast(c, u as u32);
                assert(rest.drop_first() =~= units.skip(i as int + 1));
                assert(out0 + utf16_chars(rest) =~= out@ + utf16_chars(units.skip(i as int + 1)));
            }
            i = i + 1;
        } else if u < 0xDC00 {
            if i + 1 < n {
                proof {
                    assert(rest[1] == units[i as int + 1]);
                }
                let u2 = read_first(buf, start, i + 1);
                proof {
                    assert(u2 == units[i as int + 1]);
                }
                if u2 >= 0xDC00 && u2 < 0xE000 {
                    let cp: u32 = 0x10000 + ((u as u32) - 0xD800) * 0x400 + ((u2 as u32) - 0xDC00);
                    proof {
                        assert(cp == surrogate_pair_scalar(u, u2));
                    }
                    let c = match char_from_u32(cp) {
                        Some(c) => c,
                        None => {
                            proof {
                                assert(false);
                            }
                            return None;
                        },
                    };
                    let ghost out0 = out@;
                    push_char(&mut out, c);
                    proof {
                        char_u32_cast(c, cp);
                        assert(rest.skip(2) =~= units.skip(i as int + 2));
                        assert(out0 + utf16_chars(rest) =~= out@ + utf16_chars(
                            units.skip(i as int + 2),
                        ));
                    }
                    i = i + 2;
                } else {
                    return None;
                }
            } else {
                return None;
            }
        } else {
            return None;
        }
    }
    proof {
        assert(units.skip(n as int) =~= Seq::<u16>::empty());
    }
    Some(out)
}

/// Reads the `i`-th 16-bit little-endian code unit of the run that starts at
/// `start`.
fn read_first(buf: &Vec<u8>, start: usize, i: usize) -> (r: u16)
    requires
        start + 2 * i + 2 <= buf@.len(),
    ensures
        r == le16(buf@, start + 2 * (i as int)),
{
    let n = buf.len();
    proof {
        assert(start + 2 * (i as int) + 2 <= n);
    }
    crate::records::read_u16_le(buf, start + 2 * i)
}

} // verus!
