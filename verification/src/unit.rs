//! Escaping of free-form strings for inclusion in unit names.

use vstd::prelude::*;
use vstd::slice::slice_index_get;
use vstd::string::StringSliceAdditionalSpecFns;

use crate::text::all_ascii;
use crate::text::ascii_chars_of;
use crate::text::string_from_ascii;

verus! {

/// An ASCII letter or digit.
pub open spec fn is_alnum_byte(c: u8) -> bool {
    (('A' as u8) <= c && c <= ('Z' as u8)) || (('a' as u8) <= c && c <= ('z' as u8)) || (('0' as u8)
        <= c && c <= ('9' as u8))
}

/// The bytes that pass through unescaped: letters, digits, `_` and `:`
/// anywhere, and `.` anywhere but at the start.
pub open spec fn escape_keeps(b: u8, first: bool) -> bool {
    ||| (b == ('.' as u8) && !first)
    ||| b == ('_' as u8)
    ||| b == (':' as u8)
    ||| is_alnum_byte(b)
}

/// The lower-case hex digit for a value below 16.
pub open spec fn hex_lower(n: u8) -> u8
    recommends
        n < 16,
{
    if n < 10 {
        (48 + n) as u8
    } else {
        (87 + n) as u8
    }
}

/// How one byte of the input is escaped: `/` becomes `-`, a kept byte
/// stays, anything else becomes `\xNN` with two lower-case hex digits.
pub open spec fn escape_byte(b: u8, first: bool) -> Seq<u8> {
    if b == ('/' as u8) {
        seq![('-' as u8)]
    } else if escape_keeps(b, first) {
        seq![b]
    } else {
        seq![('\\' as u8), ('x' as u8), hex_lower(b / 16), hex_lower(b % 16)]
    }
}

/// The escaped form of the input bytes from position `i` on.
pub open spec fn escape_bytes(s: Seq<u8>, i: int) -> Seq<u8>
    decreases s.len() - i,
    when i <= s.len()
{
    if i >= s.len() {
        Seq::empty()
    } else {
        escape_byte(s[i], i == 0) + escape_bytes(s, i + 1)
    }
}

/// Escape a string for use in a unit name: each byte of its UTF-8 form
/// is kept, turned into `-`, or expanded to a `\xNN` escape, as
/// `escape_bytes` describes.
pub fn escape_name(s: &str) -> (r: String)
    ensures
        r@ == ascii_chars_of(escape_bytes(s.spec_bytes(), 0)),
{
    let bytes = s.as_bytes();
    let mut out: Vec<u8> = Vec::new();
    let mut i: usize = 0;
    while i < bytes.len()
        invariant
            i <= bytes@.len(),
            out@ + escape_bytes(bytes@, i as int) == escape_bytes(bytes@, 0),
            all_ascii(out@),
        decreases bytes@.len() - i,
    {
        let ghost pre = out@;
        let b = *slice_index_get(bytes, i);
        if b == ('/' as u8) {
            out.push('-' as u8);
        } else if (b == ('.' as u8) && i > 0) || b == ('_' as u8) || b == (':' as u8)
            || (b >= ('A' as u8) && b <= ('Z' as u8)) || (b >= ('a' as u8) && b <= ('z' as u8))
            || (b >= ('0' as u8) && b <= ('9' as u8)) {
            out.push(b);
        } else {
            out.push('\\' as u8);
            out.push('x' as u8);
            let hi = b / 16;
            let lo = b % 16;
            out.push(
                if hi < 10 {
                    48 + hi
                } else {
                    87 + hi
                },
            );
            out.push(
                if lo < 10 {
                    48 + lo
                } else {
                    87 + lo
                },
            );
        }
        proof {
            assert(out@ =~= pre + escape_byte(bytes@[i as int], i == 0));
            assert(out@ + escape_bytes(bytes@, i + 1) =~= escape_bytes(bytes@, 0));
        }
        i = i + 1;
    }
    proof {
        assert(out@ =~= escape_bytes(bytes@, 0));
    }
    string_from_ascii(out)
}

} // verus!
