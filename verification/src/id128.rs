//! 128-bit ID values: a generalization of OSF UUIDs with a simpler
//! string format, used for boot, machine and invocation identity.

use vstd::prelude::*;
use vstd::slice::slice_index_get;
use vstd::string::StringSliceAdditionalSpecFns;

use crate::Errno;
use crate::EINVAL;

verus! {

/// An ASCII hexadecimal digit, either case.
pub open spec fn is_hex_byte(c: u8) -> bool {
    (('0' as u8) <= c && c <= ('9' as u8)) || (('a' as u8) <= c && c <= ('f' as u8)) || (('A'
        as u8) <= c && c <= ('F' as u8))
}

/// The value of a hexadecimal digit.
pub open spec fn hex_val(c: u8) -> u8
    recommends
        is_hex_byte(c),
{
    if ('0' as u8) <= c && c <= ('9' as u8) {
        (c - 48) as u8
    } else if ('a' as u8) <= c && c <= ('f' as u8) {
        (c - 87) as u8
    } else {
        (c - 55) as u8
    }
}

/// Where the `j`-th hex digit of a dashed (UUID-style) rendering sits.
pub open spec fn dash_map(j: int) -> int {
    if j < 8 {
        j
    } else if j < 12 {
        j + 1
    } else if j < 16 {
        j + 2
    } else if j < 20 {
        j + 3
    } else {
        j + 4
    }
}

/// The 32 hex digits of an ID rendering, dashes stripped.
pub open spec fn undashed(b: Seq<u8>) -> Seq<u8> {
    if b.len() == 36 {
        Seq::new(32, |j: int| b[dash_map(j)])
    } else {
        b
    }
}

/// Whether the byte string is a well-formed ID rendering: exactly 32 hex
/// digits, or the 36-byte UUID form with dashes after the 8th, 12th,
/// 16th and 20th digit.
pub open spec fn id_form_ok(b: Seq<u8>) -> bool {
    &&& (b.len() == 32 || (b.len() == 36 && b[8] == ('-' as u8) && b[13] == ('-' as u8) && b[18]
        == ('-' as u8) && b[23] == ('-' as u8)))
    &&& forall|j: int| 0 <= j < 32 ==> is_hex_byte(#[trigger] undashed(b)[j])
}

/// The ID bytes a well-formed rendering denotes.
pub open spec fn id_bytes_of(b: Seq<u8>) -> Seq<u8> {
    Seq::new(16, |i: int| (16 * hex_val(undashed(b)[2 * i]) + hex_val(undashed(b)[2 * i + 1])) as u8)
}

/// The plain hexadecimal rendering of ID bytes: two lower-case digits
/// per byte.
pub open spec fn hex_render(b: Seq<u8>) -> Seq<u8> {
    Seq::new(
        2 * b.len(),
        |i: int|
            if i % 2 == 0 {
                hex_lower(b[i / 2] / 16)
            } else {
                hex_lower(b[i / 2] % 16)
            },
    )
}

/// The lower-case hex digit for a value below 16.
pub open spec fn hex_lower(n: u8) -> u8
    recommends
        n < 16,
{
    if n < 10 {
        (48 + n) as u8
    } else {
        (87 + n) as u8
    }
}

/// Rendering an ID and parsing the rendering gives the ID back: the
/// rendering is a well-formed plain form and denotes the same bytes.
pub proof fn lemma_hex_render_round_trip(b: Seq<u8>)
    requires
        b.len() == 16,
    ensures
        id_form_ok(hex_render(b)),
        id_bytes_of(hex_render(b)) =~= b,
{
    let h = hex_render(b);
    assert(h.len() == 32);
    assert(undashed(h) =~= h);
    assert forall|j: int| 0 <= j < 32 implies is_hex_byte(#[trigger] undashed(h)[j]) by {
        assert(undashed(h)[j] == h[j]);
    }
    assert forall|i: int| 0 <= i < 16 implies #[trigger] id_bytes_of(h)[i] == b[i] by {
        assert(h[2 * i] == hex_lower(b[i] / 16));
        assert(h[2 * i + 1] == hex_lower(b[i] % 16));
        assert(hex_val(hex_lower(b[i] / 16)) == b[i] / 16);
        assert(hex_val(hex_lower(b[i] % 16)) == b[i] % 16);
    }
}

/// A 128-bit ID.
#[derive(Debug)]
pub struct Id128 {
    bytes: Vec<u8>,
}

impl View for Id128 {
    type V = Seq<u8>;

    closed spec fn view(&self) -> Seq<u8> {
        self.bytes@
    }
}

impl Default for Id128 {
    /// The null ID, consisting of only zero bytes.
    fn default() -> (r: Self)
        ensures
            r@ =~= Seq::new(16, |i: int| 0u8),
    {
        let mut bytes: Vec<u8> = Vec::new();
        let mut i: usize = 0;
        while i < 16
            invariant
                i <= 16,
                bytes@.len() == i,
                forall|j: int| 0 <= j < i ==> bytes@[j] == 0,
            decreases 16 - i,
        {
            bytes.push(0);
            i = i + 1;
        }
        proof {
            assert(bytes@ =~= Seq::new(16, |i: int| 0u8));
        }
        Id128 { bytes }
    }
}

/// The value of an ASCII hex digit, or nothing for any other byte.
fn hex_nibble(c: u8) -> (r: Option<u8>)
    ensures
        r is Some <==> is_hex_byte(c),
        r matches Some(v) ==> v == hex_val(c) && v < 16,
{
    if c >= ('0' as u8) && c <= ('9' as u8) {
        Some(c - 48)
    } else if c >= ('a' as u8) && c <= ('f' as u8) {
        Some(c - 87)
    } else if c >= ('A' as u8) && c <= ('F' as u8) {
        Some(c - 55)
    } else {
        None
    }
}

impl Id128 {
    /// An ID always holds exactly 16 bytes.
    #[verifier::type_invariant]
    pub closed spec fn wf(self) -> bool {
        self.bytes@.len() == 16
    }

    /// Parse an ID rendering: either 32 hex digits or the 36-byte dashed
    /// UUID form, in either case NUL-free text. Anything else is an
    /// invalid argument.
    pub fn from_cstr(s: &str) -> (r: Result<Id128, Errno>)
        ensures
            r is Ok <==> id_form_ok(s.spec_bytes()),
            r matches Ok(id) ==> id@ == id_bytes_of(s.spec_bytes()),
            r matches Err(e) ==> e.code == EINVAL,
    {
        let b = s.as_bytes();
        let ghost bv = s.spec_bytes();
        if b.len() == 36 {
            if !(*slice_index_get(b, 8) == ('-' as u8) && *slice_index_get(b, 13) == ('-' as u8)
                && *slice_index_get(b, 18) == ('-' as u8) && *slice_index_get(b, 23) == (
            '-' as u8)) {
                return Err(Errno { code: EINVAL });
            }
        } else if b.len() != 32 {
            return Err(Errno { code: EINVAL });
        }
        let dashed = b.len() == 36;
        let mut digits: Vec<u8> = Vec::new();
        let mut j: usize = 0;
        while j < 32
            invariant
                j <= 32,
                bv == b@,
                bv == s.spec_bytes(),
                b@.len() == 32 || b@.len() == 36,
                dashed == (b@.len() == 36),
                digits@.len() == j,
                forall|t: int| 0 <= t < j ==> #[trigger] digits@[t] == undashed(bv)[t],
                forall|t: int| 0 <= t < j ==> is_hex_byte(#[trigger] undashed(bv)[t]),
            decreases 32 - j,
        {
            let idx: usize = if !dashed {
                j
            } else if j < 8 {
                j
            } else if j < 12 {
                j + 1
            } else if j < 16 {
                j + 2
            } else if j < 20 {
                j + 3
            } else {
                j + 4
            };
            let c = *slice_index_get(b, idx);
            proof {
                assert(c == undashed(bv)[j as int]);
            }
            match hex_nibble(c) {
                Some(_) => {
                    digits.push(c);
                }
                None => {
                    proof {
                        assert(!is_hex_byte(undashed(bv)[j as int]));
                    }
                    return Err(Errno { code: EINVAL });
                }
            }
            j = j + 1;
        }
        let mut bytes: Vec<u8> = Vec::new();
        let mut i: usize = 0;
        while i < 16
            invariant
                i <= 16,
                bv == s.spec_bytes(),
                digits@.len() == 32,
                forall|t: int| 0 <= t < 32 ==> #[trigger] digits@[t] == undashed(bv)[t],
                forall|t: int| 0 <= t < 32 ==> is_hex_byte(#[trigger] undashed(bv)[t]),
                bytes@.len() == i,
                forall|t: int|
                    0 <= t < i ==> #[trigger] bytes@[t] == (16 * hex_val(undashed(bv)[2 * t])
                        + hex_val(undashed(bv)[2 * t + 1])) as u8,
            decreases 16 - i,
        {
            let c1 = *slice_index_get(digits.as_slice(), 2 * i);
            let c2 = *slice_index_get(digits.as_slice(), 2 * i + 1);
            let hi = match hex_nibble(c1) {
                Some(v) => v,
                None => 0,
            };
            let lo = match hex_nibble(c2) {
                Some(v) => v,
                None => 0,
            };
            bytes.push(16 * hi + lo);
            i = i + 1;
        }
        let id = Id128 { bytes };
        proof {
            assert(id@ =~= id_bytes_of(bv));
        }
        Ok(id)
    }

    /// The plain rendering of the ID: 32 lower-case hex digits.
    pub fn to_hex_string(&self) -> (r: String)
        ensures
            r@ == crate::text::ascii_chars_of(hex_render(self@)),
    {
        proof {
            use_type_invariant(self);
        }
        let mut out: Vec<u8> = Vec::new();
        let mut i: usize = 0;
        while i < self.bytes.len()
            invariant
                i <= self@.len(),
                out@.len() == 2 * i,
                forall|t: int| 0 <= t < 2 * i ==> #[trigger] out@[t] == hex_render(self@)[t],
            decreases self@.len() - i,
        {
            let b = *slice_index_get(self.bytes.as_slice(), i);
            let hi = b / 16;
            let lo = b % 16;
            out.push(
                if hi < 10 {
                    48 + hi
                } else {
                    87 + hi
                },
            );
            out.push(
                if lo < 10 {
                    48 + lo
                } else {
                    87 + lo
                },
            );
            i = i + 1;
        }
        proof {
            assert(out@ =~= hex_render(self@));
            assert forall|t: int| 0 <= t < out@.len() implies #[trigger] out@[t] < 128 by {
                assert(out@[t] == hex_render(self@)[t]);
            }
        }
        crate::text::string_from_ascii(out)
    }

    /// The 16 bytes of the ID.
    pub fn as_bytes(&self) -> (r: &[u8])
        ensures
            r@ == self@,
    {
        self.bytes.as_slice()
    }
}

impl Clone for Id128 {
    /// Cloning keeps the ID bytes.
    fn clone(&self) -> (r: Self)
        ensures
            r@ == self@,
    {
        proof {
            use_type_invariant(self);
        }
        Id128 { bytes: vstd::slice::slice_to_vec(self.bytes.as_slice()) }
    }
}

} // verus!
