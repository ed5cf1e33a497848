//! Small text helpers shared across the crate: building owned strings
//! out of ASCII byte sequences, and decimal rendering of counters.

use vstd::prelude::*;
use vstd::slice::slice_index_get;
use vstd::utf8::encode_scalar;
use vstd::utf8::encode_utf8;
use vstd::utf8::valid_utf8;

verus! {

/// The characters of an ASCII byte sequence, byte for byte.
pub open spec fn ascii_chars_of(b: Seq<u8>) -> Seq<char> {
    Seq::new(b.len(), |i: int| b[i] as char)
}

/// Whether every byte of the sequence is ASCII.
pub open spec fn all_ascii(b: Seq<u8>) -> bool {
    forall|i: int| 0 <= i < b.len() ==> #[trigger] b[i] < 128
}

/// An ASCII byte sequence is its own UTF-8 encoding.
pub proof fn lemma_ascii_encode(b: Seq<u8>)
    requires
        all_ascii(b),
    ensures
        encode_utf8(ascii_chars_of(b)) =~= b,
        valid_utf8(b),
    decreases b.len(),
{
    broadcast use vstd::utf8::encode_utf8_valid_utf8;

    let chars = ascii_chars_of(b);
    if b.len() == 0 {
        assert(encode_utf8(chars) =~= b);
    } else {
        let c = chars[0];
        let b0 = b[0];
        assert(b0 < 128);
        let s = c as u32;
        assert(s == b0 as u32);
        assert(((b0 as u32) & 0x7F) as u8 == b0) by (bit_vector)
            requires
                b0 < 128,
        ;
        assert(encode_scalar(s) =~= seq![b0]);
        lemma_ascii_encode(b.drop_first());
        assert(ascii_chars_of(b.drop_first()) =~= chars.drop_first());
        assert(encode_utf8(chars) =~= encode_scalar(s) + encode_utf8(chars.drop_first()));
        assert(encode_utf8(chars) =~= b);
    }
    assert(encode_utf8(ascii_chars_of(b)) =~= b);
}

/// Relies on `String::from_utf8`: a vector of valid UTF-8 bytes becomes
/// the string whose encoding is exactly those bytes.
#[verifier::external_body]
fn string_from_utf8_vec(b: Vec<u8>) -> (r: String)
    requires
        valid_utf8(b@),
    ensures
        encode_utf8(r@) == b@,
{
    match String::from_utf8(b) {
        Ok(s) => s,
        Err(_) => String::new(),
    }
}

/// Build the string whose characters are exactly the given ASCII bytes.
pub fn string_from_ascii(b: Vec<u8>) -> (r: String)
    requires
        all_ascii(b@),
    ensures
        r@ == ascii_chars_of(b@),
{
    proof {
        lemma_ascii_encode(b@);
    }
    let ghost bytes = b@;
    let r = string_from_utf8_vec(b);
    proof {
        broadcast use vstd::utf8::encode_utf8_decode_utf8;

        assert(encode_utf8(r@) == bytes);
        assert(encode_utf8(ascii_chars_of(bytes)) == bytes);
        assert(vstd::utf8::decode_utf8(encode_utf8(r@)) == r@);
        assert(vstd::utf8::decode_utf8(encode_utf8(ascii_chars_of(bytes)))
            == ascii_chars_of(bytes));
    }
    r
}

/// The decimal digits of a number, most significant first.
pub open spec fn dec_digits(n: nat) -> Seq<u8>
    decreases n,
{
    if n < 10 {
        seq![(48 + n) as u8]
    } else {
        dec_digits(n / 10).push((48 + n % 10) as u8)
    }
}

/// Decimal digits are ASCII digits.
pub proof fn lemma_dec_digits_ascii(n: nat)
    ensures
        forall|i: int|
            0 <= i < dec_digits(n).len() ==> 48 <= #[trigger] dec_digits(n)[i] <= 57,
    decreases n,
{
    if n < 10 {
        assert(dec_digits(n) =~= seq![(48 + n) as u8]);
        assert(dec_digits(n)[0] == (48 + n) as u8);
    } else {
        lemma_dec_digits_ascii(n / 10);
        assert forall|i: int|
            0 <= i < dec_digits(n).len() implies 48 <= #[trigger] dec_digits(n)[i] <= 57 by {
            if i < dec_digits(n).len() - 1 {
                assert(dec_digits(n)[i] == dec_digits(n / 10)[i]);
            } else {
                assert(dec_digits(n)[i] == (48 + n % 10) as u8);
            }
        }
    }
}

/// Append the decimal digits of `x` to the byte buffer.
fn push_dec(x: u64, out: &mut Vec<u8>)
    ensures
        final(out)@ == old(out)@ + dec_digits(x as nat),
    decreases x,
{
    if x < 10 {
        out.push((48 + x) as u8);
        proof {
            assert(out@ =~= old(out)@ + dec_digits(x as nat));
        }
    } else {
        push_dec(x / 10, out);
        out.push(48 + (x % 10) as u8);
        proof {
            assert(out@ =~= old(out)@ + dec_digits(x as nat));
        }
    }
}

/// Render a counter in decimal, without padding or sign.
pub fn u64_to_string(x: u64) -> (r: String)
    ensures
        r@ == ascii_chars_of(dec_digits(x as nat)),
{
    let mut out: Vec<u8> = Vec::new();
    push_dec(x, &mut out);
    proof {
        lemma_dec_digits_ascii(x as nat);
        assert(out@ =~= dec_digits(x as nat));
    }
    string_from_ascii(out)
}

/// Whether two byte strings hold the same bytes.
pub fn bytes_eq(a: &[u8], b: &[u8]) -> (r: bool)
    ensures
        r == (a@ == b@),
{
    if a.len() != b.len() {
        proof {
            assert(a@.len() != b@.len());
        }
        return false;
    }
    let mut i: usize = 0;
    while i < a.len()
        invariant
            i <= a@.len(),
            a@.len() == b@.len(),
            forall|j: int| 0 <= j < i ==> a@[j] == b@[j],
        decreases a@.len() - i,
    {
        if *slice_index_get(a, i) != *slice_index_get(b, i) {
            proof {
                assert(a@[i as int] != b@[i as int]);
            }
            return false;
        }
        i = i + 1;
    }
    proof {
        assert(a@ =~= b@);
    }
    true
}

} // verus!
