//! Standard base64 encoding (RFC 4648 alphabet, `=` padding).
use vstd::prelude::*;
use crate::text::push_char;

verus! {

broadcast use vstd::string::group_string_axioms;

/// The 64 digits of the encoding, in order.
pub open spec fn base64_alphabet() -> Seq<char> {
    "ABCDEFGHIJKLMNOPQRSTUVWXYZabcdefghijklmnopqrstuvwxyz0123456789+/"@
}

/// The digit for a six-bit value.
pub open spec fn digit(v: int) -> char {
    base64_alphabet()[v]
}

/// The base64 text of `bytes`: each group of three bytes becomes four
/// digits; a final group of two bytes becomes three digits and `=`, a final
/// single byte two digits and `==`.
pub open spec fn base64(bytes: Seq<u8>) -> Seq<char>
    decreases bytes.len(),
{
    if bytes.len() >= 3 {
        let a = bytes[0] as int;
        let b = bytes[1] as int;
        let c = bytes[2] as int;
        seq![digit(a / 4), digit((a % 4) * 16 + b / 16), digit((b % 16) * 4 + c / 64), digit(c % 64)]
            + base64(bytes.skip(3))
    } else if bytes.len() == 2 {
        let a = bytes[0] as int;
        let b = bytes[1] as int;
        seq![digit(a / 4), digit((a % 4) * 16 + b / 16), digit((b % 16) * 4), '=']
    } else if bytes.len() == 1 {
        let a = bytes[0] as int;
        seq![digit(a / 4), digit((a % 4) * 16), '=', '=']
    } else {
        Seq::empty()
    }
}

/// Every started group of three bytes becomes four characters.
pub proof fn lemma_base64_length(bytes: Seq<u8>)
    ensures
        base64(bytes).len() == 4 * ((bytes.len() + 2) / 3),
    decreases bytes.len(),
{
    if bytes.len() >= 3 {
        lemma_base64_length(bytes.skip(3));
    }
}

/// Encoding works group by group: bytes split after a whole number of
/// groups of three encode to the two encodings one after the other.
pub proof fn lemma_base64_append(a: Seq<u8>, b: Seq<u8>)
    requires
        a.len() % 3 == 0,
    ensures
        base64(a + b) == base64(a) + base64(b),
    decreases a.len(),
{
    if a.len() == 0 {
        assert(a + b =~= b);
    } else {
        assert((a + b).skip(3) =~= a.skip(3) + b);
        assert((a + b)[0] == a[0] && (a + b)[1] == a[1] && (a + b)[2] == a[2]);
        lemma_base64_append(a.skip(3), b);
    }
}

/// The digit for the six-bit value `v`.
fn digit_char(v: u32) -> (c: char)
    requires
        v < 64,
    ensures
        c == digit(v as int),
{
    let alphabet = "ABCDEFGHIJKLMNOPQRSTUVWXYZabcdefghijklmnopqrstuvwxyz0123456789+/";
    proof {
        reveal_strlit("ABCDEFGHIJKLMNOPQRSTUVWXYZabcdefghijklmnopqrstuvwxyz0123456789+/");
    }
    alphabet.get_char(v as usize)
}

/// Encodes `bytes` in base64.
pub fn base64_encode(bytes: &[u8]) -> (s: String)
    ensures
        s@ == base64(bytes@),
        s@.len() == 4 * ((bytes@.len() + 2) / 3),
{
    proof {
        lemma_base64_length(bytes@);
    }
    let mut s = String::new();
    let len = bytes.len();
    let mut i: usize = 0;
    assert(bytes@.skip(0) =~= bytes@);
    while len - i >= 3
        invariant
            len == bytes@.len(),
            i <= len,
            s@ + base64(bytes@.skip(i as int)) == base64(bytes@),
        decreases len - i,
    {
        let a = bytes[i] as u32;
        let b = bytes[i + 1] as u32;
        let c = bytes[i + 2] as u32;
        let n: u32 = (a << 16) | (b << 8) | c;
        assert(((n >> 18) & 0x3f) == a / 4 && ((n >> 12) & 0x3f) == (a % 4) * 16 + b / 16 && ((n
            >> 6) & 0x3f) == (b % 16) * 4 + c / 64 && (n & 0x3f) == c % 64) by (bit_vector)
            requires
                a < 256 && b < 256 && c < 256 && n == (a << 16) | (b << 8) | c,
        ;
        let ghost before = s@;
        push_char(&mut s, digit_char((n >> 18) & 0x3f));
        push_char(&mut s, digit_char((n >> 12) & 0x3f));
        push_char(&mut s, digit_char((n >> 6) & 0x3f));
        push_char(&mut s, digit_char(n & 0x3f));
        proof {
            let rest = bytes@.skip(i as int);
            assert(rest.skip(3) =~= bytes@.skip(i + 3));
            assert(s@ =~= before + seq![
                digit(rest[0] as int / 4),
                digit((rest[0] as int % 4) * 16 + rest[1] as int / 16),
                digit((rest[1] as int % 16) * 4 + rest[2] as int / 64),
                digit(rest[2] as int % 64),
            ]);
        }
        i += 3;
    }
    let ghost before = s@;
    let rest_len = len - i;
    if rest_len == 1 {
        let a = bytes[i] as u32;
        let n: u32 = a << 16;
        assert(((n >> 18) & 0x3f) == a / 4 && ((n >> 12) & 0x3f) == (a % 4) * 16) by (bit_vector)
            requires
                a < 256 && n == a << 16,
        ;
        push_char(&mut s, digit_char((n >> 18) & 0x3f));
        push_char(&mut s, digit_char((n >> 12) & 0x3f));
        push_char(&mut s, '=');
        push_char(&mut s, '=');
        assert(s@ =~= before + base64(bytes@.skip(i as int)));
    } else if rest_len == 2 {
        let a = bytes[i] as u32;
        let b = bytes[i + 1] as u32;
        let n: u32 = (a << 16) | (b << 8);
        assert(((n >> 18) & 0x3f) == a / 4 && ((n >> 12) & 0x3f) == (a % 4) * 16 + b / 16 && ((n
            >> 6) & 0x3f) == (b % 16) * 4) by (bit_vector)
            requires
                a < 256 && b < 256 && n == (a << 16) | (b << 8),
        ;
        push_char(&mut s, digit_char((n >> 18) & 0x3f));
        push_char(&mut s, digit_char((n >> 12) & 0x3f));
        push_char(&mut s, digit_char((n >> 6) & 0x3f));
        push_char(&mut s, '=');
        assert(s@ =~= before + base64(bytes@.skip(i as int)));
    } else {
        assert(s@ =~= before + base64(bytes@.skip(i as int)));
    }
    s
}

} // verus!
