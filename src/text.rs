use vstd::prelude::*;
use vstd::utf8::*;

use crate::error::XdbError;

verus! {

/// Whether a byte string holds a NUL byte anywhere.
pub open spec fn has_nul(b: Seq<u8>) -> bool {
    exists|i: int| 0 <= i < b.len() && b[i] == 0u8
}

/// The bytes handed to the native side for a text: its UTF-8 encoding,
/// followed by one terminating NUL.
pub open spec fn terminated(s: Seq<char>) -> Seq<u8> {
    encode_utf8(s).push(0u8)
}

/// What a byte string that is not valid UTF-8 reads as, once each invalid
/// sequence is replaced by a replacement character.
pub uninterp spec fn replaced_of(b: Seq<u8>) -> Seq<char>;

/// What a native byte string reads as on the host: the characters it
/// encodes when it is valid UTF-8, else its reading with replacements.
pub open spec fn read_text(b: Seq<u8>) -> Seq<char> {
    if valid_utf8(b) {
        decode_utf8(b)
    } else {
        replaced_of(b)
    }
}

/// Converts host text into a NUL-terminated native string; text that holds a
/// NUL itself is refused rather than cut short.
pub fn native_text(s: &str) -> (r: Result<Vec<u8>, XdbError>)
    ensures
        s@.contains('\0') ==> r == Err::<Vec<u8>, XdbError>(XdbError::Encoding),
        !s@.contains('\0') ==> (r matches Ok(v) && v@ == terminated(s@)),
{
    let bytes = s.as_bytes();
    let mut out: Vec<u8> = Vec::new();
    let mut i: usize = 0;
    while i < bytes.len()
        invariant
            bytes@ == encode_utf8(s@),
            i <= bytes@.len(),
            out@ == bytes@.subrange(0, i as int),
            forall|j: int| 0 <= j < i ==> bytes@[j] != 0u8,
        decreases bytes@.len() - i,
    {
        if bytes[i] == 0u8 {
            proof {
                assert(bytes@[i as int] == 0u8);
                lemma_nul_byte_iff_nul_char(s@);
            }
            return Err(XdbError::Encoding);
        }
        out.push(bytes[i]);
        i = i + 1;
    }
    out.push(0u8);
    proof {
        assert(out@ == terminated(s@));
        lemma_nul_byte_iff_nul_char(s@);
    }
    Ok(out)
}

/// Relies on String::from_utf8_lossy: valid UTF-8 decodes to exactly the
/// characters it encodes, and anything else decodes with replacement
/// characters instead of failing.
#[verifier::external_body]
pub(crate) fn decode_lossy(b: &[u8]) -> (r: String)
    ensures
        valid_utf8(b@) ==> r@ == decode_utf8(b@),
        !valid_utf8(b@) ==> r@ == replaced_of(b@),
{
    String::from_utf8_lossy(b).into_owned()
}

/// A byte with its high bit set is never NUL.
proof fn lemma_high_bit_not_nul(x: u8)
    ensures
        (0x80u8 | x) != 0u8,
        (0xC0u8 | x) != 0u8,
        (0xE0u8 | x) != 0u8,
        (0xF0u8 | x) != 0u8,
{
    assert((0x80u8 | x) != 0u8 && (0xC0u8 | x) != 0u8 && (0xE0u8 | x) != 0u8 && (0xF0u8 | x)
        != 0u8) by (bit_vector);
}

proof fn lemma_scalar_nul(v: u32)
    requires
        is_scalar(v),
    ensures
        has_nul(encode_scalar(v)) <==> v == 0,
{
    let b = encode_scalar(v);
    if has_width_1_encoding(v) {
        assert(((v & 0x7F) as u8 == 0u8) <==> v == 0) by (bit_vector)
            requires
                v <= 0x7F,
        ;
        assert(b[0] == (v & 0x7F) as u8);
    } else {
        lemma_high_bit_not_nul(((v >> 6) & 0x1F) as u8);
        lemma_high_bit_not_nul(((v >> 12) & 0x0F) as u8);
        lemma_high_bit_not_nul(((v >> 18) & 0x7) as u8);
        lemma_high_bit_not_nul((v & 0x3F) as u8);
        lemma_high_bit_not_nul(((v >> 6) & 0x3F) as u8);
        lemma_high_bit_not_nul(((v >> 12) & 0x3F) as u8);
        assert(forall|i: int| 0 <= i < b.len() ==> b[i] != 0u8);
    }
}

proof fn lemma_nul_concat(a: Seq<u8>, b: Seq<u8>)
    ensures
        has_nul(a + b) <==> has_nul(a) || has_nul(b),
{
    let ab = a + b;
    if has_nul(ab) {
        let i = choose|i: int| 0 <= i < ab.len() && ab[i] == 0u8;
        if i >= a.len() {
            assert(b[i - a.len()] == 0u8);
        }
    }
    if has_nul(b) {
        let j = choose|j: int| 0 <= j < b.len() && b[j] == 0u8;
        assert(ab[a.len() + j] == 0u8);
    }
    if has_nul(a) {
        let j = choose|j: int| 0 <= j < a.len() && a[j] == 0u8;
        assert(ab[j] == 0u8);
    }
}

/// The encoding of a text holds a NUL byte exactly when the text holds the
/// NUL character: no other character encodes to a zero byte.
pub proof fn lemma_nul_byte_iff_nul_char(s: Seq<char>)
    ensures
        has_nul(encode_utf8(s)) <==> s.contains('\0'),
    decreases s.len(),
{
    if s.len() > 0 {
        let rest = s.drop_first();
        lemma_nul_byte_iff_nul_char(rest);
        char_is_scalar(s[0]);
        char_u32_cast(s[0], s[0] as u32);
        lemma_scalar_nul(s[0] as u32);
        lemma_nul_concat(encode_scalar(s[0] as u32), encode_utf8(rest));
        assert(('\0' as u32) == 0);
        if s.contains('\0') && s[0] != '\0' {
            let i = choose|i: int| 0 <= i < s.len() && s[i] == '\0';
            assert(rest[i - 1] == '\0');
        }
        if rest.contains('\0') {
            let i = choose|i: int| 0 <= i < rest.len() && rest[i] == '\0';
            assert(s[i + 1] == '\0');
        }
        if s[0] == '\0' {
            assert(s[0] as u32 == 0);
        }
    } else {
        assert(!s.contains('\0'));
    }
}

/// Reads a native byte string as host text, permissively.
pub fn text_of_native(b: &[u8]) -> (r: String)
    ensures
        r@ == read_text(b@),
{
    decode_lossy(b)
}

/// Text stored through the binding reads back unchanged: the bytes written
/// for a text decode to that very text.
pub proof fn lemma_text_round_trip(s: Seq<char>)
    ensures
        read_text(encode_utf8(s)) == s,
{
    encode_utf8_valid_utf8(s);
    encode_utf8_decode_utf8(s);
}

/// The character of a decimal digit.
pub open spec fn digit_char(d: nat) -> char {
    seq!['0', '1', '2', '3', '4', '5', '6', '7', '8', '9'][d as int]
}

/// The decimal digits of a natural number, most significant first, with no
/// leading zeros.
pub open spec fn digits_of(n: nat) -> Seq<char>
    decreases n,
{
    if n < 10 {
        seq![digit_char(n)]
    } else {
        digits_of(n / 10).push(digit_char(n % 10))
    }
}

/// The usual decimal form of an integer: a minus sign for negative values,
/// then the digits of its magnitude.
pub open spec fn decimal_of(v: int) -> Seq<char> {
    if v < 0 {
        seq!['-'] + digits_of((-v) as nat)
    } else {
        digits_of(v as nat)
    }
}

fn digit_str(d: u64) -> (r: &'static str)
    requires
        d < 10,
    ensures
        r@ == seq![digit_char(d as nat)],
{
    proof {
        reveal_strlit("0");
        reveal_strlit("1");
        reveal_strlit("2");
        reveal_strlit("3");
        reveal_strlit("4");
        reveal_strlit("5");
        reveal_strlit("6");
        reveal_strlit("7");
        reveal_strlit("8");
        reveal_strlit("9");
    }
    if d == 0 {
        "0"
    } else if d == 1 {
        "1"
    } else if d == 2 {
        "2"
    } else if d == 3 {
        "3"
    } else if d == 4 {
        "4"
    } else if d == 5 {
        "5"
    } else if d == 6 {
        "6"
    } else if d == 7 {
        "7"
    } else if d == 8 {
        "8"
    } else {
        "9"
    }
}

fn push_digits(n: u64, out: &mut String)
    ensures
        final(out)@ == old(out)@ + digits_of(n as nat),
    decreases n,
{
    if n >= 10 {
        push_digits(n / 10, out);
    }
    out.append(digit_str(n % 10));
}

/// Writes an integer in decimal, as the host's integer formatting does.
pub fn decimal(v: i64) -> (r: String)
    ensures
        r@ == decimal_of(v as int),
{
    let mut s = String::new();
    if v < 0 {
        proof {
            reveal_strlit("-");
        }
        s.append("-");
        let mag: u64 = (-(v as i128)) as u64;
        push_digits(mag, &mut s);
    } else {
        push_digits(v as u64, &mut s);
    }
    s
}

} // verus!
