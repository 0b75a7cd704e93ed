//! Byte-level building blocks for the token issuer: ASCII literals,
//! decimal rendering of timestamps, JSON string escaping, and the
//! URL-safe base64 alphabet without padding that tokens use.
//!
//! Everything here is executable code proved against the spec
//! functions beside it; the only trusted step is the final conversion
//! of a finished ASCII byte buffer into a `String`.

use vstd::prelude::*;

verus! {

/// The bytes of a string whose characters are all ASCII; characters
/// beyond ASCII are clipped, so callers only apply this to literals.
pub open spec fn lit_bytes(s: Seq<char>) -> Seq<u8> {
    Seq::new(s.len(), |i: int| (s[i] as u32) as u8)
}

/// The characters spelled by a buffer of ASCII bytes.
pub open spec fn ascii_chars(b: Seq<u8>) -> Seq<char> {
    Seq::new(b.len(), |i: int| ((b[i] as u32) as char))
}

/// Appends the bytes of an ASCII string literal to `out`.
pub fn push_lit(out: &mut Vec<u8>, s: &str)
    ensures
        final(out)@ == old(out)@ + lit_bytes(s@),
{
    let n = s.unicode_len();
    let mut i: usize = 0;
    while i < n
        invariant
            i <= n,
            n == s@.len(),
            out@ == old(out)@ + lit_bytes(s@.take(i as int)),
        decreases n - i,
    {
        let c = s.get_char(i);
        out.push(#[verifier::truncate] ((c as u32) as u8));
        i += 1;
        proof {
            assert(lit_bytes(s@.take(i as int)) =~= lit_bytes(s@.take(i as int - 1)).push(
                (s@[i as int - 1] as u32) as u8,
            ));
        }
    }
    proof {
        assert(s@.take(n as int) =~= s@);
    }
}

/// The decimal digits of a natural number, most significant first.
pub open spec fn dec_digits(n: nat) -> Seq<u8>
    decreases n,
{
    if n < 10 {
        seq![(48 + n) as u8]
    } else {
        dec_digits(n / 10) + seq![(48 + n % 10) as u8]
    }
}

/// The decimal rendering of an integer: a minus sign for negative
/// values, then the digits of the magnitude.
pub open spec fn dec_bytes(n: int) -> Seq<u8> {
    if n < 0 {
        seq![45u8] + dec_digits((-n) as nat)
    } else {
        dec_digits(n as nat)
    }
}

/// Appends the decimal digits of `n` to `out`.
pub fn push_u64_dec(out: &mut Vec<u8>, n: u64)
    ensures
        final(out)@ == old(out)@ + dec_digits(n as nat),
    decreases n,
{
    if n < 10 {
        out.push(48 + (n as u8));
        proof {
            assert(out@ =~= old(out)@ + dec_digits(n as nat));
        }
    } else {
        push_u64_dec(out, n / 10);
        out.push(48 + ((n % 10) as u8));
        proof {
            assert(out@ =~= old(out)@ + (dec_digits((n / 10) as nat) + seq![
                (48 + (n as nat) % 10) as u8,
            ]));
        }
    }
}

/// Appends the decimal rendering of a signed value to `out`.
pub fn push_i64_dec(out: &mut Vec<u8>, n: i64)
    ensures
        final(out)@ == old(out)@ + dec_bytes(n as int),
{
    if n >= 0 {
        push_u64_dec(out, n as u64);
    } else {
        out.push(45u8);
        let m: u64 = ((-(n + 1)) as u64) + 1;
        assert(m as nat == (-(n as int)) as nat);
        push_u64_dec(out, m);
        proof {
            assert(out@ =~= old(out)@ + (seq![45u8] + dec_digits((-(n as int)) as nat)));
        }
    }
}

/// One lower-case hexadecimal digit.
pub open spec fn hex_digit(v: u32) -> u8 {
    if v < 10 {
        (48 + v) as u8
    } else {
        (87 + v) as u8
    }
}

/// The four hexadecimal digits of a value below 2^16.
pub open spec fn hex4(v: u32) -> Seq<u8> {
    seq![
        hex_digit((v >> 12) & 15),
        hex_digit((v >> 8) & 15),
        hex_digit((v >> 4) & 15),
        hex_digit(v & 15),
    ]
}

proof fn lemma_and15_below16(v: u32)
    ensures
        v & 15 < 16,
{
    assert(v & 15 < 16) by (bit_vector);
}

fn hex_digit_exec(v: u32) -> (r: u8)
    requires
        v < 16,
    ensures
        r == hex_digit(v),
{
    if v < 10 {
        (48 + v) as u8
    } else {
        (87 + v) as u8
    }
}

/// Appends the four hex digits of `v` to `out`.
fn push_hex4(out: &mut Vec<u8>, v: u32)
    requires
        v < 65536,
    ensures
        final(out)@ == old(out)@ + hex4(v),
{
    proof {
        lemma_and15_below16(v >> 12);
        lemma_and15_below16(v >> 8);
        lemma_and15_below16(v >> 4);
        lemma_and15_below16(v);
    }
    out.push(hex_digit_exec((v >> 12) & 15));
    out.push(hex_digit_exec((v >> 8) & 15));
    out.push(hex_digit_exec((v >> 4) & 15));
    out.push(hex_digit_exec(v & 15));
    proof {
        assert(out@ =~= old(out)@ + hex4(v));
    }
}

/// The bytes a character contributes to a JSON string: quote and
/// backslash get a backslash escape, control characters and everything
/// beyond ASCII a universal escape (a surrogate pair above 2^16), and
/// plain ASCII passes through, so the whole rendering stays ASCII.
pub open spec fn escape_char(c: char) -> Seq<u8> {
    let u = c as u32;
    if c == '"' {
        seq![92u8, 34u8]
    } else if c == '\\' {
        seq![92u8, 92u8]
    } else if u < 32 {
        seq![92u8, 117u8, 48u8, 48u8, hex_digit((u >> 4) & 15), hex_digit(u & 15)]
    } else if u < 128 {
        seq![u as u8]
    } else if u < 65536 {
        seq![92u8, 117u8] + hex4(u)
    } else {
        let v = (u - 0x10000) as u32;
        seq![92u8, 117u8] + hex4((0xD800 + (v >> 10)) as u32) + seq![92u8, 117u8] + hex4(
            (0xDC00 + (v & 0x3FF)) as u32,
        )
    }
}

/// The JSON rendering of a string's characters, without the quotes.
pub open spec fn json_escaped(s: Seq<char>) -> Seq<u8>
    decreases s.len(),
{
    if s.len() == 0 {
        Seq::empty()
    } else {
        json_escaped(s.drop_last()) + escape_char(s.last())
    }
}

/// Appends the escape of one character to `out`.
fn push_escape_char(out: &mut Vec<u8>, c: char)
    ensures
        final(out)@ == old(out)@ + escape_char(c),
{
    let u = c as u32;
    if c == '"' {
        out.push(92u8);
        out.push(34u8);
        proof {
            assert(out@ =~= old(out)@ + escape_char(c));
        }
    } else if c == '\\' {
        out.push(92u8);
        out.push(92u8);
        proof {
            assert(out@ =~= old(out)@ + escape_char(c));
        }
    } else if u < 32 {
        proof {
            lemma_and15_below16(u >> 4);
            lemma_and15_below16(u);
        }
        out.push(92u8);
        out.push(117u8);
        out.push(48u8);
        out.push(48u8);
        out.push(hex_digit_exec((u >> 4) & 15));
        out.push(hex_digit_exec(u & 15));
        proof {
            assert(out@ =~= old(out)@ + escape_char(c));
        }
    } else if u < 128 {
        out.push(u as u8);
        proof {
            assert(out@ =~= old(out)@ + escape_char(c));
        }
    } else if u < 65536 {
        out.push(92u8);
        out.push(117u8);
        push_hex4(out, u);
        proof {
            assert(out@ =~= old(out)@ + escape_char(c));
        }
    } else {
        let v = u - 0x10000;
        proof {
            assert(u <= 0x10FFFF);
            assert(v >> 10 <= 0x3FF) by (bit_vector)
                requires
                    v <= 0xFFFFF,
            ;
            lemma_and15_below16(v);
            assert(v & 0x3FF <= 0x3FF) by (bit_vector);
        }
        out.push(92u8);
        out.push(117u8);
        push_hex4(out, 0xD800 + (v >> 10));
        out.push(92u8);
        out.push(117u8);
        push_hex4(out, 0xDC00 + (v & 0x3FF));
        proof {
            assert(out@ =~= old(out)@ + escape_char(c));
        }
    }
}

/// Appends the JSON escape of every character of `s` to `out`.
pub fn push_json_escaped(out: &mut Vec<u8>, s: &str)
    ensures
        final(out)@ == old(out)@ + json_escaped(s@),
{
    let n = s.unicode_len();
    let mut i: usize = 0;
    while i < n
        invariant
            i <= n,
            n == s@.len(),
            out@ == old(out)@ + json_escaped(s@.take(i as int)),
        decreases n - i,
    {
        let c = s.get_char(i);
        push_escape_char(out, c);
        i += 1;
        proof {
            assert(s@.take(i as int).drop_last() =~= s@.take(i as int - 1));
            assert(s@.take(i as int).last() == c);
        }
    }
    proof {
        assert(s@.take(n as int) =~= s@);
    }
}

/// One character of the URL-safe base64 alphabet, as a byte.
pub open spec fn b64_byte(v: u8) -> u8 {
    if v < 26 {
        (65 + v) as u8
    } else if v < 52 {
        (71 + v) as u8
    } else if v < 62 {
        (v - 4) as u8
    } else if v == 62 {
        45u8
    } else {
        95u8
    }
}

/// URL-safe base64 without padding: full groups of three bytes become
/// four characters; a final group of one or two bytes becomes two or
/// three.
pub open spec fn b64url(s: Seq<u8>) -> Seq<u8>
    decreases s.len(),
{
    if s.len() >= 3 {
        seq![
            b64_byte(s[0] >> 2),
            b64_byte(((s[0] & 3) << 4) | (s[1] >> 4)),
            b64_byte(((s[1] & 15) << 2) | (s[2] >> 6)),
            b64_byte(s[2] & 63),
        ] + b64url(s.skip(3))
    } else if s.len() == 2 {
        seq![
            b64_byte(s[0] >> 2),
            b64_byte(((s[0] & 3) << 4) | (s[1] >> 4)),
            b64_byte((s[1] & 15) << 2),
        ]
    } else if s.len() == 1 {
        seq![b64_byte(s[0] >> 2), b64_byte((s[0] & 3) << 4)]
    } else {
        Seq::empty()
    }
}

fn b64_byte_exec(v: u8) -> (r: u8)
    ensures
        r == b64_byte(v),
{
    if v < 26 {
        65 + v
    } else if v < 52 {
        71 + v
    } else if v < 62 {
        v - 4
    } else if v == 62 {
        45u8
    } else {
        95u8
    }
}

/// Encodes a byte buffer in URL-safe base64 without padding.
pub fn b64url_encode(input: &Vec<u8>) -> (out: Vec<u8>)
    ensures
        out@ == b64url(input@),
{
    let n = input.len();
    let mut out: Vec<u8> = Vec::new();
    let mut i: usize = 0;
    proof {
        assert(input@.skip(0) =~= input@);
    }
    while n - i >= 3
        invariant
            i <= n,
            n == input@.len(),
            b64url(input@) == out@ + b64url(input@.skip(i as int)),
        decreases n - i,
    {
        let a = input[i];
        let b = input[i + 1];
        let c = input[i + 2];
        proof {
            let s = input@.skip(i as int);
            assert(s.len() >= 3);
            assert(s[0] == a && s[1] == b && s[2] == c);
            assert(s.skip(3) =~= input@.skip(i as int + 3));
        }
        out.push(b64_byte_exec(a >> 2));
        out.push(b64_byte_exec(((a & 3) << 4) | (b >> 4)));
        out.push(b64_byte_exec(((b & 15) << 2) | (c >> 6)));
        out.push(b64_byte_exec(c & 63));
        i += 3;
    }
    if n - i == 1 {
        let a = input[i];
        proof {
            let s = input@.skip(i as int);
            assert(s.len() == 1);
            assert(s[0] == a);
        }
        out.push(b64_byte_exec(a >> 2));
        out.push(b64_byte_exec((a & 3) << 4));
    } else if n - i == 2 {
        let a = input[i];
        let b = input[i + 1];
        proof {
            let s = input@.skip(i as int);
            assert(s.len() == 2);
            assert(s[0] == a && s[1] == b);
        }
        out.push(b64_byte_exec(a >> 2));
        out.push(b64_byte_exec(((a & 3) << 4) | (b >> 4)));
        out.push(b64_byte_exec((b & 15) << 2));
    } else {
        proof {
            assert(input@.skip(i as int).len() == 0);
        }
    }
    out
}

/// Every byte base64 encoding produces is printable ASCII.
pub proof fn lemma_b64url_ascii(s: Seq<u8>)
    ensures
        forall|i: int| 0 <= i < b64url(s).len() ==> b64url(s)[i] < 128,
    decreases s.len(),
{
    if s.len() >= 3 {
        lemma_b64url_ascii(s.skip(3));
        assert forall|i: int| 0 <= i < b64url(s).len() implies b64url(s)[i] < 128 by {
            if 4 <= i {
                assert(b64url(s)[i] == b64url(s.skip(3))[i - 4]);
            }
        }
    }
}

/// Relies on `String::from_utf8`: bytes below 128 are valid UTF-8 and
/// decode to exactly one character each, with the same numeric value.
#[verifier::external_body]
pub fn ascii_to_string(bytes: Vec<u8>) -> (r: String)
    requires
        forall|i: int| 0 <= i < bytes@.len() ==> bytes@[i] < 128,
    ensures
        r@ == ascii_chars(bytes@),
{
    match String::from_utf8(bytes) {
        Ok(s) => s,
        Err(_) => String::new(),
    }
}

} // verus!
