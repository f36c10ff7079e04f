use vstd::prelude::*;

verus! {

/// Whether a byte may stand unescaped in one segment of a URL path: printable
/// ASCII other than the characters that delimit or quote parts of a URL.
pub open spec fn path_safe(b: u8) -> bool {
    0x20 < b && b < 0x7f && b != 0x22 && b != 0x23 && b != 0x25 && b != 0x2f && b != 0x3c && b
        != 0x3e && b != 0x3f && b != 0x60 && b != 0x7b && b != 0x7d
}

/// The upper-case hexadecimal digit for a value below sixteen.
pub open spec fn hex_digit(n: u8) -> u8 {
    if n < 10 {
        (0x30 + n) as u8
    } else {
        (0x41 + n - 10) as u8
    }
}

/// The bytes that stand for one byte of a path segment.
pub open spec fn escape_byte(b: u8) -> Seq<u8> {
    if path_safe(b) {
        seq![b]
    } else {
        seq![0x25u8, hex_digit(b / 16), hex_digit(b % 16)]
    }
}

/// Percent-encoding of a byte string, byte by byte.
pub open spec fn escape_bytes(bytes: Seq<u8>) -> Seq<u8>
    decreases bytes.len(),
{
    if bytes.len() == 0 {
        Seq::empty()
    } else {
        escape_bytes(bytes.drop_last()) + escape_byte(bytes.last())
    }
}

/// The characters of an ASCII byte string.
pub open spec fn ascii_chars(bytes: Seq<u8>) -> Seq<char> {
    Seq::new(bytes.len(), |i: int| bytes[i] as char)
}

pub open spec fn all_ascii(bytes: Seq<u8>) -> bool {
    forall|i: int| 0 <= i < bytes.len() ==> bytes[i] < 0x80
}

/// A text as it stands in one segment of a URL path: its UTF-8 bytes,
/// percent-encoded.
pub open spec fn path_segment(s: Seq<char>) -> Seq<char> {
    ascii_chars(escape_bytes(vstd::utf8::encode_utf8(s)))
}

/// The decimal digits of a natural number.
pub open spec fn digits(n: nat) -> Seq<u8>
    decreases n,
{
    if n < 10 {
        seq![(0x30 + n) as u8]
    } else {
        digits(n / 10).push((0x30 + n % 10) as u8)
    }
}

/// A signed integer written in decimal, with a leading `-` when negative.
pub open spec fn decimal(n: int) -> Seq<char> {
    if n < 0 {
        seq!['-'] + ascii_chars(digits((-n) as nat))
    } else {
        ascii_chars(digits(n as nat))
    }
}

proof fn lemma_escape_byte_ascii(b: u8)
    ensures
        all_ascii(escape_byte(b)),
{
}

proof fn lemma_digits_ascii(n: nat)
    ensures
        all_ascii(digits(n)),
    decreases n,
{
    if n >= 10 {
        lemma_digits_ascii(n / 10);
    }
}

/// Relies on `String::from_utf8`: bytes below 0x80 are valid UTF-8, one
/// character each.
#[verifier::external_body]
fn ascii_string(bytes: Vec<u8>) -> (r: String)
    requires
        all_ascii(bytes@),
    ensures
        r@ == ascii_chars(bytes@),
{
    match String::from_utf8(bytes) {
        Ok(s) => s,
        Err(_) => String::new(),
    }
}

fn hex_digit_exec(n: u8) -> (r: u8)
    requires
        n < 16,
    ensures
        r == hex_digit(n),
{
    if n < 10 {
        0x30 + n
    } else {
        0x41 + n - 10
    }
}

fn is_path_safe(b: u8) -> (r: bool)
    ensures
        r == path_safe(b),
{
    0x20 < b && b < 0x7f && b != 0x22 && b != 0x23 && b != 0x25 && b != 0x2f && b != 0x3c && b
        != 0x3e && b != 0x3f && b != 0x60 && b != 0x7b && b != 0x7d
}

/// Percent-encodes a text for use as one segment of a URL path. Every byte
/// outside printable ASCII, and each of space, `"`, `#`, `%`, `/`, `<`, `>`,
/// `?`, `` ` ``, `{` and `}`, becomes `%` and two upper-case hex digits, so a
/// value can never open a further segment.
pub fn encode_path(pc: &str) -> (r: String)
    ensures
        r@ == path_segment(pc@),
{
    let bytes = pc.as_bytes();
    let mut out: Vec<u8> = Vec::new();
    let mut i: usize = 0;
    while i < bytes.len()
        invariant
            bytes@ == vstd::utf8::encode_utf8(pc@),
            i <= bytes@.len(),
            out@ == escape_bytes(bytes@.subrange(0, i as int)),
            all_ascii(out@),
        decreases bytes@.len() - i,
    {
        let b = bytes[i];
        let ghost prev = out@;
        proof {
            lemma_escape_byte_ascii(b);
        }
        if is_path_safe(b) {
            out.push(b);
        } else {
            out.push(0x25);
            out.push(hex_digit_exec(b / 16));
            out.push(hex_digit_exec(b % 16));
        }
        assert(bytes@.subrange(0, i + 1).drop_last() == bytes@.subrange(0, i as int));
        assert(out@ == prev + escape_byte(b));
        i = i + 1;
    }
    assert(bytes@.subrange(0, bytes@.len() as int) == bytes@);
    ascii_string(out)
}

fn push_digits(n: u64, out: &mut Vec<u8>)
    ensures
        final(out)@ == old(out)@ + digits(n as nat),
    decreases n,
{
    if n >= 10 {
        push_digits(n / 10, out);
    }
    out.push(0x30 + (n % 10) as u8);
}

/// Writes an integer in decimal, as `to_string` does.
pub fn format_i64(n: i64) -> (r: String)
    ensures
        r@ == decimal(n as int),
{
    let mut out: Vec<u8> = Vec::new();
    let magnitude: u64 = if n < 0 {
        (-(n as i128)) as u64
    } else {
        n as u64
    };
    if n < 0 {
        out.push(0x2d);
    }
    push_digits(magnitude, &mut out);
    proof {
        lemma_digits_ascii(magnitude as nat);
        if n < 0 {
            assert(out@ == seq![0x2du8] + digits(magnitude as nat));
            assert(ascii_chars(out@) == seq!['-'] + ascii_chars(digits(magnitude as nat)));
        } else {
            assert(out@ == digits(magnitude as nat));
        }
    }
    ascii_string(out)
}

} // verus!
