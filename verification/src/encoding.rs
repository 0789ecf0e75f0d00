//! Base64: how bytes are written as text, in groups of six bits.

use vstd::prelude::*;

use crate::text;

verus! {

/// The byte at a place, and zero past the end.
pub open spec fn byte_or_zero(bytes: Seq<u8>, i: int) -> int {
    if i < bytes.len() {
        bytes[i] as int
    } else {
        0
    }
}

/// The `j`-th group of six bits, with zeros past the end.
#[verifier::opaque]
pub open spec fn six_bits(bytes: Seq<u8>, j: int) -> int {
    let first: int = 6 * j / 8;
    let below: int = if 6 * j % 8 == 0 {
        1024
    } else if 6 * j % 8 == 2 {
        256
    } else if 6 * j % 8 == 4 {
        64
    } else {
        16
    };
    (256 * byte_or_zero(bytes, first) + byte_or_zero(bytes, first + 1)) / below % 64
}

/// How many groups of six bits it takes to hold a number of bytes.
pub open spec fn groups(len: nat) -> nat {
    ((4 * len + 2) / 3) as nat
}

/// The character for a group of six bits: the upper-case letters, the lower-case letters, the
/// digits, and two that depend on the alphabet.
pub open spec fn base64_char(value: int, next_to_last: char, last: char) -> char {
    if value < 26 {
        ('A' as int + value) as u8 as char
    } else if value < 52 {
        ('a' as int + (value - 26)) as u8 as char
    } else if value < 62 {
        ('0' as int + (value - 52)) as u8 as char
    } else if value == 62 {
        next_to_last
    } else {
        last
    }
}

/// The unpadded base64url text of some bytes: a character for each group of six bits.
pub open spec fn base64url_text(bytes: Seq<u8>) -> Seq<char> {
    Seq::new(groups(bytes.len()), |j: int| base64_char(six_bits(bytes, j), '-', '_'))
}

/// The padded standard base64 text of some bytes: a character for each group of six bits, and
/// padding up to a multiple of four characters.
pub open spec fn base64_text(bytes: Seq<u8>) -> Seq<char> {
    Seq::new(
        (4 * ((bytes.len() + 2) / 3)) as nat,
        |j: int|
            if j < groups(bytes.len()) {
                base64_char(six_bits(bytes, j), '+', '/')
            } else {
                '='
            },
    )
}

/// The byte that two groups of six bits hold, where `place` is its place among three bytes.
spec fn rebuilt(place: int, left: int, right: int) -> int {
    if place == 0 {
        left * 4 + right / 16
    } else if place == 1 {
        left % 16 * 16 + right / 4
    } else {
        left % 4 * 64 + right
    }
}

proof fn lemma_bytes_split(b: int, c: int)
    requires
        0 <= b < 256,
        0 <= c < 256,
    ensures
        (256 * b + c) / 1024 % 64 == b / 4,
        (256 * b + c) / 16 % 64 == b % 4 * 16 + c / 16,
        (256 * b + c) / 64 % 64 == b % 16 * 4 + c / 64,
        (256 * b + c) / 256 % 64 == b % 64,
{
    let x: u32 = b as u32;
    let y: u32 = c as u32;
    assert((256 * x + y) / 1024 % 64 == x / 4 && (256 * x + y) / 16 % 64 == x % 4 * 16 + y / 16 && (
    256 * x + y) / 64 % 64 == x % 16 * 4 + y / 64 && (256 * x + y) / 256 % 64 == x % 64) by (bit_vector)
        requires
            x < 256,
            y < 256,
    ;
}

proof fn lemma_three_bytes(bytes: Seq<u8>, k: int)
    requires
        k >= 0,
    ensures
        ({
            let b = byte_or_zero(bytes, 3 * k);
            let c = byte_or_zero(bytes, 3 * k + 1);
            let d = byte_or_zero(bytes, 3 * k + 2);
            &&& six_bits(bytes, 4 * k) == b / 4
            &&& six_bits(bytes, 4 * k + 1) == b % 4 * 16 + c / 16
            &&& six_bits(bytes, 4 * k + 2) == c % 16 * 4 + d / 64
            &&& six_bits(bytes, 4 * k + 3) == d % 64
        }),
{
    reveal(six_bits);
    let b: int = byte_or_zero(bytes, 3 * k);
    let c: int = byte_or_zero(bytes, 3 * k + 1);
    let d: int = byte_or_zero(bytes, 3 * k + 2);
    assert(6 * (4 * k) / 8 == 3 * k && 6 * (4 * k) % 8 == 0);
    assert(6 * (4 * k + 1) / 8 == 3 * k && 6 * (4 * k + 1) % 8 == 6);
    assert(6 * (4 * k + 2) / 8 == 3 * k + 1 && 6 * (4 * k + 2) % 8 == 4);
    assert(6 * (4 * k + 3) / 8 == 3 * k + 2 && 6 * (4 * k + 3) % 8 == 2);
    lemma_bytes_split(b, c);
    lemma_bytes_split(c, d);
    lemma_bytes_split(d, byte_or_zero(bytes, 3 * k + 3));
}

proof fn lemma_six_bits_range(bytes: Seq<u8>, j: int)
    ensures
        0 <= six_bits(bytes, j) < 64,
{
    reveal(six_bits);
}

proof fn lemma_rebuilt(bytes: Seq<u8>, i: int)
    requires
        0 <= i < bytes.len(),
    ensures
        4 * i / 3 + 1 < groups(bytes.len()),
        bytes[i] == rebuilt(
            i % 3,
            six_bits(bytes, 4 * i / 3),
            six_bits(bytes, 4 * i / 3 + 1),
        ),
{
    let k: int = i / 3;
    lemma_three_bytes(bytes, k);
    if i % 3 == 0 {
        assert(4 * i / 3 == 4 * k && i == 3 * k);
    } else if i % 3 == 1 {
        assert(4 * i / 3 == 4 * k + 1 && i == 3 * k + 1);
    } else {
        assert(4 * i / 3 == 4 * k + 2 && i == 3 * k + 2);
    }
}

proof fn lemma_base64_chars(v: int, w: int)
    requires
        0 <= v < 64,
        0 <= w < 64,
    ensures
        base64_char(v, '+', '/') != '=',
        !text::is_white(base64_char(v, '+', '/')),
        base64_char(v, '+', '/') == base64_char(w, '+', '/') ==> v == w,
{
}

/// No two byte strings have the same padded base64 text.
pub proof fn law_base64_is_unambiguous(a: Seq<u8>, b: Seq<u8>)
    requires
        base64_text(a) == base64_text(b),
    ensures
        a == b,
{
    lemma_same_len(a, b);
    lemma_same_len(b, a);
    assert forall|i: int| 0 <= i < a.len() implies a[i] == b[i] by {
        lemma_rebuilt(a, i);
        lemma_rebuilt(b, i);
        let j: int = 4 * i / 3;
        assert(base64_text(a)[j] == base64_char(six_bits(a, j), '+', '/'));
        assert(base64_text(b)[j] == base64_char(six_bits(b, j), '+', '/'));
        assert(base64_text(a)[j + 1] == base64_char(six_bits(a, j + 1), '+', '/'));
        assert(base64_text(b)[j + 1] == base64_char(six_bits(b, j + 1), '+', '/'));
        lemma_six_bits_range(a, j);
        lemma_six_bits_range(b, j);
        lemma_six_bits_range(a, j + 1);
        lemma_six_bits_range(b, j + 1);
        lemma_base64_chars(six_bits(a, j), six_bits(b, j));
        lemma_base64_chars(six_bits(a, j + 1), six_bits(b, j + 1));
    }
    assert(a =~= b);
}

proof fn lemma_same_len(a: Seq<u8>, b: Seq<u8>)
    requires
        base64_text(a) == base64_text(b),
    ensures
        a.len() >= b.len(),
{
    if a.len() < b.len() {
        let j: int = groups(a.len()) as int;
        assert(base64_text(a).len() == base64_text(b).len());
        assert(j < base64_text(a).len());
        assert(base64_text(a)[j] == '=');
        assert(j < groups(b.len()));
        lemma_six_bits_range(b, j);
        lemma_base64_chars(six_bits(b, j), 0);
        assert(base64_text(b)[j] != '=');
    }
}

/// There is no white space in base64 text: it is what is left of it between white space.
pub proof fn lemma_base64_is_trimmed(bytes: Seq<u8>)
    ensures
        text::trimmed(base64_text(bytes)) == base64_text(bytes),
{
    let s = base64_text(bytes);
    if s.len() > 0 {
        lemma_six_bits_range(bytes, 0);
        lemma_six_bits_range(bytes, s.len() - 1);
        lemma_base64_chars(six_bits(bytes, 0), 0);
        lemma_base64_chars(six_bits(bytes, s.len() - 1), 0);
        assert(!text::is_white(s[0]));
        assert(!text::is_white(s.last()));
    }
}

} // verus!
