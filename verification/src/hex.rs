//! Hexadecimal text.

use vstd::prelude::*;
use vstd::string::*;

use crate::outside::random_bytes;

verus! {

/// The digit for a number below 16.
pub open spec fn hex_char(n: int) -> char {
    "0123456789abcdef"@[n]
}

/// Two lower-case digits for each byte, the high half first.
pub open spec fn hex_text(bytes: Seq<u8>) -> Seq<char>
    decreases bytes.len(),
{
    if bytes.len() == 0 {
        Seq::empty()
    } else {
        hex_text(bytes.drop_last()) + seq![
            hex_char(bytes.last() as int / 16),
            hex_char(bytes.last() as int % 16),
        ]
    }
}

/// Whether a text is the hexadecimal form of `count` bytes.
pub open spec fn is_hex_of(text: Seq<char>, count: nat) -> bool {
    exists|bytes: Seq<u8>| bytes.len() == count && #[trigger] hex_text(bytes) == text
}

fn hex_digit(n: u8) -> (r: &'static str)
    requires
        n < 16,
    ensures
        r@ == seq![hex_char(n as int)],
{
    proof {
        reveal_strlit("0123456789abcdef");
        reveal_strlit("0");
        reveal_strlit("1");
        reveal_strlit("2");
        reveal_strlit("3");
        reveal_strlit("4");
        reveal_strlit("5");
        reveal_strlit("6");
        reveal_strlit("7");
        reveal_strlit("8");
        reveal_strlit("9");
        reveal_strlit("a");
        reveal_strlit("b");
        reveal_strlit("c");
        reveal_strlit("d");
        reveal_strlit("e");
        reveal_strlit("f");
    }
    match n {
        0 => "0",
        1 => "1",
        2 => "2",
        3 => "3",
        4 => "4",
        5 => "5",
        6 => "6",
        7 => "7",
        8 => "8",
        9 => "9",
        10 => "a",
        11 => "b",
        12 => "c",
        13 => "d",
        14 => "e",
        _ => "f",
    }
}

/// The bytes as lower-case hexadecimal text.
pub fn hex_encode(bytes: &[u8]) -> (r: String)
    ensures
        r@ == hex_text(bytes@),
{
    let mut text: String = String::new();
    let mut i: usize = 0;
    while i < bytes.len()
        invariant
            i <= bytes@.len(),
            text@ == hex_text(bytes@.take(i as int)),
        decreases bytes@.len() - i,
    {
        let b: u8 = bytes[i];
        text.append(hex_digit(b / 16));
        text.append(hex_digit(b % 16));
        proof {
            let next = bytes@.take(i + 1);
            assert(next.drop_last() =~= bytes@.take(i as int));
            assert(next.last() == b);
        }
        i = i + 1;
    }
    proof {
        assert(bytes@.take(bytes@.len() as int) =~= bytes@);
    }
    text
}

/// The hexadecimal text of as many random bytes as asked for.
pub fn random_hex(bytes: usize) -> (r: String)
    requires
        bytes <= usize::MAX / 4,
    ensures
        is_hex_of(r@, bytes as nat),
        r@.len() == 2 * bytes,
{
    let drawn: Vec<u8> = random_bytes(bytes);
    let text: String = hex_encode(drawn.as_slice());
    proof {
        lemma_hex_len(drawn@);
    }
    text
}

/// The hexadecimal text of some bytes is twice as long as the bytes.
pub proof fn lemma_hex_len(bytes: Seq<u8>)
    ensures
        hex_text(bytes).len() == 2 * bytes.len(),
    decreases bytes.len(),
{
    if bytes.len() > 0 {
        lemma_hex_len(bytes.drop_last());
    }
}

/// Different bytes have different hexadecimal texts.
pub proof fn lemma_hex_injective(a: Seq<u8>, b: Seq<u8>)
    requires
        hex_text(a) == hex_text(b),
    ensures
        a == b,
    decreases a.len(),
{
    lemma_hex_len(a);
    lemma_hex_len(b);
    if a.len() > 0 {
        let ta = hex_text(a);
        let tb = hex_text(b);
        let n = ta.len() as int;
        lemma_hex_len(a.drop_last());
        lemma_hex_len(b.drop_last());
        assert(ta.take(n - 2) =~= hex_text(a.drop_last()));
        assert(tb.take(n - 2) =~= hex_text(b.drop_last()));
        lemma_hex_injective(a.drop_last(), b.drop_last());
        assert(ta[n - 2] == hex_char(a.last() as int / 16));
        assert(tb[n - 2] == hex_char(b.last() as int / 16));
        assert(ta[n - 1] == hex_char(a.last() as int % 16));
        assert(tb[n - 1] == hex_char(b.last() as int % 16));
        lemma_hex_char_injective(a.last() as int / 16, b.last() as int / 16);
        lemma_hex_char_injective(a.last() as int % 16, b.last() as int % 16);
        assert(a.last() == b.last());
        assert(a =~= a.drop_last().push(a.last()));
        assert(b =~= b.drop_last().push(b.last()));
    }
}

proof fn lemma_hex_char_injective(m: int, n: int)
    requires
        0 <= m < 16,
        0 <= n < 16,
        hex_char(m) == hex_char(n),
    ensures
        m == n,
{
    reveal_strlit("0123456789abcdef");
}

} // verus!
