//! Texts: white space, numbers, durations, lists, digits.

use vstd::prelude::*;

use crate::records::AccessLevel;
use crate::{cli, duration, hex, text};

verus! {

// ---------------------------------------------------------------------------
// White space
// ---------------------------------------------------------------------------
/// Whether a part of a text is what is left of it between white space: everything around the part is
/// white space, and the part neither begins nor ends with any.
pub open spec fn is_core(s: Seq<char>, i: int, j: int) -> bool {
    &&& 0 <= i <= j <= s.len()
    &&& forall|k: int| 0 <= k < i ==> text::is_white(#[trigger] s[k])
    &&& forall|k: int| j <= k < s.len() ==> text::is_white(#[trigger] s[k])
    &&& i < j ==> !text::is_white(s[i]) && !text::is_white(s[j - 1])
}

/// White space is what Unicode calls so: in ASCII the space and the characters from the tab to the
/// carriage return, and nothing that can be seen.
pub proof fn law_white_space(c: char)
    ensures
        c as int <= 0x7f ==> (text::is_white(c) <==> c == ' ' || '\t' <= c <= '\r'),
        c as int > 0x7f ==> (text::is_white(c) <==> seq![
            0x85int,
            0xa0,
            0x1680,
            0x2000,
            0x2001,
            0x2002,
            0x2003,
            0x2004,
            0x2005,
            0x2006,
            0x2007,
            0x2008,
            0x2009,
            0x200a,
            0x2028,
            0x2029,
            0x202f,
            0x205f,
            0x3000,
        ].contains(c as int)),
{
    let list = seq![
        0x85int,
        0xa0,
        0x1680,
        0x2000,
        0x2001,
        0x2002,
        0x2003,
        0x2004,
        0x2005,
        0x2006,
        0x2007,
        0x2008,
        0x2009,
        0x200a,
        0x2028,
        0x2029,
        0x202f,
        0x205f,
        0x3000,
    ];
    let n = c as int;
    if c as int > 0x7f && text::is_white(c) {
        if 0x2000 <= n <= 0x200a {
            assert(list[n - 0x2000 + 3] == n);
        } else {
            assert(list[0] == 0x85 && list[1] == 0xa0 && list[2] == 0x1680 && list[14] == 0x2028
                && list[15] == 0x2029 && list[16] == 0x202f && list[17] == 0x205f && list[18]
                == 0x3000);
        }
    }
}

proof fn lemma_skipped_front(s: Seq<char>) -> (i: int)
    ensures
        0 <= i <= s.len(),
        text::skip_white(s) == s.skip(i),
        forall|k: int| 0 <= k < i ==> text::is_white(#[trigger] s[k]),
        i < s.len() ==> !text::is_white(s[i]),
    decreases s.len(),
{
    if s.len() > 0 && text::is_white(s[0]) {
        let rest = s.drop_first();
        let i = lemma_skipped_front(rest);
        assert(s.skip(i + 1) =~= rest.skip(i));
        assert forall|k: int| 0 <= k < i + 1 implies text::is_white(#[trigger] s[k]) by {
            if k > 0 {
                assert(rest[k - 1] == s[k]);
            }
        }
        if i + 1 < s.len() {
            assert(rest[i] == s[i + 1]);
        }
        i + 1
    } else {
        assert(s.skip(0) =~= s);
        0
    }
}

proof fn lemma_dropped_back(s: Seq<char>) -> (j: int)
    ensures
        0 <= j <= s.len(),
        text::drop_white(s) == s.take(j),
        forall|k: int| j <= k < s.len() ==> text::is_white(#[trigger] s[k]),
        j > 0 ==> !text::is_white(s[j - 1]),
    decreases s.len(),
{
    if s.len() > 0 && text::is_white(s.last()) {
        let rest = s.drop_last();
        let j = lemma_dropped_back(rest);
        assert(s.take(j) =~= rest.take(j));
        assert forall|k: int| j <= k < s.len() implies text::is_white(#[trigger] s[k]) by {
            if k < rest.len() {
                assert(rest[k] == s[k]);
            }
        }
        if j > 0 {
            assert(rest[j - 1] == s[j - 1]);
        }
        j
    } else {
        assert(s.take(s.len() as int) =~= s);
        s.len() as int
    }
}

/// To trim a text is to leave what is between the white space at its ends.
pub proof fn law_trimmed_text_is_the_core(s: Seq<char>)
    ensures
        exists|i: int, j: int| is_core(s, i, j) && text::trimmed(s) == #[trigger] s.subrange(i, j),
{
    let i = lemma_skipped_front(s);
    let rest = s.skip(i);
    let n = lemma_dropped_back(rest);
    let j: int = i + n;
    assert(rest.take(n) =~= s.subrange(i, j));
    assert forall|k: int| j <= k < s.len() implies text::is_white(#[trigger] s[k]) by {
        assert(rest[k - i] == s[k]);
    }
    if i < j {
        assert(rest[n - 1] == s[j - 1]);
    }
    assert(is_core(s, i, j));
}

/// A text is blank exactly if it is nothing but white space.
pub proof fn law_blank_text_is_white_space(s: Seq<char>)
    ensures
        text::is_blank(s) <==> forall|k: int| 0 <= k < s.len() ==> text::is_white(#[trigger] s[k]),
{
    law_trimmed_text_is_the_core(s);
    let (i, j) = choose|i: int, j: int|
        is_core(s, i, j) && text::trimmed(s) == #[trigger] s.subrange(i, j);
    if i < j {
        assert(!text::is_white(s[i]));
    }
}

/// A text holds another exactly if the other stands somewhere in it.
pub proof fn law_part_of_a_text(left: Seq<char>, part: Seq<char>, right: Seq<char>, s: Seq<char>)
    ensures
        text::holds_part(left + part + right, part),
        text::holds_part(s, part) ==> exists|i: int, j: int|
            0 <= i <= j <= s.len() && #[trigger] s.subrange(i, j) == part,
{
    let whole = left + part + right;
    let at: int = left.len() as int;
    assert(whole.subrange(at, at + part.len()) =~= part);
    if text::holds_part(s, part) {
        let i = choose|i: int|
            0 <= i <= s.len() - part.len() && #[trigger] s.subrange(i, i + part.len()) == part;
        let j: int = i + part.len();
        assert(s.subrange(i, j) == part);
    }
}

// ---------------------------------------------------------------------------
// Durations
// ---------------------------------------------------------------------------
/// Digits count tens: one more digit makes ten of what there was, and its own.
pub proof fn law_digits_count_tens(digits: Seq<char>, digit: char)
    requires
        '0' <= digit <= '9',
    ensures
        duration::decimal_value(Seq::empty()) == 0,
        duration::decimal_value(digits.push(digit)) == 10 * duration::decimal_value(digits) + (
        digit as int - 0x30),
{
    assert(digits.push(digit).drop_last() =~= digits);
}

/// Whether digits write a number.
pub open spec fn spells(digits: Seq<char>, n: int) -> bool {
    &&& digits.len() > 0
    &&& forall|i: int| 0 <= i < digits.len() ==> '0' <= #[trigger] digits[i] && digits[i] <= '9'
    &&& duration::decimal_value(digits) == n
}

/// Whether a text writes a number: digits, possibly behind a plus sign.
pub open spec fn writes(s: Seq<char>, n: int) -> bool {
    if s.len() > 0 && s[0] == '+' {
        spells(s.drop_first(), n)
    } else {
        spells(s, n)
    }
}

/// A number is digits, possibly behind a plus sign, and counts if it fits in 64 bits.
pub proof fn law_what_a_number_is(s: Seq<char>, n: u64)
    ensures
        duration::number_of(s) == Some(n) <==> writes(s, n as int),
{
    let digits = duration::unsigned_part(s);
    if writes(s, n as int) {
        assert forall|i: int| 0 <= i < digits.len() implies duration::is_digit(
            #[trigger] digits[i],
        ) by {}
        assert(duration::all_digits(digits));
    }
    if duration::number_of(s) == Some(n) {
        assert forall|i: int| 0 <= i < digits.len() implies '0' <= #[trigger] digits[i]
            && digits[i] <= '9' by {
            assert(duration::is_digit(digits[i]));
        }
    }
}

/// A duration is a number of seconds, or a number with a suffix: `s` for seconds, `m` for minutes, `h`
/// for hours, with or without white space in between. Nothing else is a duration.
pub proof fn law_what_a_duration_is(s: Seq<char>, n: u64)
    ensures
        ({
            let t = text::trimmed(s);
            let count = duration::number_of(text::trimmed(t.drop_last()));
            duration::duration_seconds(s) == Ok::<u64, Seq<char>>(n) <==> t.len() > 0 && (
            duration::number_of(t) == Some(n) || (duration::number_of(t) is None && count is Some
                && ((t.last() == 's' && count->0 == n) || (t.last() == 'm' && count->0 * 60 == n)
                || (t.last() == 'h' && count->0 * 3600 == n))))
        }),
{
    let t = text::trimmed(s);
    let count = duration::number_of(text::trimmed(t.drop_last()));
    if t.len() > 0 && duration::number_of(t) is None && count is Some {
        let c: int = count->0 as int;
        if t.last() == 's' {
            assert(duration::seconds_per(t.last()) == Some(1u64));
            assert(count->0 * 1u64 == c);
        } else if t.last() == 'm' {
            assert(duration::seconds_per(t.last()) == Some(60u64));
            assert(count->0 * 60u64 == c * 60);
        } else if t.last() == 'h' {
            assert(duration::seconds_per(t.last()) == Some(3600u64));
            assert(count->0 * 3600u64 == c * 3600);
        }
    }
}

/// What is no duration is refused with the reason: it is empty, it lacks a number, it has another
/// suffix, or it does not fit.
pub proof fn law_refused_duration_is_explained(s: Seq<char>)
    ensures
        ({
            let t = text::trimmed(s);
            let count = duration::number_of(text::trimmed(t.drop_last()));
            let answer = duration::duration_seconds(s);
            let suffixed = t.last() == 's' || t.last() == 'm' || t.last() == 'h';
            &&& t.len() == 0 ==> answer == Err::<u64, Seq<char>>("empty duration string"@)
            &&& t.len() > 0 && answer is Err ==> answer == Err::<u64, Seq<char>>(
                "invalid duration \""@ + t + if !suffixed {
                    "\": expected a number with optional suffix (s, m, h)"@
                } else if count is None {
                    "\": numeric part is not a valid integer"@
                } else {
                    "\": value overflows"@
                },
            )
        }),
{
}

// ---------------------------------------------------------------------------
// Lists of users
// ---------------------------------------------------------------------------
/// A text without separator is a list of itself, and a separator ends one entry and begins the next.
pub proof fn law_list_is_split_at_separators(left: Seq<char>, entry: Seq<char>, separator: char)
    requires
        forall|i: int| 0 <= i < entry.len() ==> #[trigger] entry[i] != separator,
    ensures
        cli::split(entry, separator) == seq![entry],
        cli::split(left.push(separator) + entry, separator) == cli::split(left, separator).push(
            entry,
        ),
    decreases entry.len(),
{
    if entry.len() == 0 {
        assert(entry =~= Seq::<char>::empty());
        assert(left.push(separator) + entry =~= left.push(separator));
        assert(left.push(separator).drop_last() =~= left);
    } else {
        let rest = entry.drop_last();
        assert forall|i: int| 0 <= i < rest.len() implies #[trigger] rest[i] != separator by {
            assert(entry[i] != separator);
        }
        law_list_is_split_at_separators(left, rest, separator);
        let whole = left.push(separator) + entry;
        assert(whole.drop_last() =~= left.push(separator) + rest);
        assert(whole.last() == entry.last());
        assert(entry.last() == entry[entry.len() - 1]);
        assert(rest.push(entry.last()) =~= entry);
        assert(cli::split(entry, separator) =~= seq![entry]);
        assert(cli::split(whole, separator) =~= cli::split(left, separator).push(entry));
    }
}

/// The users of a list are those that its entries name, in the order of the entries; an entry that
/// names nobody is left out.
pub proof fn law_entries_name_users(entries: Seq<Seq<char>>, entry: Seq<char>)
    ensures
        cli::users_named(Seq::empty()) == Seq::<cli::UserView>::empty(),
        cli::user_named(cli::split(entry, ':')) is None ==> cli::users_named(entries.push(entry))
            == cli::users_named(entries),
        cli::user_named(cli::split(entry, ':')) matches Some(user) ==> cli::users_named(
            entries.push(entry),
        ) == cli::users_named(entries).push(user),
{
    assert(entries.push(entry).drop_last() =~= entries);
}

/// An entry names a user by an ID that is not blank, up to three parts, and an access that is one of
/// the three words, or full if it is left out. White space around the parts does not count, and a
/// blank name is none.
pub proof fn law_what_an_entry_names(parts: Seq<Seq<char>>)
    requires
        parts.len() > 0,
    ensures
        ({
            let named = cli::user_named(parts);
            let id = text::trimmed(parts[0]);
            let word = text::trimmed(parts[2]);
            &&& named is Some <==> id.len() > 0 && parts.len() <= 3 && (parts.len() == 3 ==> word
                == "read"@ || word == "write"@ || word == "full"@)
            &&& named matches Some(user) ==> {
                &&& user.id == id
                &&& parts.len() == 1 ==> user.name is None
                &&& parts.len() > 1 && text::trimmed(parts[1]).len() == 0 ==> user.name is None
                &&& parts.len() > 1 && text::trimmed(parts[1]).len() > 0 ==> user.name == Some(
                    text::trimmed(parts[1]),
                )
                &&& parts.len() < 3 ==> user.access == AccessLevel::Full
                &&& parts.len() == 3 && word == "read"@ ==> user.access == AccessLevel::Read
                &&& parts.len() == 3 && word == "write"@ ==> user.access == AccessLevel::Write
                &&& parts.len() == 3 && word == "full"@ ==> user.access == AccessLevel::Full
            }
        }),
{
    reveal_strlit("read");
    reveal_strlit("write");
    reveal_strlit("full");
    assert("read"@[0] != "full"@[0]);
    assert("read"@.len() != "write"@.len());
    assert("full"@.len() != "write"@.len());
}

// ---------------------------------------------------------------------------
// Hexadecimal text
// ---------------------------------------------------------------------------
/// Every byte has two digits, the high half first.
pub proof fn law_byte_has_two_digits(bytes: Seq<u8>, i: int)
    requires
        0 <= i < bytes.len(),
    ensures
        hex::hex_text(bytes).len() == 2 * bytes.len(),
        hex::hex_text(bytes)[2 * i] == "0123456789abcdef"@[bytes[i] as int / 16],
        hex::hex_text(bytes)[2 * i + 1] == "0123456789abcdef"@[bytes[i] as int % 16],
    decreases bytes.len(),
{
    hex::lemma_hex_len(bytes);
    hex::lemma_hex_len(bytes.drop_last());
    if i < bytes.len() - 1 {
        law_byte_has_two_digits(bytes.drop_last(), i);
    }
}

/// Whether a character is a lower-case hexadecimal digit.
pub open spec fn is_hex_digit(c: char) -> bool {
    '0' <= c <= '9' || 'a' <= c <= 'f'
}

/// The text of a number of random bytes is twice as many lower-case hexadecimal digits.
pub proof fn law_random_text_is_hexadecimal(s: Seq<char>, count: nat)
    requires
        hex::is_hex_of(s, count),
    ensures
        s.len() == 2 * count,
        forall|i: int| 0 <= i < s.len() ==> is_hex_digit(#[trigger] s[i]),
{
    let bytes = choose|bytes: Seq<u8>| bytes.len() == count && #[trigger] hex::hex_text(bytes) == s;
    hex::lemma_hex_len(bytes);
    assert forall|i: int| 0 <= i < s.len() implies is_hex_digit(#[trigger] s[i]) by {
        law_byte_has_two_digits(bytes, i / 2);
        lemma_hex_digits(bytes[i / 2] as int / 16);
        lemma_hex_digits(bytes[i / 2] as int % 16);
        assert(i == 2 * (i / 2) || i == 2 * (i / 2) + 1);
    }
}

proof fn lemma_hex_digits(n: int)
    requires
        0 <= n < 16,
    ensures
        is_hex_digit("0123456789abcdef"@[n]),
{
    reveal_strlit("0123456789abcdef");
}

} // verus!
