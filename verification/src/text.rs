//! Small text utilities over character sequences: prefix tests, the title
//! line of a message, abbreviated identifiers, and decimal numerals.

use vstd::prelude::*;
use vstd::std_specs::iter::IteratorSpec;

verus! {

/// Position of the first line feed in `s`, or the length of `s` when it holds none.
pub open spec fn line_feed_at(s: Seq<char>) -> int
    decreases s.len(),
{
    if s.len() == 0 || s[0] == '\n' {
        0
    } else {
        1 + line_feed_at(s.drop_first())
    }
}

/// The first line of `s`, without its terminator. A line ends at the first
/// line feed; a carriage return directly before that line feed belongs to the
/// terminator. Text without a line feed is a single line, kept whole.
pub open spec fn first_line_of(s: Seq<char>) -> Seq<char> {
    let k = line_feed_at(s);
    if k < s.len() && 0 < k && s[k - 1] == '\r' {
        s.take(k - 1)
    } else {
        s.take(k)
    }
}

/// How many characters of an identifier are shown.
pub const SHORT_ID_LEN: usize = 7;

/// The leading `SHORT_ID_LEN` characters of `id`, or all of `id` when it is shorter.
pub open spec fn short_id_of(id: Seq<char>) -> Seq<char> {
    if id.len() <= SHORT_ID_LEN {
        id
    } else {
        id.take(SHORT_ID_LEN as int)
    }
}

/// The character that writes the decimal digit `d`.
pub open spec fn digit_char(d: nat) -> char {
    if d == 0 {
        '0'
    } else if d == 1 {
        '1'
    } else if d == 2 {
        '2'
    } else if d == 3 {
        '3'
    } else if d == 4 {
        '4'
    } else if d == 5 {
        '5'
    } else if d == 6 {
        '6'
    } else if d == 7 {
        '7'
    } else if d == 8 {
        '8'
    } else {
        '9'
    }
}

/// The decimal numeral of `n`: most significant digit first, no leading zeros.
pub open spec fn decimal(n: nat) -> Seq<char>
    decreases n,
{
    if n < 10 {
        seq![digit_char(n)]
    } else {
        decimal(n / 10).push(digit_char(n % 10))
    }
}

/// The decimal numeral of a signed integer: a minus sign before the numeral
/// of the magnitude when `i` is negative.
pub open spec fn signed_decimal(i: int) -> Seq<char> {
    if i < 0 {
        seq!['-'] + decimal((-i) as nat)
    } else {
        decimal(i as nat)
    }
}

/// The line feed position is within the text, no line feed stands before it,
/// and a line feed stands at it unless it is the end of the text.
pub proof fn line_feed_at_is_first(s: Seq<char>)
    ensures
        0 <= line_feed_at(s) <= s.len(),
        forall|i: int| 0 <= i < line_feed_at(s) ==> s[i] != '\n',
        line_feed_at(s) < s.len() ==> s[line_feed_at(s)] == '\n',
    decreases s.len(),
{
    if s.len() == 0 || s[0] == '\n' {
    } else {
        let rest = s.drop_first();
        line_feed_at_is_first(rest);
        assert forall|i: int| 0 <= i < line_feed_at(s) implies s[i] != '\n' by {
            if i > 0 {
                assert(s[i] == rest[i - 1]);
            }
        }
    }
}

/// Whether `text` begins with `prefix`, character for character.
pub fn starts_with(text: &str, prefix: &str) -> (hit: bool)
    ensures
        hit == prefix@.is_prefix_of(text@),
{
    let mut want = prefix.chars();
    let mut have = text.chars();
    let ghost mut at: int = 0;
    loop
        invariant
            want.obeys_prophetic_iter_laws(),
            have.obeys_prophetic_iter_laws(),
            0 <= at <= prefix@.len(),
            at <= text@.len(),
            want.remaining() == prefix@.skip(at),
            have.remaining() == text@.skip(at),
            prefix@.take(at) == text@.take(at),
        decreases prefix@.len() - at,
    {
        match want.next() {
            None => {
                return true;
            },
            Some(w) => {
                match have.next() {
                    None => {
                        return false;
                    },
                    Some(h) => {
                        if w != h {
                            return false;
                        }
                        proof {
                            at = at + 1;
                        }
                    },
                }
            },
        }
    }
}

/// Whether two texts hold the same characters.
pub fn same_text(left: &str, right: &str) -> (same: bool)
    ensures
        same == (left@ == right@),
{
    let mut l = left.chars();
    let mut r = right.chars();
    let ghost mut at: int = 0;
    loop
        invariant
            l.obeys_prophetic_iter_laws(),
            r.obeys_prophetic_iter_laws(),
            0 <= at <= left@.len(),
            at <= right@.len(),
            l.remaining() == left@.skip(at),
            r.remaining() == right@.skip(at),
            left@.take(at) == right@.take(at),
        decreases left@.len() - at,
    {
        match l.next() {
            None => {
                let rest = r.next();
                proof {
                    assert(left@ == left@.take(at));
                    if rest is None {
                        assert(right@ == right@.take(at));
                    }
                }
                return rest.is_none();
            },
            Some(a) => {
                match r.next() {
                    None => {
                        return false;
                    },
                    Some(b) => {
                        if a != b {
                            return false;
                        }
                        proof {
                            at = at + 1;
                        }
                    },
                }
            },
        }
    }
}

/// The first line of `message`, without its line terminator.
pub fn first_line(message: &str) -> (line: &str)
    ensures
        line@ == first_line_of(message@),
{
    let total: usize = message.unicode_len();
    let mut it = message.chars();
    let mut at: usize = 0;
    let mut after_return: bool = false;
    loop
        invariant
            it.obeys_prophetic_iter_laws(),
            total == message@.len(),
            at <= total,
            it.remaining() == message@.skip(at as int),
            line_feed_at(message@) == at + line_feed_at(it.remaining()),
            after_return == (at > 0 && message@[at - 1] == '\r'),
        decreases total - at,
    {
        match it.next() {
            None => {
                return message;
            },
            Some(c) => {
                if c == '\n' {
                    let end: usize = if after_return {
                        at - 1
                    } else {
                        at
                    };
                    return message.substring_char(0, end);
                }
                after_return = c == '\r';
                at = at + 1;
            },
        }
    }
}

/// The abbreviated form of an identifier: its leading `SHORT_ID_LEN`
/// characters, or the whole identifier when it has fewer.
pub fn short_id(id: &str) -> (short: &str)
    ensures
        short@ == short_id_of(id@),
{
    let total: usize = id.unicode_len();
    if total <= SHORT_ID_LEN {
        id
    } else {
        id.substring_char(0, SHORT_ID_LEN)
    }
}

/// The one-character text of the decimal digit `d`.
pub fn digit_text(d: u8) -> (text: &'static str)
    requires
        d < 10,
    ensures
        text@ == seq![digit_char(d as nat)],
{
    proof {
        reveal_strlit("0");
        reveal_strlit("1");
        reveal_strlit("2");
        reveal_strlit("3");
        reveal_strlit("4");
        reveal_strlit("5");
        reveal_strlit("6");
        reveal_strlit("7");
        reveal_strlit("8");
        reveal_strlit("9");
    }
    if d == 0 {
        "0"
    } else if d == 1 {
        "1"
    } else if d == 2 {
        "2"
    } else if d == 3 {
        "3"
    } else if d == 4 {
        "4"
    } else if d == 5 {
        "5"
    } else if d == 6 {
        "6"
    } else if d == 7 {
        "7"
    } else if d == 8 {
        "8"
    } else {
        "9"
    }
}

/// Appends the decimal numeral of `n` to `out`.
pub fn push_decimal(out: &mut String, n: u128)
    ensures
        final(out)@ == old(out)@ + decimal(n as nat),
    decreases n,
{
    if n >= 10 {
        push_decimal(out, n / 10);
    }
    let d: u8 = (n % 10) as u8;
    out.append(digit_text(d));
}

/// Appends the decimal numeral of the signed integer `i` to `out`.
pub fn push_signed_decimal(out: &mut String, i: i128)
    ensures
        final(out)@ == old(out)@ + signed_decimal(i as int),
{
    if i < 0 {
        proof {
            reveal_strlit("-");
        }
        out.append("-");
        let magnitude: u128 = (-(i + 1)) as u128 + 1;
        push_decimal(out, magnitude);
    } else {
        push_decimal(out, i as u128);
    }
}

/// The decimal numeral of `n` as a fresh string.
pub fn decimal_text(n: u128) -> (text: String)
    ensures
        text@ == decimal(n as nat),
{
    let mut text = String::new();
    push_decimal(&mut text, n);
    text
}

} // verus!
