//! Text at the edges of the relay: a datagram's bytes read as text and freed
//! of padding, and integers written in decimal.

use std::str::Utf8Error;
use vstd::prelude::*;
use vstd::string::*;
use vstd::utf8::*;

verus! {

#[verifier::external_type_specification]
#[verifier::external_body]
pub struct ExUtf8Error(Utf8Error);

/// Whether `char::is_whitespace` holds of a character: whether it has the
/// Unicode property White_Space.
pub uninterp spec fn white_space(c: char) -> bool;

/// `char::is_whitespace`: the result is what `white_space` names.
pub assume_specification[ char::is_whitespace ](c: char) -> (r: bool)
    ensures
        r == white_space(c),
;

/// `std::str::from_utf8`: succeeds exactly on bytes that are valid UTF-8, and
/// then gives the text that those bytes encode.
pub assume_specification[ std::str::from_utf8 ](bytes: &[u8]) -> (r: Result<&str, Utf8Error>)
    ensures
        (r is Ok) == valid_utf8(bytes@),
        r matches Ok(text) ==> text@ == decode_utf8(bytes@),
;

/// `s` without the NUL characters at its end.
pub open spec fn without_padding(s: Seq<char>) -> Seq<char>
    decreases s.len(),
{
    if s.len() > 0 && s.last() == '\0' {
        without_padding(s.drop_last())
    } else {
        s
    }
}

/// `s` without the whitespace at its end.
pub open spec fn trimmed_end(s: Seq<char>) -> Seq<char>
    decreases s.len(),
{
    if s.len() > 0 && white_space(s.last()) {
        trimmed_end(s.drop_last())
    } else {
        s
    }
}

/// `s` without the whitespace at its start.
pub open spec fn trimmed_start(s: Seq<char>) -> Seq<char>
    decreases s.len(),
{
    if s.len() > 0 && white_space(s.first()) {
        trimmed_start(s.drop_first())
    } else {
        s
    }
}

/// The message of a datagram's text: the text without the NUL padding at its
/// end, and then without the whitespace around it.
pub open spec fn message_of(s: Seq<char>) -> Seq<char> {
    trimmed_start(trimmed_end(without_padding(s)))
}

/// The text of a datagram, where its bytes are text at all.
pub open spec fn decoded(bytes: Seq<u8>) -> Option<Seq<char>> {
    if valid_utf8(bytes) {
        Some(message_of(decode_utf8(bytes)))
    } else {
        None
    }
}

/// The text of `text` from which padding and surrounding whitespace are gone.
pub fn message(text: &str) -> (r: &str)
    ensures
        r@ == message_of(text@),
{
    let len = text.unicode_len();
    let mut end = len;
    assert(text@.subrange(0, end as int) == text@);
    while end > 0 && text.get_char(end - 1) == '\0'
        invariant
            end <= len == text@.len(),
            without_padding(text@) == without_padding(text@.subrange(0, end as int)),
        decreases end,
    {
        assert(text@.subrange(0, end as int).drop_last() == text@.subrange(0, end - 1));
        end = end - 1;
    }
    let ghost bare = text@.subrange(0, end as int);
    assert(without_padding(text@) == bare);
    while end > 0 && text.get_char(end - 1).is_whitespace()
        invariant
            end <= len == text@.len(),
            trimmed_end(bare) == trimmed_end(text@.subrange(0, end as int)),
        decreases end,
    {
        assert(text@.subrange(0, end as int).drop_last() == text@.subrange(0, end - 1));
        end = end - 1;
    }
    let ghost tail = text@.subrange(0, end as int);
    assert(trimmed_end(bare) == tail);
    let mut start: usize = 0;
    while start < end && text.get_char(start).is_whitespace()
        invariant
            start <= end <= len == text@.len(),
            tail == text@.subrange(0, end as int),
            trimmed_start(tail) == trimmed_start(text@.subrange(start as int, end as int)),
        decreases end - start,
    {
        assert(text@.subrange(start as int, end as int).drop_first() == text@.subrange(
            start + 1,
            end as int,
        ));
        start = start + 1;
    }
    assert(trimmed_start(tail) == text@.subrange(start as int, end as int));
    text.substring_char(start, end)
}

/// The decimal digit that stands for `d`.
pub open spec fn digit(d: int) -> char {
    if d == 0 {
        '0'
    } else if d == 1 {
        '1'
    } else if d == 2 {
        '2'
    } else if d == 3 {
        '3'
    } else if d == 4 {
        '4'
    } else if d == 5 {
        '5'
    } else if d == 6 {
        '6'
    } else if d == 7 {
        '7'
    } else if d == 8 {
        '8'
    } else {
        '9'
    }
}

/// A natural number in decimal, without leading zeros.
pub open spec fn decimal(n: nat) -> Seq<char>
    decreases n,
{
    if n < 10 {
        seq![digit(n as int)]
    } else {
        decimal(n / 10).push(digit((n % 10) as int))
    }
}

/// An integer in decimal, with a minus sign where it is negative.
pub open spec fn signed_decimal(i: int) -> Seq<char> {
    if i < 0 {
        seq!['-'] + decimal((-i) as nat)
    } else {
        decimal(i as nat)
    }
}

fn digit_text(d: u64) -> (r: &'static str)
    requires
        d < 10,
    ensures
        r@ == seq![digit(d as int)],
{
    proof {
        reveal_strlit("0");
        reveal_strlit("1");
        reveal_strlit("2");
        reveal_strlit("3");
        reveal_strlit("4");
        reveal_strlit("5");
        reveal_strlit("6");
        reveal_strlit("7");
        reveal_strlit("8");
        reveal_strlit("9");
    }
    let r = if d == 0 {
        "0"
    } else if d == 1 {
        "1"
    } else if d == 2 {
        "2"
    } else if d == 3 {
        "3"
    } else if d == 4 {
        "4"
    } else if d == 5 {
        "5"
    } else if d == 6 {
        "6"
    } else if d == 7 {
        "7"
    } else if d == 8 {
        "8"
    } else {
        "9"
    };
    assert(r@ =~= seq![digit(d as int)]);
    r
}

/// Writes `n` in decimal.
pub fn decimal_text(n: u64) -> (r: String)
    ensures
        r@ == decimal(n as nat),
    decreases n,
{
    if n < 10 {
        String::from_str(digit_text(n))
    } else {
        let mut r = decimal_text(n / 10);
        r.append(digit_text(n % 10));
        assert(r@ =~= decimal((n / 10) as nat).push(digit((n % 10) as int)));
        r
    }
}

/// Writes `i` in decimal, with a minus sign where it is negative.
pub fn signed_decimal_text(i: i32) -> (r: String)
    ensures
        r@ == signed_decimal(i as int),
{
    if i < 0 {
        let magnitude: u64 = (-(i as i64)) as u64;
        let mut r = String::from_str("-");
        proof {
            reveal_strlit("-");
        }
        let digits = decimal_text(magnitude);
        r.append(digits.as_str());
        assert(r@ =~= seq!['-'] + decimal((-i) as nat));
        r
    } else {
        decimal_text(i as u64)
    }
}

} // verus!
