//! Small helpers for building and inspecting text.

use vstd::prelude::*;
use vstd::std_specs::iter::IteratorSpec;

verus! {

/// Appends one character to `text`.
///
/// Stands for `String::push`: afterwards the text is the old text followed by `c`.
#[verifier::external_body]
pub(crate) fn push_char(text: &mut String, c: char)
    ensures
        final(text)@ == old(text)@.push(c),
{
    text.push(c);
}

/// Whether two texts hold the same characters.
pub fn same_text(a: &str, b: &str) -> (same: bool)
    ensures
        same == (a@ == b@),
{
    a.to_owned() == b.to_owned()
}

/// The characters of `text`, in order.
pub fn chars_of(text: &str) -> (out: Vec<char>)
    ensures
        out@ == text@,
{
    let mut out: Vec<char> = Vec::new();
    let chars = text.chars();
    for c in it: chars
        invariant
            it.seq() == text@,
            out@ == it.seq().take(it.index()),
    {
        out.push(c);
    }
    out
}

/// The text made of the characters of `chars` from `start` up to `end`.
pub fn string_of(chars: &Vec<char>, start: usize, end: usize) -> (out: String)
    requires
        start <= end <= chars.len(),
    ensures
        out@ == chars@.subrange(start as int, end as int),
{
    let mut out = String::new();
    let mut i: usize = start;
    while i < end
        invariant
            start <= i <= end <= chars.len(),
            out@ == chars@.subrange(start as int, i as int),
        decreases end - i,
    {
        push_char(&mut out, chars[i]);
        i += 1;
    }
    out
}

/// The character that writes the decimal digit `digit`.
pub open spec fn digit_char(digit: nat) -> char {
    (48 + digit) as u8 as char
}

/// The decimal numeral of `n`, without leading zeros.
pub open spec fn decimal_text(n: nat) -> Seq<char>
    decreases n,
{
    if n < 10 {
        seq![digit_char(n)]
    } else {
        decimal_text(n / 10).push(digit_char(n % 10))
    }
}

/// Writes `n` in decimal.
pub fn decimal(n: u128) -> (out: String)
    ensures
        out@ == decimal_text(n as nat),
{
    let mut low: Vec<char> = Vec::new();
    let mut rest: u128 = n;
    while rest >= 10
        invariant
            decimal_text(n as nat) == decimal_text(rest as nat) + low@.reverse(),
        decreases rest,
    {
        let digit: u8 = (rest % 10) as u8;
        let ghost before = low@;
        low.push((48u8 + digit) as char);
        assert(low@.reverse() =~= seq![digit_char(digit as nat)] + before.reverse());
        assert(decimal_text(rest as nat) + before.reverse() =~= decimal_text((rest / 10) as nat)
            + low@.reverse());
        rest = rest / 10;
    }
    let mut out = String::new();
    push_char(&mut out, (48u8 + rest as u8) as char);
    let mut i: usize = low.len();
    while i > 0
        invariant
            i <= low.len(),
            out@ == decimal_text(rest as nat) + low@.reverse().take(low.len() - i),
        decreases i,
    {
        i -= 1;
        push_char(&mut out, low[i]);
        assert(low@.reverse().take(low.len() - i) =~= low@.reverse().take(low.len() - i - 1).push(
            low@[i as int],
        ));
    }
    assert(low@.reverse().take(low.len() as int) =~= low@.reverse());
    out
}

} // verus!
