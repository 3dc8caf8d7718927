//! Texts: what the standard library does to them, and numbers written out.

use vstd::prelude::*;
use vstd::utf8::{decode_utf8, valid_utf8};

verus! {

/// `String::push` appends one character to the string.
pub assume_specification[ String::push ](text: &mut String, c: char)
    ensures
        final(text)@ == old(text)@.push(c),
;

/// `String::from_utf8` gives the text whose UTF-8 encoding the bytes are, and
/// fails on bytes that are no UTF-8.
#[verifier::external_body]
pub(crate) fn text_from_utf8(bytes: Vec<u8>) -> (r: Option<String>)
    ensures
        r is Some <==> valid_utf8(bytes@),
        r matches Some(text) ==> text@ == decode_utf8(bytes@),
{
    String::from_utf8(bytes).ok()
}

/// The decimal digit of a value below 10.
pub open spec fn decimal_digit(value: int) -> char {
    ('0' as int + value) as char
}

/// The decimal text of a number, without leading zeros.
pub open spec fn decimal_text(n: nat) -> Seq<char>
    decreases n,
{
    if n < 10 {
        seq![decimal_digit(n as int)]
    } else {
        decimal_text(n / 10).push(decimal_digit((n % 10) as int))
    }
}

/// The decimal text of `n`.
pub fn decimal(n: u32) -> (text: String)
    ensures
        text@ == decimal_text(n as nat),
{
    let mut digits: Vec<char> = Vec::new();
    let mut rest: u32 = n;
    while rest >= 10
        invariant
            decimal_text(n as nat) == decimal_text(rest as nat) + digits@.reverse(),
        decreases rest,
    {
        let digit: u8 = (rest % 10) as u8;
        let ghost before = digits@;
        digits.push((48u8 + digit) as char);
        assert(digits@.reverse() =~= seq![decimal_digit((rest % 10) as int)] + before.reverse());
        assert(decimal_text(rest as nat) =~= decimal_text((rest / 10) as nat) + seq![
            decimal_digit((rest % 10) as int),
        ]);
        rest = rest / 10;
    }
    let mut text = String::new();
    let first: u8 = rest as u8;
    text.push((48u8 + first) as char);
    assert(text@ =~= decimal_text(rest as nat));
    let mut i: usize = digits.len();
    while i > 0
        invariant
            i <= digits.len(),
            text@ == decimal_text(rest as nat) + digits@.reverse().take(digits.len() - i),
        decreases i,
    {
        i = i - 1;
        text.push(digits[i]);
        assert(text@ =~= decimal_text(rest as nat) + digits@.reverse().take(digits.len() - i));
    }
    assert(digits@.reverse().take(digits.len() as int) =~= digits@.reverse());
    text
}

} // verus!
