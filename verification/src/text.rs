//! String comparisons and decimal rendering over character sequences.

use vstd::prelude::*;
use vstd::string::*;

verus! {

/// Whether `text` begins with `prefix`, character by character.
pub fn starts_with(text: &str, prefix: &str) -> (found: bool)
    ensures
        found == prefix@.is_prefix_of(text@),
{
    let wanted: usize = prefix.unicode_len();
    let given: usize = text.unicode_len();
    if given < wanted {
        return false;
    }
    let mut at: usize = 0;
    while at < wanted
        invariant
            at <= wanted,
            wanted == prefix@.len(),
            given == text@.len(),
            wanted <= given,
            forall|k: int| 0 <= k < at ==> text@[k] == prefix@[k],
        decreases wanted - at,
    {
        if text.get_char(at) != prefix.get_char(at) {
            return false;
        }
        at += 1;
    }
    true
}

/// Whether two strings hold the same characters.
pub fn same_text(left: &str, right: &str) -> (same: bool)
    ensures
        same == (left@ == right@),
{
    let wanted: usize = left.unicode_len();
    if right.unicode_len() != wanted {
        return false;
    }
    let mut at: usize = 0;
    while at < wanted
        invariant
            at <= wanted,
            wanted == left@.len(),
            wanted == right@.len(),
            forall|k: int| 0 <= k < at ==> left@[k] == right@[k],
        decreases wanted - at,
    {
        if left.get_char(at) != right.get_char(at) {
            return false;
        }
        at += 1;
    }
    assert(left@ =~= right@);
    true
}

/// The character that writes the digit `d`.
pub open spec fn digit(d: nat) -> char
    recommends
        d < 10,
{
    if d == 0 {
        '0'
    } else if d == 1 {
        '1'
    } else if d == 2 {
        '2'
    } else if d == 3 {
        '3'
    } else if d == 4 {
        '4'
    } else if d == 5 {
        '5'
    } else if d == 6 {
        '6'
    } else if d == 7 {
        '7'
    } else if d == 8 {
        '8'
    } else {
        '9'
    }
}

/// The decimal numeral of `n`: most significant digit first, no leading
/// zero, and `"0"` for zero.
pub open spec fn decimal(n: nat) -> Seq<char>
    decreases n,
{
    if n < 10 {
        seq![digit(n)]
    } else {
        decimal(n / 10).push(digit(n % 10))
    }
}

/// The number that a sequence of digit characters writes.
pub open spec fn numeral_value(text: Seq<char>) -> nat
    decreases text.len(),
{
    if text.len() == 0 {
        0
    } else {
        10 * numeral_value(text.drop_last()) + digit_value(text.last())
    }
}

/// The digit that a character writes; zero for a character that writes
/// none.
pub open spec fn digit_value(c: char) -> nat {
    if c == '0' {
        0
    } else if c == '1' {
        1
    } else if c == '2' {
        2
    } else if c == '3' {
        3
    } else if c == '4' {
        4
    } else if c == '5' {
        5
    } else if c == '6' {
        6
    } else if c == '7' {
        7
    } else if c == '8' {
        8
    } else if c == '9' {
        9
    } else {
        0
    }
}

/// Reading a decimal numeral gives back the number it was written for, so two
/// numbers with the same numeral are the same number.
pub proof fn lemma_decimal_reads_back(n: nat)
    ensures
        numeral_value(decimal(n)) == n,
        decimal(n).len() >= 1,
    decreases n,
{
    if n < 10 {
        assert(numeral_value(decimal(n).drop_last()) == 0);
    } else {
        lemma_decimal_reads_back(n / 10);
        assert(decimal(n).drop_last() =~= decimal(n / 10));
    }
}

/// The one-character string that writes the digit `d`.
fn digit_text(d: u16) -> (text: &'static str)
    requires
        d < 10,
    ensures
        text@ == seq![digit(d as nat)],
{
    proof {
        reveal_strlit("0");
        reveal_strlit("1");
        reveal_strlit("2");
        reveal_strlit("3");
        reveal_strlit("4");
        reveal_strlit("5");
        reveal_strlit("6");
        reveal_strlit("7");
        reveal_strlit("8");
        reveal_strlit("9");
    }
    match d {
        0 => "0",
        1 => "1",
        2 => "2",
        3 => "3",
        4 => "4",
        5 => "5",
        6 => "6",
        7 => "7",
        8 => "8",
        _ => "9",
    }
}

/// Appends the decimal numeral of `n` to `out`.
pub fn push_decimal(out: &mut String, n: u16)
    ensures
        final(out)@ == old(out)@ + decimal(n as nat),
    decreases n,
{
    if n >= 10 {
        push_decimal(out, n / 10);
    }
    out.append(digit_text(n % 10));
}

} // verus!
