//! Texts of numbers.

use vstd::prelude::*;
use vstd::string::StringExecFns;
use vstd::string::StrSliceExecFns;

verus! {

/// The digits of a number, most significant first.
pub open spec fn digits(n: nat) -> Seq<char>
    decreases n,
{
    if n < 10 {
        seq!["0123456789"@[n as int]]
    } else {
        digits(n / 10).push("0123456789"@[(n % 10) as int])
    }
}

/// A number in decimal notation, with a minus sign if it is negative.
pub open spec fn decimal(n: int) -> Seq<char> {
    if n < 0 {
        "-"@ + digits((-n) as nat)
    } else {
        digits(n as nat)
    }
}

/// Adds the digits of a number to a text.
fn push_digits(text: &mut String, n: u64)
    ensures
        final(text)@ == old(text)@ + digits(n as nat),
    decreases n,
{
    if n >= 10 {
        push_digits(text, n / 10);
    }
    let ghost before = text@;
    let d: usize = (n % 10) as usize;
    proof {
        reveal_strlit("0123456789");
    }
    text.append("0123456789".substring_char(d, d + 1));
    assert(text@ =~= before.push("0123456789"@[d as int]));
    assert(text@ =~= old(text)@ + digits(n as nat));
}

/// A number in decimal notation.
pub fn decimal_text(n: i64) -> (text: String)
    ensures
        text@ == decimal(n as int),
{
    if n < 0 {
        let mut text = "-".to_owned();
        let magnitude: u64 = (-(n + 1)) as u64 + 1;
        push_digits(&mut text, magnitude);
        text
    } else {
        let mut text = String::new();
        push_digits(&mut text, n as u64);
        assert(text@ =~= digits(n as nat));
        text
    }
}

/// The digits of a number are there, and none of them is a minus sign.
proof fn lemma_digits_are_digits(n: nat)
    ensures
        digits(n).len() > 0,
        digits(n)[0] != '-',
    decreases n,
{
    reveal_strlit("0123456789");
    if n >= 10 {
        lemma_digits_are_digits(n / 10);
    }
}

/// The ten digits differ.
proof fn lemma_digit_tells(a: int, b: int)
    requires
        0 <= a < 10,
        0 <= b < 10,
        "0123456789"@[a] == "0123456789"@[b],
    ensures
        a == b,
{
    reveal_strlit("0123456789");
}

/// Numbers with the same digits are the same.
proof fn lemma_digits_tell(a: nat, b: nat)
    requires
        digits(a) == digits(b),
    ensures
        a == b,
    decreases a,
{
    lemma_digits_are_digits(a / 10);
    lemma_digits_are_digits(b / 10);
    if a < 10 && b < 10 {
        assert(digits(a)[0] == "0123456789"@[a as int]);
        assert(digits(b)[0] == "0123456789"@[b as int]);
        lemma_digit_tells(a as int, b as int);
    } else if a >= 10 && b >= 10 {
        assert(digits(a / 10) =~= digits(a).drop_last());
        assert(digits(b / 10) =~= digits(b).drop_last());
        lemma_digits_tell(a / 10, b / 10);
        assert(digits(a).last() == "0123456789"@[(a % 10) as int]);
        assert(digits(b).last() == "0123456789"@[(b % 10) as int]);
        lemma_digit_tells((a % 10) as int, (b % 10) as int);
    } else {
        assert(digits(a).len() == digits(b).len());
    }
}

/// Different numbers have different texts.
pub proof fn decimal_tells_numbers_apart(a: int, b: int)
    requires
        decimal(a) == decimal(b),
    ensures
        a == b,
{
    reveal_strlit("-");
    if a < 0 && b < 0 {
        assert(digits((-a) as nat) =~= decimal(a).skip(1));
        assert(digits((-b) as nat) =~= decimal(b).skip(1));
        lemma_digits_tell((-a) as nat, (-b) as nat);
    } else if a >= 0 && b >= 0 {
        lemma_digits_tell(a as nat, b as nat);
    } else if a < 0 {
        lemma_digits_are_digits(b as nat);
        assert(decimal(a)[0] == '-');
    } else {
        lemma_digits_are_digits(a as nat);
        assert(decimal(b)[0] == '-');
    }
}

} // verus!
