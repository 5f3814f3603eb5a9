//! Numbers written out in decimal, for the places where an id stands in a
//! text.

use vstd::prelude::*;
use vstd::string::*;

verus! {

/// The ten decimal digits, in their order.
pub open spec fn decimal_digits() -> Seq<char> {
    seq!['0', '1', '2', '3', '4', '5', '6', '7', '8', '9']
}

/// A natural number in decimal, without leading zeros.
pub open spec fn natural(n: nat) -> Seq<char>
    decreases n,
{
    if n < 10 {
        seq![decimal_digits()[n as int]]
    } else {
        natural(n / 10).push(decimal_digits()[(n % 10) as int])
    }
}

/// An integer in decimal: a minus sign stands before a negative number.
pub open spec fn decimal(n: int) -> Seq<char> {
    if n < 0 {
        seq!['-'] + natural((-n) as nat)
    } else {
        natural(n as nat)
    }
}

/// The decimal digit for a value below ten.
fn decimal_digit(value: u32) -> (r: &'static str)
    requires
        value < 10,
    ensures
        r@ == seq![decimal_digits()[value as int]],
{
    proof {
        reveal_strlit("0");
        reveal_strlit("1");
        reveal_strlit("2");
        reveal_strlit("3");
        reveal_strlit("4");
        reveal_strlit("5");
        reveal_strlit("6");
        reveal_strlit("7");
        reveal_strlit("8");
        reveal_strlit("9");
    }
    let r = match value {
        0 => "0",
        1 => "1",
        2 => "2",
        3 => "3",
        4 => "4",
        5 => "5",
        6 => "6",
        7 => "7",
        8 => "8",
        _ => "9",
    };
    assert(r@ =~= seq![decimal_digits()[value as int]]);
    r
}

/// Writes a natural number in decimal.
pub fn natural_to_string(n: u32) -> (r: String)
    ensures
        r@ == natural(n as nat),
    decreases n,
{
    if n < 10 {
        String::from_str(decimal_digit(n))
    } else {
        let mut text = natural_to_string(n / 10);
        let ghost before = text@;
        text.append(decimal_digit(n % 10));
        assert(text@ =~= before.push(decimal_digits()[(n % 10) as int]));
        text
    }
}

/// Writes an integer in decimal.
pub fn to_decimal(n: i32) -> (r: String)
    ensures
        r@ == decimal(n as int),
{
    if n < 0 {
        let magnitude: u32 = if n == i32::MIN {
            2147483648u32
        } else {
            (-n) as u32
        };
        let digits = natural_to_string(magnitude);
        let mut text = String::from_str("-");
        proof {
            reveal_strlit("-");
        }
        text.append(digits.as_str());
        assert(text@ =~= seq!['-'] + natural((-n) as nat));
        text
    } else {
        natural_to_string(n as u32)
    }
}

/// Whether a text starts with `prefix`.
pub open spec fn starts_with(text: Seq<char>, prefix: Seq<char>) -> bool {
    text.len() >= prefix.len() && text.subrange(0, prefix.len() as int) == prefix
}

/// Puts a text behind another.
pub fn join(first: &str, second: &str) -> (r: String)
    ensures
        r@ == first@ + second@,
{
    let mut text = String::from_str(first);
    text.append(second);
    text
}

} // verus!
