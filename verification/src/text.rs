//! Small pieces of text shared by the table games.

use vstd::prelude::*;
use vstd::string::*;

verus! {

/// One decimal digit as text.
pub open spec fn digit_text(d: int) -> Seq<char> {
    if d == 0 {
        "0"@
    } else if d == 1 {
        "1"@
    } else if d == 2 {
        "2"@
    } else if d == 3 {
        "3"@
    } else if d == 4 {
        "4"@
    } else if d == 5 {
        "5"@
    } else if d == 6 {
        "6"@
    } else if d == 7 {
        "7"@
    } else if d == 8 {
        "8"@
    } else {
        "9"@
    }
}

/// A natural number in decimal, without leading zeros.
pub open spec fn decimal_text(n: int) -> Seq<char>
    decreases n,
{
    if n < 10 {
        digit_text(n)
    } else {
        decimal_text(n / 10) + digit_text(n % 10)
    }
}

/// The text `unit` written `count` times.
pub open spec fn repeated_text(unit: Seq<char>, count: int) -> Seq<char>
    decreases count,
{
    if count <= 0 {
        Seq::empty()
    } else {
        repeated_text(unit, count - 1) + unit
    }
}

/// One decimal digit as text.
pub fn digit_str(d: u32) -> (s: &'static str)
    requires
        d < 10,
    ensures
        s@ == digit_text(d as int),
{
    match d {
        0 => "0",
        1 => "1",
        2 => "2",
        3 => "3",
        4 => "4",
        5 => "5",
        6 => "6",
        7 => "7",
        8 => "8",
        _ => "9",
    }
}

/// A number in decimal, without leading zeros.
pub fn decimal_string(n: u32) -> (s: String)
    ensures
        s@ == decimal_text(n as int),
    decreases n,
{
    if n < 10 {
        String::from_str(digit_str(n))
    } else {
        let mut s = decimal_string(n / 10);
        s.append(digit_str(n % 10));
        s
    }
}

/// Appends `unit` to `s` `count` times.
pub fn append_repeated(s: &mut String, unit: &str, count: usize)
    ensures
        final(s)@ == old(s)@ + repeated_text(unit@, count as int),
{
    let ghost start = s@;
    let mut i: usize = 0;
    assert(s@ =~= start + repeated_text(unit@, 0));
    while i < count
        invariant
            i <= count,
            s@ == start + repeated_text(unit@, i as int),
        decreases count - i,
    {
        s.append(unit);
        assert(s@ =~= start + repeated_text(unit@, i + 1));
        i += 1;
    }
}

} // verus!
