//! Decimal text of integers.
use vstd::prelude::*;
use vstd::string::*;

verus! {

/// The digit character of `d`, for `d` below ten.
pub open spec fn digit_char(d: nat) -> char {
    if d == 0 { '0' } else if d == 1 { '1' } else if d == 2 { '2' } else if d == 3 { '3' }
    else if d == 4 { '4' } else if d == 5 { '5' } else if d == 6 { '6' } else if d == 7 { '7' }
    else if d == 8 { '8' } else { '9' }
}

/// The decimal digits of `n`, padded with leading zeros to at least `width`
/// digits.
pub open spec fn decimal(n: nat, width: nat) -> Seq<char>
    decreases n, width,
{
    if n < 10 && width <= 1 {
        seq![digit_char(n)]
    } else {
        let w: nat = if width > 0 { (width - 1) as nat } else { 0 };
        decimal(n / 10, w) + seq![digit_char(n % 10)]
    }
}

fn digit_text(d: u32) -> (r: &'static str)
    requires
        d < 10,
    ensures
        r@ == seq![digit_char(d as nat)],
{
    proof {
        reveal_strlit("0");
        reveal_strlit("1");
        reveal_strlit("2");
        reveal_strlit("3");
        reveal_strlit("4");
        reveal_strlit("5");
        reveal_strlit("6");
        reveal_strlit("7");
        reveal_strlit("8");
        reveal_strlit("9");
    }
    let r = if d == 0 { "0" } else if d == 1 { "1" } else if d == 2 { "2" } else if d == 3 { "3" }
    else if d == 4 { "4" } else if d == 5 { "5" } else if d == 6 { "6" } else if d == 7 { "7" }
    else if d == 8 { "8" } else { "9" };
    assert(r@ =~= seq![digit_char(d as nat)]);
    r
}

/// Appends the decimal digits of `n`, padded with zeros to `width` digits.
pub fn push_decimal(out: &mut String, n: u32, width: u32)
    ensures
        final(out)@ == old(out)@ + decimal(n as nat, width as nat),
    decreases n, width,
{
    if n < 10 && width <= 1 {
        out.append(digit_text(n));
    } else {
        let w: u32 = if width > 0 { width - 1 } else { 0 };
        push_decimal(out, n / 10, w);
        out.append(digit_text(n % 10));
    }
}

} // verus!
