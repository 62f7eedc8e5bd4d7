use vstd::prelude::*;
use vstd::string::*;

verus! {

/// The decimal digit for a value below ten.
pub open spec fn digit_char(d: nat) -> char {
    seq!['0', '1', '2', '3', '4', '5', '6', '7', '8', '9'][d as int]
}

/// The decimal representation of a natural number, without leading zeros.
pub open spec fn decimal_of(n: nat) -> Seq<char>
    decreases n,
{
    if n < 10 {
        seq![digit_char(n)]
    } else {
        decimal_of(n / 10) + seq![digit_char(n % 10)]
    }
}

const DIGITS: &'static str = "0123456789";

/// Formats an integer in decimal.
pub fn to_decimal(n: u64) -> (r: String)
    ensures
        r@ == decimal_of(n as nat),
    decreases n,
{
    proof {
        reveal_strlit("0123456789");
    }
    let d = (n % 10) as usize;
    let last = DIGITS.substring_char(d, d + 1);
    assert(last@ =~= seq![digit_char((n % 10) as nat)]);
    if n < 10 {
        String::from_str(last)
    } else {
        let mut r = to_decimal(n / 10);
        r.append(last);
        r
    }
}

} // verus!
