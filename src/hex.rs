use vstd::prelude::*;
use vstd::string::*;

verus! {

/// The sixteen lowercase hexadecimal digits, in order of value.
pub open spec fn hex_digits() -> Seq<char> {
    seq!['0', '1', '2', '3', '4', '5', '6', '7', '8', '9', 'a', 'b', 'c', 'd', 'e', 'f']
}

/// Two lowercase hex digits for one byte, high nibble first.
pub open spec fn hex_byte(b: u8) -> Seq<char> {
    seq![hex_digits()[(b / 16) as int], hex_digits()[(b % 16) as int]]
}

/// Lowercase hex encoding of a byte sequence.
pub open spec fn hex_of(b: Seq<u8>) -> Seq<char>
    decreases b.len(),
{
    if b.len() == 0 {
        Seq::empty()
    } else {
        hex_of(b.drop_last()) + hex_byte(b.last())
    }
}

const HEX_DIGITS: &'static str = "0123456789abcdef";

fn digit(n: u8) -> (r: &'static str)
    requires
        n < 16,
    ensures
        r@ == seq![hex_digits()[n as int]],
{
    proof {
        reveal_strlit("0123456789abcdef");
    }
    let d = HEX_DIGITS.substring_char(n as usize, n as usize + 1);
    assert(d@ =~= seq![hex_digits()[n as int]]);
    d
}

/// Encodes bytes as lowercase hexadecimal, two digits per byte.
pub fn to_hex_lower(b: &[u8]) -> (r: String)
    ensures
        r@ == hex_of(b@),
{
    let mut r = String::new();
    let mut i: usize = 0;
    while i < b.len()
        invariant
            i <= b@.len(),
            r@ == hex_of(b@.subrange(0, i as int)),
        decreases b@.len() - i,
    {
        let x = b[i];
        r.append(digit(x / 16));
        r.append(digit(x % 16));
        proof {
            let s = b@.subrange(0, i as int + 1);
            assert(s.drop_last() =~= b@.subrange(0, i as int));
        }
        assert(r@ =~= hex_of(b@.subrange(0, i as int + 1)));
        i += 1;
    }
    assert(b@.subrange(0, b@.len() as int) =~= b@);
    r
}

} // verus!
