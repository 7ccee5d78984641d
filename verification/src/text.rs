//! Text helpers: decimal rendering of numbers and the building of the dotted
//! paths that name a place in the document (`layer3.transform.position`).

use vstd::prelude::*;
use vstd::string::*;

verus! {

/// The character of a decimal digit.
pub open spec fn digit_char(d: int) -> char {
    if d == 0 {
        '0'
    } else if d == 1 {
        '1'
    } else if d == 2 {
        '2'
    } else if d == 3 {
        '3'
    } else if d == 4 {
        '4'
    } else if d == 5 {
        '5'
    } else if d == 6 {
        '6'
    } else if d == 7 {
        '7'
    } else if d == 8 {
        '8'
    } else {
        '9'
    }
}

/// The decimal notation of `n`, without leading zeros.
pub open spec fn decimal(n: nat) -> Seq<char>
    decreases n,
{
    if n < 10 {
        seq![digit_char(n as int)]
    } else {
        decimal(n / 10).push(digit_char((n % 10) as int))
    }
}

/// Appends the character of the digit `d` to `s`.
fn push_digit(s: &mut String, d: u64)
    requires
        d < 10,
    ensures
        final(s)@ == old(s)@.push(digit_char(d as int)),
{
    if d == 0 {
        proof {
            reveal_strlit("0");
        }
        s.append("0");
    } else if d == 1 {
        proof {
            reveal_strlit("1");
        }
        s.append("1");
    } else if d == 2 {
        proof {
            reveal_strlit("2");
        }
        s.append("2");
    } else if d == 3 {
        proof {
            reveal_strlit("3");
        }
        s.append("3");
    } else if d == 4 {
        proof {
            reveal_strlit("4");
        }
        s.append("4");
    } else if d == 5 {
        proof {
            reveal_strlit("5");
        }
        s.append("5");
    } else if d == 6 {
        proof {
            reveal_strlit("6");
        }
        s.append("6");
    } else if d == 7 {
        proof {
            reveal_strlit("7");
        }
        s.append("7");
    } else if d == 8 {
        proof {
            reveal_strlit("8");
        }
        s.append("8");
    } else {
        proof {
            reveal_strlit("9");
        }
        s.append("9");
    }
}

/// Appends the decimal notation of `n` to `s`.
pub fn push_decimal(s: &mut String, n: u64)
    ensures
        final(s)@ == old(s)@ + decimal(n as nat),
    decreases n,
{
    if n >= 10 {
        push_decimal(s, n / 10);
        push_digit(s, n % 10);
    } else {
        push_digit(s, n);
    }
}

/// `base` followed by `suffix`.
pub fn join(base: &str, suffix: &str) -> (r: String)
    ensures
        r@ == base@ + suffix@,
{
    let mut r = String::from_str(base);
    r.append(suffix);
    r
}

/// `base` followed by `[index]` and then `suffix`: the path of an element of a
/// list.
pub fn join_indexed(base: &str, index: u64, suffix: &str) -> (r: String)
    ensures
        r@ == base@ + "["@ + decimal(index as nat) + "]"@ + suffix@,
{
    let mut r = String::from_str(base);
    r.append("[");
    push_decimal(&mut r, index);
    r.append("]");
    r.append(suffix);
    r
}

/// The path of a layer's envelope: `layer` followed by the layer id.
pub open spec fn layer_path(id: u64) -> Seq<char> {
    "layer"@ + decimal(id as nat)
}

/// `layer<id>`.
pub fn layer_base(id: u64) -> (r: String)
    ensures
        r@ == layer_path(id),
{
    let mut r = String::from_str("layer");
    push_decimal(&mut r, id);
    r
}

} // verus!
