//! Identities, envelopes and the per-call delivery tags.

use vstd::prelude::*;
use vstd::string::StringExecFns;

verus! {

/// Opaque identifier of one endpoint of a session, assigned by the backend.
#[derive(Copy, Clone, Debug, Hash, PartialEq, Eq, PartialOrd, Ord, Structural)]
pub struct PeerId(pub u64);

/// The character that stands for the decimal digit `d`.
pub open spec fn digit(d: nat) -> char
    recommends
        d < 10,
{
    if d == 0 {
        '0'
    } else if d == 1 {
        '1'
    } else if d == 2 {
        '2'
    } else if d == 3 {
        '3'
    } else if d == 4 {
        '4'
    } else if d == 5 {
        '5'
    } else if d == 6 {
        '6'
    } else if d == 7 {
        '7'
    } else if d == 8 {
        '8'
    } else {
        '9'
    }
}

/// `n` written in decimal, without leading zeros.
pub open spec fn decimal(n: nat) -> Seq<char>
    decreases n,
{
    if n < 10 {
        seq![digit(n)]
    } else {
        decimal(n / 10).push(digit(n % 10))
    }
}

/// Whether `d` is 1, 10, 100 and so on.
spec fn power_of_ten(d: nat) -> bool
    decreases d,
{
    d == 1 || (d >= 10 && d % 10 == 0 && power_of_ten(d / 10))
}

/// The one-character text of a decimal digit.
fn digit_text(d: u64) -> (text: &'static str)
    requires
        d < 10,
    ensures
        text@ == seq![digit(d as nat)],
{
    proof {
        reveal_strlit("0");
        reveal_strlit("1");
        reveal_strlit("2");
        reveal_strlit("3");
        reveal_strlit("4");
        reveal_strlit("5");
        reveal_strlit("6");
        reveal_strlit("7");
        reveal_strlit("8");
        reveal_strlit("9");
    }
    if d == 0 {
        "0"
    } else if d == 1 {
        "1"
    } else if d == 2 {
        "2"
    } else if d == 3 {
        "3"
    } else if d == 4 {
        "4"
    } else if d == 5 {
        "5"
    } else if d == 6 {
        "6"
    } else if d == 7 {
        "7"
    } else if d == 8 {
        "8"
    } else {
        "9"
    }
}

impl PeerId {
    /// The 64-bit value behind the identifier.
    pub fn raw(&self) -> (r: u64)
        ensures
            r == self.0,
    {
        self.0
    }

    /// The identifier as text: its value in decimal.
    pub fn to_string(&self) -> (text: String)
        ensures
            text@ == decimal(self.0 as nat),
    {
        let n: u64 = self.0;
        let mut div: u64 = 1;
        while n / div >= 10
            invariant
                div >= 1,
                power_of_ten(div as nat),
                div == 1 || n / div >= 1,
            decreases n / div,
        {
            let ghost (number, below) = (n as int, div as int);
            assert(below * 10 <= number && number / (below * 10) < number / below && (number
                / below) / 10 == number / (below * 10)) by (nonlinear_arith)
                requires
                    number / below >= 10,
                    below >= 1,
            ;
            div = div * 10;
        }
        let mut text = String::new();
        text.append(digit_text(n / div));
        while div > 1
            invariant
                div >= 1,
                power_of_ten(div as nat),
                div == 1 || n / div >= 1,
                text@ == decimal((n / div) as nat),
            decreases div,
        {
            div = div / 10;
            let ghost (number, below) = (n as int, div as int);
            assert((number / below) / 10 == number / (below * 10) && number / below >= 10)
                by (nonlinear_arith)
                requires
                    below >= 1,
                    number / (below * 10) >= 1,
            ;
            text.append(digit_text((n / div) % 10));
        }
        text
    }
}

/// One inbound item: who sent it and what was sent.
#[derive(Clone, Debug, PartialEq, Eq)]
pub struct Message<T> {
    pub src: PeerId,
    pub data: T,
}

/// Delivery class requested of the backend for one send or broadcast.
#[derive(Copy, Clone, Debug, Hash, PartialEq, Eq, PartialOrd, Ord, Structural)]
pub enum Reliability {
    Reliable,
    Unreliable,
}

/// Whether the payload of one send or broadcast should travel compressed.
#[derive(Copy, Clone, Debug, Hash, PartialEq, Eq, PartialOrd, Ord, Structural)]
pub enum Compression {
    Compressed,
    Uncompressed,
}

} // verus!
