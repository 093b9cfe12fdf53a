//! Monotonic identifier source for orders, with optional string prefix.

use vstd::prelude::*;
use vstd::string::StringExecFns;

verus! {

/// The character for one decimal digit value.
pub open spec fn spec_digit_char(d: nat) -> char {
    if d == 0 {
        '0'
    } else if d == 1 {
        '1'
    } else if d == 2 {
        '2'
    } else if d == 3 {
        '3'
    } else if d == 4 {
        '4'
    } else if d == 5 {
        '5'
    } else if d == 6 {
        '6'
    } else if d == 7 {
        '7'
    } else if d == 8 {
        '8'
    } else {
        '9'
    }
}

/// The decimal rendering of a number, most significant digit first.
pub open spec fn dec_digits(n: nat) -> Seq<char>
    decreases n,
{
    if n < 10 {
        seq![spec_digit_char(n)]
    } else {
        dec_digits(n / 10).push(spec_digit_char(n % 10))
    }
}

/// The single-character string of one decimal digit value.
fn digit_str(d: u64) -> (r: &'static str)
    requires
        d < 10,
    ensures
        r@ =~= seq![spec_digit_char(d as nat)],
{
    proof {
        reveal_strlit("0");
        reveal_strlit("1");
        reveal_strlit("2");
        reveal_strlit("3");
        reveal_strlit("4");
        reveal_strlit("5");
        reveal_strlit("6");
        reveal_strlit("7");
        reveal_strlit("8");
        reveal_strlit("9");
    }
    if d == 0 {
        "0"
    } else if d == 1 {
        "1"
    } else if d == 2 {
        "2"
    } else if d == 3 {
        "3"
    } else if d == 4 {
        "4"
    } else if d == 5 {
        "5"
    } else if d == 6 {
        "6"
    } else if d == 7 {
        "7"
    } else if d == 8 {
        "8"
    } else {
        "9"
    }
}

/// Render a number in decimal.
pub fn u64_to_dec_string(n: u64) -> (r: String)
    ensures
        r@ == dec_digits(n as nat),
    decreases n,
{
    if n < 10 {
        digit_str(n).to_owned()
    } else {
        let mut s = u64_to_dec_string(n / 10);
        s.append(digit_str(n % 10));
        s
    }
}

/// The identifier string for a counter value under an optional prefix:
/// `prefix-value`, or the bare decimal value without a prefix.
pub open spec fn rendered_id(prefix: Option<Seq<char>>, v: nat) -> Seq<char> {
    match prefix {
        Some(p) => p + "-"@ + dec_digits(v),
        None => dec_digits(v),
    }
}

/// Hands out incremental identifiers, starting at 1.
pub struct IdGenerator {
    counter: u64,
    prefix: Option<String>,
}

impl IdGenerator {
    /// The value the next identifier will take.
    pub closed spec fn spec_counter(&self) -> u64 {
        self.counter
    }

    /// The configured prefix, if any.
    pub closed spec fn spec_prefix(&self) -> Option<Seq<char>> {
        match self.prefix {
            Some(p) => Some(p@),
            None => None,
        }
    }

    /// A generator starting at 1 with no prefix.
    pub fn new() -> (r: Self)
        ensures
            r.spec_counter() == 1,
            r.spec_prefix() is None,
    {
        IdGenerator { counter: 1, prefix: None }
    }

    /// A generator starting at 1 whose identifiers carry a prefix.
    pub fn with_prefix(prefix: &str) -> (r: Self)
        ensures
            r.spec_counter() == 1,
            r.spec_prefix() == Some(prefix@),
    {
        IdGenerator { counter: 1, prefix: Some(prefix.to_owned()) }
    }

    /// The value the next identifier will take.
    pub fn current(&self) -> (r: u64)
        ensures
            r == self.spec_counter(),
    {
        self.counter
    }

    /// Take the next raw counter value; every later value is strictly
    /// greater.
    pub fn next_value(&mut self) -> (r: u64)
        requires
            old(self).spec_counter() < u64::MAX,
        ensures
            r == old(self).spec_counter(),
            final(self).spec_counter() == old(self).spec_counter() + 1,
            final(self).spec_prefix() == old(self).spec_prefix(),
    {
        let v = self.counter;
        self.counter = self.counter + 1;
        v
    }

    /// Take the next identifier, rendered as a string.
    pub fn next_id(&mut self) -> (r: String)
        requires
            old(self).spec_counter() < u64::MAX,
        ensures
            r@ == rendered_id(old(self).spec_prefix(), old(self).spec_counter() as nat),
            final(self).spec_counter() == old(self).spec_counter() + 1,
            final(self).spec_prefix() == old(self).spec_prefix(),
    {
        proof {
            reveal_strlit("-");
        }
        let v = self.next_value();
        let digits = u64_to_dec_string(v);
        match &self.prefix {
            Some(p) => {
                let mut s = p.clone();
                s.append("-");
                s.append(digits.as_str());
                assert(s@ =~= rendered_id(old(self).spec_prefix(), v as nat));
                s
            },
            None => digits,
        }
    }

    /// Reset the counter back to 1.
    pub fn reset(&mut self)
        ensures
            final(self).spec_counter() == 1,
            final(self).spec_prefix() == old(self).spec_prefix(),
    {
        self.counter = 1;
    }
}

} // verus!
