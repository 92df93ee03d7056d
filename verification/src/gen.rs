//! Identifier generation for code emission.
//!
//! The emitter names the variables it introduces by a one-letter prefix
//! followed by a counter; [`IdentFactory`] hands those names out in order.

use vstd::prelude::*;

verus! {

/// The character for one decimal digit.
pub open spec fn spec_digit(d: nat) -> char {
    if d == 0 {
        '0'
    } else if d == 1 {
        '1'
    } else if d == 2 {
        '2'
    } else if d == 3 {
        '3'
    } else if d == 4 {
        '4'
    } else if d == 5 {
        '5'
    } else if d == 6 {
        '6'
    } else if d == 7 {
        '7'
    } else if d == 8 {
        '8'
    } else {
        '9'
    }
}

/// The decimal digits of `n`, most significant first.
pub open spec fn spec_decimal(n: nat) -> Seq<char>
    decreases n,
{
    if n < 10 {
        seq![spec_digit(n)]
    } else {
        spec_decimal(n / 10).push(spec_digit(n % 10))
    }
}

/// Relies on std's String::push: appends the given character to the end of
/// the string.
pub assume_specification[ String::push ](s: &mut String, c: char)
    ensures
        final(s)@ == old(s)@.push(c),
;

/// The character for decimal digit `d`.
fn digit_char(d: usize) -> (c: char)
    requires
        d < 10,
    ensures
        c == spec_digit(d as nat),
{
    match d {
        0 => '0',
        1 => '1',
        2 => '2',
        3 => '3',
        4 => '4',
        5 => '5',
        6 => '6',
        7 => '7',
        8 => '8',
        _ => '9',
    }
}

/// The decimal rendering of `n`.
fn to_decimal(n: usize) -> (s: String)
    ensures
        s@ == spec_decimal(n as nat),
    decreases n,
{
    if n < 10 {
        let mut s = String::new();
        s.push(digit_char(n));
        proof {
            assert(s@ =~= spec_decimal(n as nat));
        }
        s
    } else {
        let mut s = to_decimal(n / 10);
        s.push(digit_char(n % 10));
        s
    }
}

/// Hands out identifiers `p0`, `p1`, … for a prefix letter `p`.
pub struct IdentFactory {
    prefix: char,
    current: usize,
}

impl IdentFactory {
    /// The prefix letter.
    pub closed spec fn prefix_of(self) -> char {
        self.prefix
    }

    /// The counter the next identifier will carry.
    pub closed spec fn current_of(self) -> int {
        self.current as int
    }

    /// A factory naming identifiers by `prefix` and a counter from zero.
    pub fn new(prefix: char) -> (f: IdentFactory)
        ensures
            f.prefix_of() == prefix,
            f.current_of() == 0,
    {
        IdentFactory { prefix, current: 0 }
    }

    /// The next identifier: the prefix followed by the counter's decimal
    /// digits.
    pub fn next(&mut self) -> (s: String)
        requires
            old(self).current_of() < usize::MAX,
        ensures
            s@ == seq![old(self).prefix_of()] + spec_decimal(old(self).current_of() as nat),
            final(self).prefix_of() == old(self).prefix_of(),
            final(self).current_of() == old(self).current_of() + 1,
    {
        let mut s = String::new();
        s.push(self.prefix);
        let digits = to_decimal(self.current);
        s.append(digits.as_str());
        self.current = self.current + 1;
        proof {
            assert(s@ =~= seq![old(self).prefix_of()] + spec_decimal(old(self).current_of() as nat));
        }
        s
    }
}

} // verus!
