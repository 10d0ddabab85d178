//! Decimal fractions: the numbers with digits after a point, held exactly.
use vstd::prelude::*;
use crate::text::{decimal, digit, push_unsigned};

verus! {

/// The number `magnitude / 10^scale`, negated where `negative` is set.
///
/// `6.4` is a magnitude of 64 at scale 1; `2.0` is 20 at scale 1, or 2 at
/// scale 0.
#[derive(Clone, Copy, Debug)]
pub struct Decimal {
    pub negative: bool,
    pub magnitude: u32,
    pub scale: u8,
}

/// `n` without its last `places` digits.
pub open spec fn without_last(n: nat, places: nat) -> nat
    decreases places,
{
    if places == 0 {
        n
    } else {
        without_last(n / 10, (places - 1) as nat)
    }
}

/// The last `places` digits of `n`, with zeros in front where `n` is short.
pub open spec fn last_digits(n: nat, places: nat) -> Seq<char>
    decreases places,
{
    if places == 0 {
        Seq::empty()
    } else {
        last_digits(n / 10, (places - 1) as nat).push(digit(n % 10))
    }
}

/// How many of the last `places` digits of `n` are zeros at the very end.
pub open spec fn spare_zeros(n: nat, places: nat) -> nat
    decreases places,
{
    if places > 0 && n % 10 == 0 {
        1 + spare_zeros(n / 10, (places - 1) as nat)
    } else {
        0
    }
}

impl Decimal {
    /// The digits after the point that are written: all but the zeros at the end.
    pub open spec fn places(self) -> nat {
        (self.scale - spare_zeros(self.magnitude as nat, self.scale as nat)) as nat
    }

    /// The magnitude without the zeros that are not written.
    pub open spec fn digits(self) -> nat {
        without_last(self.magnitude as nat, spare_zeros(self.magnitude as nat, self.scale as nat))
    }

    /// The sign, or nothing.
    pub open spec fn sign(self) -> Seq<char> {
        if self.negative {
            seq!['-']
        } else {
            Seq::empty()
        }
    }

    /// The number written with as few digits as it takes: `6.4`, `2`, `-0.05`.
    pub open spec fn shown(self) -> Seq<char> {
        self.sign() + decimal(without_last(self.digits(), self.places())) + (if self.places() > 0 {
            seq!['.'] + last_digits(self.digits(), self.places())
        } else {
            Seq::empty()
        })
    }

    /// The number written so that it cannot be taken for an integer: as
    /// `shown` writes it, with `.0` after a whole number.
    pub open spec fn shown_in_full(self) -> Seq<char> {
        self.shown() + (if self.places() > 0 {
            Seq::empty()
        } else {
            seq!['.', '0']
        })
    }

    /// The whole part: the number rounded towards zero.
    pub open spec fn whole(self) -> int {
        if self.negative {
            -(without_last(self.magnitude as nat, self.scale as nat) as int)
        } else {
            without_last(self.magnitude as nat, self.scale as nat) as int
        }
    }

    /// The decimal `magnitude / 10^scale`.
    pub fn new(magnitude: u32, scale: u8) -> (d: Decimal)
        ensures
            d == (Decimal { negative: false, magnitude, scale }),
    {
        Decimal { negative: false, magnitude, scale }
    }

    /// The number rounded towards zero.
    pub fn truncated(&self) -> (whole: i64)
        ensures
            whole == self.whole(),
    {
        let kept: u32 = drop_digits(self.magnitude, self.scale);
        if self.negative {
            -(kept as i64)
        } else {
            kept as i64
        }
    }

    /// Appends the number as `shown` writes it.
    pub fn push_shown(&self, s: &mut String)
        ensures
            final(s)@ == old(s)@ + self.shown(),
    {
        let places: u8 = self.written_places();
        let digits: u32 = drop_digits(self.magnitude, self.scale - places);
        if self.negative {
            s.push('-');
        }
        push_unsigned(s, drop_digits(digits, places) as u64);
        if places > 0 {
            s.push('.');
            push_last_digits(s, digits, places);
        }
        assert(s@ =~= old(s)@ + self.shown());
    }

    /// Appends the number as `shown_in_full` writes it.
    pub fn push_shown_in_full(&self, s: &mut String)
        ensures
            final(s)@ == old(s)@ + self.shown_in_full(),
    {
        self.push_shown(s);
        if self.written_places() == 0 {
            s.push('.');
            s.push('0');
        }
        assert(s@ =~= old(s)@ + self.shown_in_full());
    }

    /// The number of digits after the point that are written.
    fn written_places(&self) -> (places: u8)
        ensures
            places == self.places(),
            self.scale - places == spare_zeros(self.magnitude as nat, self.scale as nat),
    {
        let mut n: u32 = self.magnitude;
        let mut left: u8 = self.scale;
        while left > 0 && n % 10 == 0
            invariant
                left <= self.scale,
                spare_zeros(self.magnitude as nat, self.scale as nat) == (self.scale - left)
                    + spare_zeros(n as nat, left as nat),
            decreases left,
        {
            n = n / 10;
            left = left - 1;
        }
        left
    }
}

/// `n` without its last `places` digits.
fn drop_digits(n: u32, places: u8) -> (kept: u32)
    ensures
        kept == without_last(n as nat, places as nat),
    decreases places,
{
    if places == 0 {
        n
    } else {
        drop_digits(n / 10, places - 1)
    }
}

/// Appends the last `places` digits of `n`.
fn push_last_digits(s: &mut String, n: u32, places: u8)
    ensures
        final(s)@ == old(s)@ + last_digits(n as nat, places as nat),
    decreases places,
{
    if places > 0 {
        push_last_digits(s, n / 10, places - 1);
        let d: u8 = (n % 10) as u8;
        s.push((48u8 + d) as char);
    }
    assert(s@ =~= old(s)@ + last_digits(n as nat, places as nat));
}

} // verus!
