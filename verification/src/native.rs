//! Native scalar shapes that the wire model cannot carry directly: calendar
//! dates, naive date-times, the commit-timestamp sentinel, 64-bit float bit
//! patterns, and fixed-precision decimals.

use vstd::prelude::*;
use vstd::string::StringExecFns;

use crate::digits::{padded_dec, push_padded};

verus! {

/// A calendar date (year, month, day), without a time or a zone.
#[derive(Clone, Copy, Debug, PartialEq, Eq, Structural)]
pub struct Date {
    pub year: u16,
    pub month: u8,
    pub day: u8,
}

/// The textual form `YYYY-MM-DD` of a date, each part zero-padded.
pub open spec fn date_chars(d: Date) -> Seq<char> {
    padded_dec(d.year as nat, 4) + seq!['-'] + padded_dec(d.month as nat, 2) + seq!['-']
        + padded_dec(d.day as nat, 2)
}

impl Date {
    /// The calendar range the remote service accepts.
    pub open spec fn wf(&self) -> bool {
        &&& 1 <= self.year <= 9999
        &&& 1 <= self.month <= 12
        &&& 1 <= self.day <= 31
    }

    /// Renders the date as `YYYY-MM-DD`.
    pub fn render(&self) -> (s: String)
        ensures
            s@ == date_chars(*self),
    {
        let mut s = String::new();
        proof {
            reveal_strlit("-");
        }
        push_padded(&mut s, self.year as u64, 4);
        s.append("-");
        push_padded(&mut s, self.month as u64, 2);
        s.append("-");
        push_padded(&mut s, self.day as u64, 2);
        proof {
            assert(("-")@ =~= seq!['-']);
            assert(s@ =~= date_chars(*self));
        }
        s
    }
}

/// A naive date-time (no explicit zone), read as UTC when rendered.
#[derive(Clone, Copy, Debug, PartialEq, Eq, Structural)]
pub struct DateTime {
    pub date: Date,
    pub hour: u8,
    pub minute: u8,
    pub second: u8,
    pub nanosecond: u32,
}

/// The RFC 3339 textual form with nanosecond precision and an explicit UTC
/// marker: `YYYY-MM-DDTHH:MM:SS.nnnnnnnnnZ`.
pub open spec fn datetime_chars(t: DateTime) -> Seq<char> {
    date_chars(t.date) + seq!['T'] + padded_dec(t.hour as nat, 2) + seq![':'] + padded_dec(
        t.minute as nat,
        2,
    ) + seq![':'] + padded_dec(t.second as nat, 2) + seq!['.'] + padded_dec(t.nanosecond as nat, 9)
        + seq!['Z']
}

impl DateTime {
    pub open spec fn wf(&self) -> bool {
        &&& self.date.wf()
        &&& self.hour <= 23
        &&& self.minute <= 59
        &&& self.second <= 59
        &&& self.nanosecond < 1000000000
    }

    /// Renders the date-time as RFC 3339 with nanoseconds and a `Z` offset.
    pub fn render(&self) -> (s: String)
        ensures
            s@ == datetime_chars(*self),
    {
        let mut s = self.date.render();
        proof {
            reveal_strlit("T");
            reveal_strlit(":");
            reveal_strlit(".");
            reveal_strlit("Z");
        }
        s.append("T");
        push_padded(&mut s, self.hour as u64, 2);
        s.append(":");
        push_padded(&mut s, self.minute as u64, 2);
        s.append(":");
        push_padded(&mut s, self.second as u64, 2);
        s.append(".");
        push_padded(&mut s, self.nanosecond as u64, 9);
        s.append("Z");
        proof {
            assert(("T")@ =~= seq!['T']);
            assert((":")@ =~= seq![':']);
            assert((".")@ =~= seq!['.']);
            assert(("Z")@ =~= seq!['Z']);
            assert(s@ =~= datetime_chars(*self));
        }
        s
    }
}

/// The server-side directive meaning "use the transaction's commit time".
#[derive(Clone, Copy, Debug, PartialEq, Eq, Structural)]
pub struct CommitTimestamp {}

/// A 64-bit float, carried as its IEEE 754 bit pattern so that the
/// marshalling logic itself stays free of floating-point arithmetic.
#[derive(Clone, Copy, Debug, PartialEq, Eq, Structural)]
pub struct Float64 {
    pub bits: u64,
}

/// A fixed-precision decimal: sign, 96-bit coefficient, and a scale giving
/// the number of fractional digits. The bounds are enforced at construction.
#[derive(Clone, Copy, Debug, PartialEq, Eq)]
pub struct Decimal {
    negative: bool,
    coefficient: u128,
    scale: u32,
}

impl Decimal {
    #[verifier::type_invariant]
    spec fn inv(self) -> bool {
        &&& self.coefficient < 0x1000000000000000000000000
        &&& self.scale <= 28
    }

    pub closed spec fn negative_spec(&self) -> bool {
        self.negative
    }

    pub closed spec fn coefficient_spec(&self) -> u128 {
        self.coefficient
    }

    pub closed spec fn scale_spec(&self) -> u32 {
        self.scale
    }

    /// Builds a decimal; rejects a coefficient of 96 bits or more, or a scale
    /// above 28, the bounds of the underlying decimal representation.
    pub fn new(negative: bool, coefficient: u128, scale: u32) -> (r: Option<Decimal>)
        ensures
            (coefficient < 0x1000000000000000000000000 && scale <= 28) <==> r is Some,
            r matches Some(d) ==> d.negative_spec() == negative && d.coefficient_spec()
                == coefficient && d.scale_spec() == scale,
    {
        if coefficient < 0x1000000000000000000000000u128 && scale <= 28 {
            Some(Decimal { negative, coefficient, scale })
        } else {
            None
        }
    }

    pub fn is_negative(&self) -> (r: bool)
        ensures
            r == self.negative_spec(),
    {
        self.negative
    }

    pub fn coefficient(&self) -> (r: u128)
        ensures
            r == self.coefficient_spec(),
            r < 0x1000000000000000000000000,
    {
        proof {
            use_type_invariant(self);
        }
        self.coefficient
    }

    pub fn scale(&self) -> (r: u32)
        ensures
            r == self.scale_spec(),
            r <= 28,
    {
        proof {
            use_type_invariant(self);
        }
        self.scale
    }
}

} // verus!
