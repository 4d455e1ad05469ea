//! Signed spans of time, with the arithmetic of `chrono`.

use vstd::prelude::*;

verus! {

/// A signed span of time, in whole seconds and a rest of less than a second. Where neither is
/// zero, both have the same sign.
#[derive(Debug, Clone, Copy, PartialEq, Eq, Structural)]
pub struct Span {
    secs: i64,
    nanos: i32,
}

/// The nanoseconds in `secs` seconds.
pub open spec fn seconds(secs: int) -> int {
    secs * 1_000_000_000
}

/// The nanoseconds in `ms` milliseconds.
pub open spec fn millis(ms: int) -> int {
    ms * 1_000_000
}

/// Whether a span of `nanos` nanoseconds is within the range of `chrono::TimeDelta`: `i64::MAX`
/// milliseconds either way.
pub open spec fn in_range(nanos: int) -> bool {
    -millis(i64::MAX as int) <= nanos <= millis(i64::MAX as int)
}

/// Whether seconds and nanoseconds are the parts of a span: the rest is less than a second and has
/// the sign of the seconds.
pub open spec fn are_parts(secs: i64, nanos: i32) -> bool {
    &&& -1_000_000_000 < nanos < 1_000_000_000
    &&& secs > 0 ==> nanos >= 0
    &&& secs < 0 ==> nanos <= 0
}

/// The whole milliseconds in `nanos` nanoseconds, rounded toward zero.
pub open spec fn whole_millis(nanos: int) -> int {
    if nanos >= 0 {
        nanos / 1_000_000
    } else {
        -((-nanos) / 1_000_000)
    }
}

impl View for Span {
    type V = int;

    /// The span in nanoseconds.
    closed spec fn view(&self) -> int {
        seconds(self.secs as int) + self.nanos
    }
}

/// `chrono::TimeDelta::try_milliseconds`: the span of `ms` milliseconds, for every number but
/// `i64::MIN`. It is handed out by its whole seconds and the rest of the same sign.
#[verifier::external_body]
fn chrono_try_milliseconds(ms: i64) -> (r: Option<(i64, i32)>)
    ensures
        r is Some <==> ms != i64::MIN,
        r matches Some((secs, nanos)) ==> are_parts(secs, nanos) && seconds(secs as int) + nanos
            == millis(ms as int),
{
    let d = chrono::TimeDelta::try_milliseconds(ms)?;
    Some((d.num_seconds(), d.subsec_nanos()))
}

/// `chrono::TimeDelta::try_seconds`: the span of `secs` seconds, where that is within range. It is
/// handed out by its whole seconds and the rest of the same sign.
#[verifier::external_body]
fn chrono_try_seconds(secs: i64) -> (r: Option<(i64, i32)>)
    ensures
        r is Some <==> in_range(seconds(secs as int)),
        r matches Some((s, nanos)) ==> are_parts(s, nanos) && seconds(s as int) + nanos == seconds(
            secs as int,
        ),
{
    let d = chrono::TimeDelta::try_seconds(secs)?;
    Some((d.num_seconds(), d.subsec_nanos()))
}

/// `chrono::TimeDelta::checked_add`: the sum, where that is within range. The spans are handed over
/// by seconds and nanoseconds of no sign, and the sum is handed out by its whole seconds and the
/// rest of the same sign.
#[verifier::external_body]
fn chrono_checked_add(a_secs: i64, a_nanos: u32, b_secs: i64, b_nanos: u32) -> (r: Option<
    (i64, i32),
>)
    requires
        a_nanos < 1_000_000_000 && in_range(seconds(a_secs as int) + a_nanos),
        b_nanos < 1_000_000_000 && in_range(seconds(b_secs as int) + b_nanos),
    ensures
        r is Some <==> in_range(seconds(a_secs + b_secs) + a_nanos + b_nanos),
        r matches Some((secs, nanos)) ==> are_parts(secs, nanos) && seconds(secs as int) + nanos
            == seconds(a_secs + b_secs) + a_nanos + b_nanos,
{
    let a = chrono::TimeDelta::new(a_secs, a_nanos)?;
    let b = chrono::TimeDelta::new(b_secs, b_nanos)?;
    let d = a.checked_add(&b)?;
    Some((d.num_seconds(), d.subsec_nanos()))
}

/// `chrono::TimeDelta::checked_sub`: the difference, where that is within range. The spans are
/// handed over by seconds and nanoseconds of no sign, and the difference is handed out by its whole
/// seconds and the rest of the same sign.
#[verifier::external_body]
fn chrono_checked_sub(a_secs: i64, a_nanos: u32, b_secs: i64, b_nanos: u32) -> (r: Option<
    (i64, i32),
>)
    requires
        a_nanos < 1_000_000_000 && in_range(seconds(a_secs as int) + a_nanos),
        b_nanos < 1_000_000_000 && in_range(seconds(b_secs as int) + b_nanos),
    ensures
        r is Some <==> in_range(seconds(a_secs - b_secs) + a_nanos - b_nanos),
        r matches Some((secs, nanos)) ==> are_parts(secs, nanos) && seconds(secs as int) + nanos
            == seconds(a_secs - b_secs) + a_nanos - b_nanos,
{
    let a = chrono::TimeDelta::new(a_secs, a_nanos)?;
    let b = chrono::TimeDelta::new(b_secs, b_nanos)?;
    let d = a.checked_sub(&b)?;
    Some((d.num_seconds(), d.subsec_nanos()))
}

/// `chrono::TimeDelta::num_milliseconds`: the whole milliseconds, rounded toward zero. The span is
/// handed over by seconds and nanoseconds of no sign; one within range is a `TimeDelta`.
#[verifier::external_body]
fn chrono_num_milliseconds(secs: i64, nanos: u32) -> (r: Option<i64>)
    requires
        nanos < 1_000_000_000 && in_range(seconds(secs as int) + nanos),
    ensures
        r is Some,
        r matches Some(ms) ==> ms == whole_millis(seconds(secs as int) + nanos),
{
    let d = chrono::TimeDelta::new(secs, nanos)?;
    Some(d.num_milliseconds())
}

impl Span {
    #[verifier::type_invariant]
    spec fn normal(self) -> bool {
        are_parts(self.secs, self.nanos) && in_range(self@)
    }

    /// The span of `secs` seconds and `nanos` nanoseconds, `None` where that is not within range.
    pub fn from_parts(secs: i64, nanos: i32) -> (r: Option<Span>)
        requires
            are_parts(secs, nanos),
        ensures
            r is Some <==> in_range(seconds(secs as int) + nanos),
            r matches Some(s) ==> s@ == seconds(secs as int) + nanos,
    {
        let total: i128 = secs as i128 * 1_000_000_000 + nanos as i128;
        let limit: i128 = i64::MAX as i128 * 1_000_000;
        if -limit <= total && total <= limit {
            Some(Span { secs, nanos })
        } else {
            None
        }
    }

    /// The whole seconds, rounded toward zero, and the nanoseconds that are left.
    pub fn parts(&self) -> (r: (i64, i32))
        ensures
            self@ == seconds(r.0 as int) + r.1,
            are_parts(r.0, r.1),
    {
        proof {
            use_type_invariant(self);
        }
        (self.secs, self.nanos)
    }

    /// The whole seconds, rounded down, and the nanoseconds that are left.
    fn floor(&self) -> (r: (i64, u32))
        ensures
            r.1 < 1_000_000_000,
            self@ == seconds(r.0 as int) + r.1,
            in_range(self@),
    {
        proof {
            use_type_invariant(self);
        }
        if self.nanos < 0 {
            (self.secs - 1, (self.nanos + 1_000_000_000) as u32)
        } else {
            (self.secs, self.nanos as u32)
        }
    }

    /// The empty span.
    pub fn zero() -> (r: Span)
        ensures
            r@ == 0,
    {
        Span { secs: 0, nanos: 0 }
    }

    /// The span of `ms` milliseconds.
    pub fn from_millis(ms: i64) -> (r: Option<Span>)
        ensures
            r is Some <==> ms != i64::MIN,
            r matches Some(s) ==> s@ == millis(ms as int),
    {
        let (secs, nanos) = chrono_try_milliseconds(ms)?;
        Some(Span { secs, nanos })
    }

    /// The span of `secs` seconds.
    pub fn from_secs(secs: i64) -> (r: Option<Span>)
        ensures
            r is Some <==> in_range(seconds(secs as int)),
            r matches Some(s) ==> s@ == seconds(secs as int),
    {
        let (secs, nanos) = chrono_try_seconds(secs)?;
        Some(Span { secs, nanos })
    }

    /// The sum of two spans.
    pub fn checked_add(self, other: Span) -> (r: Option<Span>)
        ensures
            r is Some <==> in_range(self@ + other@),
            r matches Some(s) ==> s@ == self@ + other@,
    {
        let a = self.floor();
        let b = other.floor();
        let (secs, nanos) = chrono_checked_add(a.0, a.1, b.0, b.1)?;
        Some(Span { secs, nanos })
    }

    /// The difference of two spans.
    pub fn checked_sub(self, other: Span) -> (r: Option<Span>)
        ensures
            r is Some <==> in_range(self@ - other@),
            r matches Some(s) ==> s@ == self@ - other@,
    {
        let a = self.floor();
        let b = other.floor();
        let (secs, nanos) = chrono_checked_sub(a.0, a.1, b.0, b.1)?;
        Some(Span { secs, nanos })
    }

    /// The whole milliseconds, rounded toward zero.
    pub fn num_milliseconds(self) -> (r: i64)
        ensures
            r == whole_millis(self@),
    {
        let a = self.floor();
        match chrono_num_milliseconds(a.0, a.1) {
            Some(ms) => ms,
            None => 0,
        }
    }

    /// The longer of this span and the empty one.
    pub fn or_zero(self) -> (r: Span)
        ensures
            r@ == (if self@ >= 0 { self@ } else { 0 }),
    {
        proof {
            use_type_invariant(&self);
        }
        if self.secs < 0 || self.nanos < 0 {
            Span::zero()
        } else {
            self
        }
    }
}

/// Whole milliseconds count back to the span that they make up.
pub proof fn law_millis_round_trip(ms: int)
    ensures
        whole_millis(millis(ms)) == ms,
{
}

} // verus!
