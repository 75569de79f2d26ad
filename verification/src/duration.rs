//! Duration type and associated functions.

use core::marker::PhantomData;
use vstd::prelude::*;
use vstd::std_specs::ops::AddSpec;

use crate::conv;
use crate::ClockTick;

verus! {

/// A non-negative span of time, counted in ticks of the clock `C`.
///
/// The clock parameter carries no data; it exists so that spans measured
/// against different clocks cannot be mixed, added, or compared. A duration's
/// meaning in specifications is its tick count, reached through `@`.
#[derive(Debug)]
pub struct Duration<C> where C: ClockTick {
    pub(crate) ticks: u64,
    pub(crate) clock: PhantomData<C>,
}

impl<C: ClockTick> View for Duration<C> {
    type V = u64;

    closed spec fn view(&self) -> u64 {
        self.ticks
    }
}

/// The duration of `ticks` ticks, at the specification level.
pub closed spec fn spec_duration<C: ClockTick>(ticks: u64) -> Duration<C> {
    Duration { ticks, clock: PhantomData }
}

/// The duration of `ticks` ticks counts exactly `ticks` ticks.
pub broadcast proof fn lemma_spec_duration_view<C: ClockTick>(ticks: u64)
    ensures
        (#[trigger] spec_duration::<C>(ticks))@ == ticks,
{
}

/// Two durations of one clock with the same tick count are the same value.
pub broadcast proof fn lemma_duration_determined_by_view<C: ClockTick>(d: Duration<C>)
    ensures
        spec_duration::<C>(#[trigger] d@) == d,
{
}

impl<C: ClockTick> Clone for Duration<C> {
    fn clone(&self) -> (r: Self)
        ensures
            r == *self,
    {
        Duration { ticks: self.ticks, clock: PhantomData }
    }
}

impl<C: ClockTick> Copy for Duration<C> {}

impl<C: ClockTick> vstd::std_specs::cmp::PartialEqSpecImpl for Duration<C> {
    open spec fn obeys_eq_spec() -> bool {
        true
    }

    open spec fn eq_spec(&self, other: &Self) -> bool {
        self@ == other@
    }
}

impl<C: ClockTick> PartialEq for Duration<C> {
    fn eq(&self, other: &Self) -> bool {
        self.ticks == other.ticks
    }
}

impl<C: ClockTick> Eq for Duration<C> {}

impl<C: ClockTick> vstd::std_specs::cmp::PartialOrdSpecImpl for Duration<C> {
    open spec fn obeys_partial_cmp_spec() -> bool {
        true
    }

    open spec fn partial_cmp_spec(&self, other: &Self) -> Option<core::cmp::Ordering> {
        if self@ < other@ {
            Some(core::cmp::Ordering::Less)
        } else if self@ == other@ {
            Some(core::cmp::Ordering::Equal)
        } else {
            Some(core::cmp::Ordering::Greater)
        }
    }
}

impl<C: ClockTick> PartialOrd for Duration<C> {
    fn partial_cmp(&self, other: &Self) -> Option<core::cmp::Ordering> {
        if self.ticks < other.ticks {
            Some(core::cmp::Ordering::Less)
        } else if self.ticks == other.ticks {
            Some(core::cmp::Ordering::Equal)
        } else {
            Some(core::cmp::Ordering::Greater)
        }
    }
}

impl<C: ClockTick> Duration<C> {
    /// Create a duration from a ticks count.
    pub fn from_ticks(ticks: u64) -> (r: Self)
        ensures
            r@ == ticks,
    {
        Duration { ticks, clock: PhantomData }
    }

    /// Create a duration from a microseconds count. The converted tick count
    /// must fit in 64 bits.
    pub fn from_micros(micros: u64) -> (r: Self)
        requires
            conv::micros_to_ticks_spec(micros as int, C::rate() as int) <= u64::MAX,
        ensures
            r@ == conv::micros_to_ticks_spec(micros as int, C::rate() as int),
    {
        Self::from_ticks(conv::micros_to_ticks(micros, C::ticks_per_second()))
    }

    /// Create a duration from a milliseconds count. The converted tick count
    /// must fit in 64 bits.
    pub fn from_millis(millis: u64) -> (r: Self)
        requires
            conv::millis_to_ticks_spec(millis as int, C::rate() as int) <= u64::MAX,
        ensures
            r@ == conv::millis_to_ticks_spec(millis as int, C::rate() as int),
    {
        Self::from_ticks(conv::millis_to_ticks(millis, C::ticks_per_second()))
    }

    /// Create a duration from a seconds count. The converted tick count must
    /// fit in 64 bits.
    pub fn from_secs(secs: u64) -> (r: Self)
        requires
            conv::secs_to_ticks_spec(secs as int, C::rate() as int) <= u64::MAX,
        ensures
            r@ == conv::secs_to_ticks_spec(secs as int, C::rate() as int),
    {
        Self::from_ticks(conv::secs_to_ticks(secs, C::ticks_per_second()))
    }

    /// Return tick count.
    pub fn to_ticks(&self) -> (r: u64)
        ensures
            r == self@,
    {
        self.ticks
    }

    /// Return duration as microseconds, rounded toward zero. The converted
    /// count must fit in 64 bits.
    pub fn to_micros(&self) -> (r: u64)
        requires
            conv::ticks_to_micros_spec(self@ as int, C::rate() as int) <= u64::MAX,
        ensures
            r == conv::ticks_to_micros_spec(self@ as int, C::rate() as int),
    {
        conv::ticks_to_micros(self.ticks, C::ticks_per_second())
    }

    /// Return duration as milliseconds, rounded toward zero. The converted
    /// count must fit in 64 bits.
    pub fn to_millis(&self) -> (r: u64)
        requires
            conv::ticks_to_millis_spec(self@ as int, C::rate() as int) <= u64::MAX,
        ensures
            r == conv::ticks_to_millis_spec(self@ as int, C::rate() as int),
    {
        conv::ticks_to_millis(self.ticks, C::ticks_per_second())
    }

    /// Return duration as seconds, rounded toward zero.
    pub fn to_secs(&self) -> (r: u64)
        ensures
            r == conv::ticks_to_secs_spec(self@ as int, C::rate() as int),
    {
        conv::ticks_to_secs(self.ticks, C::ticks_per_second())
    }

    /// Add durations, returning a new duration, or no value when the sum of
    /// the tick counts does not fit in 64 bits.
    pub fn checked_add(self, rhs: Self) -> (r: Option<Self>)
        ensures
            self@ + rhs@ <= u64::MAX ==> r is Some && r.unwrap()@ == self@ + rhs@,
            self@ + rhs@ > u64::MAX ==> r is None,
    {
        match self.ticks.checked_add(rhs.ticks) {
            Some(ticks) => Some(Duration { ticks, clock: PhantomData }),
            None => None,
        }
    }

    /// Subtract durations, returning a new duration, or no value when the
    /// right operand exceeds the left: a negative span has no representation.
    pub fn checked_sub(self, rhs: Self) -> (r: Option<Self>)
        ensures
            self@ >= rhs@ ==> r is Some && r.unwrap()@ == self@ - rhs@,
            self@ < rhs@ ==> r is None,
    {
        match self.ticks.checked_sub(rhs.ticks) {
            Some(ticks) => Some(Duration { ticks, clock: PhantomData }),
            None => None,
        }
    }

    /// Multiply a duration by a scalar, returning a new duration, or no
    /// value when the product does not fit in 64 bits.
    pub fn checked_mul(self, rhs: u32) -> (r: Option<Self>)
        ensures
            self@ * rhs <= u64::MAX ==> r is Some && r.unwrap()@ == self@ * rhs,
            self@ * rhs > u64::MAX ==> r is None,
    {
        match self.ticks.checked_mul(rhs as u64) {
            Some(ticks) => Some(Duration { ticks, clock: PhantomData }),
            None => None,
        }
    }

    /// Divide a duration by a scalar, rounding toward zero, and returning no
    /// value when the scalar is zero.
    pub fn checked_div(self, rhs: u32) -> (r: Option<Self>)
        ensures
            rhs != 0 ==> r is Some && r.unwrap()@ == self@ as int / rhs as int,
            rhs == 0 ==> r is None,
    {
        match self.ticks.checked_div(rhs as u64) {
            Some(ticks) => Some(Duration { ticks, clock: PhantomData }),
            None => None,
        }
    }
}

impl<C: ClockTick> vstd::std_specs::ops::AddSpecImpl for Duration<C> {
    open spec fn obeys_add_spec() -> bool {
        true
    }

    open spec fn add_req(self, rhs: Self) -> bool {
        self@ + rhs@ <= u64::MAX
    }

    open spec fn add_spec(self, rhs: Self) -> Self::Output {
        spec_duration((self@ + rhs@) as u64)
    }
}

impl<C: ClockTick> core::ops::Add for Duration<C> {
    type Output = Self;

    /// Add durations. The sum of the tick counts must fit in 64 bits; an
    /// overflowing sum is a fatal condition, not a value.
    fn add(self, rhs: Self) -> Self {
        match self.checked_add(rhs) {
            Some(d) => d,
            None => vstd::pervasive::unreached(),
        }
    }
}

impl<C: ClockTick> vstd::std_specs::ops::SubSpecImpl for Duration<C> {
    open spec fn obeys_sub_spec() -> bool {
        true
    }

    open spec fn sub_req(self, rhs: Self) -> bool {
        self@ >= rhs@
    }

    open spec fn sub_spec(self, rhs: Self) -> Self::Output {
        spec_duration((self@ - rhs@) as u64)
    }
}

impl<C: ClockTick> core::ops::Sub for Duration<C> {
    type Output = Self;

    /// Subtract durations. The right operand must not exceed the left; an
    /// underflowing difference is a fatal condition, not a value.
    fn sub(self, rhs: Self) -> Self {
        match self.checked_sub(rhs) {
            Some(d) => d,
            None => vstd::pervasive::unreached(),
        }
    }
}

impl<C: ClockTick> vstd::std_specs::ops::MulSpecImpl<u32> for Duration<C> {
    open spec fn obeys_mul_spec() -> bool {
        true
    }

    open spec fn mul_req(self, rhs: u32) -> bool {
        self@ * rhs <= u64::MAX
    }

    open spec fn mul_spec(self, rhs: u32) -> Self::Output {
        spec_duration((self@ * rhs) as u64)
    }
}

impl<C: ClockTick> core::ops::Mul<u32> for Duration<C> {
    type Output = Self;

    /// Multiply a duration by a scalar. The product must fit in 64 bits; an
    /// overflowing product is a fatal condition, not a value.
    fn mul(self, rhs: u32) -> Self {
        match self.checked_mul(rhs) {
            Some(d) => d,
            None => vstd::pervasive::unreached(),
        }
    }
}

impl<C: ClockTick> vstd::std_specs::ops::DivSpecImpl<u32> for Duration<C> {
    open spec fn obeys_div_spec() -> bool {
        true
    }

    open spec fn div_req(self, rhs: u32) -> bool {
        rhs != 0
    }

    open spec fn div_spec(self, rhs: u32) -> Self::Output {
        spec_duration((self@ as int / rhs as int) as u64)
    }
}

impl<C: ClockTick> core::ops::Div<u32> for Duration<C> {
    type Output = Self;

    /// Divide a duration by a scalar, rounding toward zero. The scalar must
    /// not be zero; division by zero is a fatal condition, not a value.
    fn div(self, rhs: u32) -> Self {
        match self.checked_div(rhs) {
            Some(d) => d,
            None => vstd::pervasive::unreached(),
        }
    }
}

/// Adding a zero-length duration changes nothing: any sum of `d` and a
/// duration of zero ticks is `d` itself.
pub proof fn lemma_add_zero_identity<C: ClockTick>(d: Duration<C>, z: Duration<C>)
    requires
        z@ == 0,
    ensures
        d.add_spec(z) == d,
{
}

/// An overflowing sum is fatal, never a wrapped value: the addition operator
/// admits exactly the pairs whose tick counts sum within 64 bits, and on
/// those it returns the true sum, so no call ever yields a wrapped result.
pub proof fn lemma_add_overflow_is_fatal<C: ClockTick>(a: Duration<C>, b: Duration<C>)
    ensures
        a.add_req(b) <==> a@ + b@ <= u64::MAX,
        a.add_req(b) ==> a.add_spec(b)@ == a@ + b@,
{
}

/// Duration addition is commutative: either order of the summands gives the
/// same value.
pub proof fn lemma_add_commutative<C: ClockTick>(a: Duration<C>, b: Duration<C>)
    ensures
        a.add_spec(b) == b.add_spec(a),
{
}

/// Duration addition is associative: the grouping of summands does not
/// matter when every partial sum fits in 64 bits.
pub proof fn lemma_add_associative<C: ClockTick>(a: Duration<C>, b: Duration<C>, c: Duration<C>)
    requires
        a@ + b@ + c@ <= u64::MAX,
    ensures
        a.add_spec(b).add_spec(c) == a.add_spec(b.add_spec(c)),
{
}

} // verus!
