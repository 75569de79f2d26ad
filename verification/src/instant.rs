//! Instant type and associated functions.

use core::marker::PhantomData;
use vstd::prelude::*;
use vstd::std_specs::cmp::PartialOrdSpec;
use vstd::std_specs::ops::AddSpec;

use crate::conv;
use crate::duration::{lemma_duration_determined_by_view, spec_duration};
use crate::ClockTick;
use crate::Duration;

verus! {

broadcast use lemma_duration_determined_by_view;

/// A point in time, counted in ticks of the clock `C` since its epoch
/// (typically boot).
///
/// The clock parameter carries no data; it exists so that instants read from
/// different clocks cannot be mixed or compared. An instant's meaning in
/// specifications is its tick count, reached through `@`. Instants are
/// totally ordered by that count, which assumes the counter is monotonic and
/// does not wrap during the process lifetime.
#[derive(Debug)]
pub struct Instant<C> where C: ClockTick {
    ticks: u64,
    clock: PhantomData<C>,
}

impl<C: ClockTick> View for Instant<C> {
    type V = u64;

    closed spec fn view(&self) -> u64 {
        self.ticks
    }
}

/// The instant at `ticks` ticks since the epoch, at the specification level.
pub closed spec fn spec_instant<C: ClockTick>(ticks: u64) -> Instant<C> {
    Instant { ticks, clock: PhantomData }
}

/// The instant at `ticks` ticks sits exactly `ticks` ticks from the epoch.
pub broadcast proof fn lemma_spec_instant_view<C: ClockTick>(ticks: u64)
    ensures
        (#[trigger] spec_instant::<C>(ticks))@ == ticks,
{
}

/// Two instants of one clock with the same tick count are the same value.
pub broadcast proof fn lemma_instant_determined_by_view<C: ClockTick>(i: Instant<C>)
    ensures
        spec_instant::<C>(#[trigger] i@) == i,
{
}

impl<C: ClockTick> Clone for Instant<C> {
    fn clone(&self) -> (r: Self)
        ensures
            r == *self,
    {
        Instant { ticks: self.ticks, clock: PhantomData }
    }
}

impl<C: ClockTick> Copy for Instant<C> {}

impl<C: ClockTick> vstd::std_specs::cmp::PartialEqSpecImpl for Instant<C> {
    open spec fn obeys_eq_spec() -> bool {
        true
    }

    open spec fn eq_spec(&self, other: &Self) -> bool {
        self@ == other@
    }
}

impl<C: ClockTick> PartialEq for Instant<C> {
    fn eq(&self, other: &Self) -> bool {
        self.ticks == other.ticks
    }
}

impl<C: ClockTick> Eq for Instant<C> {}

impl<C: ClockTick> vstd::std_specs::cmp::PartialOrdSpecImpl for Instant<C> {
    open spec fn obeys_partial_cmp_spec() -> bool {
        true
    }

    open spec fn partial_cmp_spec(&self, other: &Self) -> Option<core::cmp::Ordering> {
        if self@ < other@ {
            Some(core::cmp::Ordering::Less)
        } else if self@ == other@ {
            Some(core::cmp::Ordering::Equal)
        } else {
            Some(core::cmp::Ordering::Greater)
        }
    }
}

impl<C: ClockTick> PartialOrd for Instant<C> {
    fn partial_cmp(&self, other: &Self) -> Option<core::cmp::Ordering> {
        if self.ticks < other.ticks {
            Some(core::cmp::Ordering::Less)
        } else if self.ticks == other.ticks {
            Some(core::cmp::Ordering::Equal)
        } else {
            Some(core::cmp::Ordering::Greater)
        }
    }
}

impl<C: ClockTick> Instant<C> {
    /// Return the instant the clock reads at this moment. Two calls in
    /// sequence read non-decreasing tick counts when the clock source keeps
    /// its promise of monotonicity; nothing else is known of the value.
    pub fn now() -> Self {
        Instant { ticks: C::ticks(), clock: PhantomData }
    }

    /// Create an instant from a ticks count since the epoch.
    pub fn from_ticks(ticks: u64) -> (r: Self)
        ensures
            r@ == ticks,
    {
        Instant { ticks, clock: PhantomData }
    }

    /// Create an instant from a microseconds count since the epoch. The
    /// converted tick count must fit in 64 bits.
    pub fn from_micros(micros: u64) -> (r: Self)
        requires
            conv::micros_to_ticks_spec(micros as int, C::rate() as int) <= u64::MAX,
        ensures
            r@ == conv::micros_to_ticks_spec(micros as int, C::rate() as int),
    {
        Self::from_ticks(conv::micros_to_ticks(micros, C::ticks_per_second()))
    }

    /// Create an instant from a milliseconds count since the epoch. The
    /// converted tick count must fit in 64 bits.
    pub fn from_millis(millis: u64) -> (r: Self)
        requires
            conv::millis_to_ticks_spec(millis as int, C::rate() as int) <= u64::MAX,
        ensures
            r@ == conv::millis_to_ticks_spec(millis as int, C::rate() as int),
    {
        Self::from_ticks(conv::millis_to_ticks(millis, C::ticks_per_second()))
    }

    /// Create an instant from a seconds count since the epoch. The converted
    /// tick count must fit in 64 bits.
    pub fn from_secs(secs: u64) -> (r: Self)
        requires
            conv::secs_to_ticks_spec(secs as int, C::rate() as int) <= u64::MAX,
        ensures
            r@ == conv::secs_to_ticks_spec(secs as int, C::rate() as int),
    {
        Self::from_ticks(conv::secs_to_ticks(secs, C::ticks_per_second()))
    }

    /// Return ticks count since the epoch.
    pub fn to_ticks(&self) -> (r: u64)
        ensures
            r == self@,
    {
        self.ticks
    }

    /// Return microseconds count since the epoch, rounded toward zero. The
    /// converted count must fit in 64 bits.
    pub fn to_micros(&self) -> (r: u64)
        requires
            conv::ticks_to_micros_spec(self@ as int, C::rate() as int) <= u64::MAX,
        ensures
            r == conv::ticks_to_micros_spec(self@ as int, C::rate() as int),
    {
        conv::ticks_to_micros(self.ticks, C::ticks_per_second())
    }

    /// Return milliseconds count since the epoch, rounded toward zero. The
    /// converted count must fit in 64 bits.
    pub fn to_millis(&self) -> (r: u64)
        requires
            conv::ticks_to_millis_spec(self@ as int, C::rate() as int) <= u64::MAX,
        ensures
            r == conv::ticks_to_millis_spec(self@ as int, C::rate() as int),
    {
        conv::ticks_to_millis(self.ticks, C::ticks_per_second())
    }

    /// Return seconds count since the epoch, rounded toward zero.
    pub fn to_secs(&self) -> (r: u64)
        ensures
            r == conv::ticks_to_secs_spec(self@ as int, C::rate() as int),
    {
        conv::ticks_to_secs(self.ticks, C::ticks_per_second())
    }

    /// Return the span between this instant and an earlier one. The earlier
    /// instant must not lie after this one: an inverted pair signals clock
    /// non-monotonicity or caller error, a fatal condition.
    pub fn duration_since(&self, earlier: Self) -> (r: Duration<C>)
        requires
            self@ >= earlier@,
        ensures
            r@ == self@ - earlier@,
    {
        match self.ticks.checked_sub(earlier.ticks) {
            Some(gap) => Duration::from_ticks(gap),
            None => vstd::pervasive::unreached(),
        }
    }

    /// Shift this instant later by a span, returning a new instant, or no
    /// value when the shifted tick count does not fit in 64 bits.
    pub fn checked_add(&self, duration: Duration<C>) -> (r: Option<Self>)
        ensures
            self@ + duration@ <= u64::MAX ==> r is Some && r.unwrap()@ == self@ + duration@,
            self@ + duration@ > u64::MAX ==> r is None,
    {
        match self.ticks.checked_add(duration.to_ticks()) {
            Some(ticks) => Some(Instant { ticks, clock: PhantomData }),
            None => None,
        }
    }

    /// Shift this instant earlier by a span, returning a new instant, or no
    /// value when the span reaches back past the epoch.
    pub fn checked_sub(&self, duration: Duration<C>) -> (r: Option<Self>)
        ensures
            self@ >= duration@ ==> r is Some && r.unwrap()@ == self@ - duration@,
            self@ < duration@ ==> r is None,
    {
        match self.ticks.checked_sub(duration.to_ticks()) {
            Some(ticks) => Some(Instant { ticks, clock: PhantomData }),
            None => None,
        }
    }
}

impl<C: ClockTick> vstd::std_specs::ops::AddSpecImpl<Duration<C>> for Instant<C> {
    open spec fn obeys_add_spec() -> bool {
        true
    }

    open spec fn add_req(self, rhs: Duration<C>) -> bool {
        self@ + rhs@ <= u64::MAX
    }

    open spec fn add_spec(self, rhs: Duration<C>) -> Self::Output {
        spec_instant((self@ + rhs@) as u64)
    }
}

impl<C: ClockTick> core::ops::Add<Duration<C>> for Instant<C> {
    type Output = Self;

    /// Shift an instant later by a span. The shifted tick count must fit in
    /// 64 bits; an overflowing shift is a fatal condition, not a value.
    fn add(self, rhs: Duration<C>) -> Self {
        match self.checked_add(rhs) {
            Some(i) => i,
            None => vstd::pervasive::unreached(),
        }
    }
}

impl<C: ClockTick> vstd::std_specs::ops::SubSpecImpl<Duration<C>> for Instant<C> {
    open spec fn obeys_sub_spec() -> bool {
        true
    }

    open spec fn sub_req(self, rhs: Duration<C>) -> bool {
        self@ >= rhs@
    }

    open spec fn sub_spec(self, rhs: Duration<C>) -> Self::Output {
        spec_instant((self@ - rhs@) as u64)
    }
}

impl<C: ClockTick> core::ops::Sub<Duration<C>> for Instant<C> {
    type Output = Self;

    /// Shift an instant earlier by a span. The span must not reach back past
    /// the epoch; an underflowing shift is a fatal condition, not a value.
    fn sub(self, rhs: Duration<C>) -> Self {
        match self.checked_sub(rhs) {
            Some(i) => i,
            None => vstd::pervasive::unreached(),
        }
    }
}

impl<C: ClockTick> vstd::std_specs::ops::SubSpecImpl<Instant<C>> for Instant<C> {
    open spec fn obeys_sub_spec() -> bool {
        true
    }

    open spec fn sub_req(self, rhs: Instant<C>) -> bool {
        self@ >= rhs@
    }

    open spec fn sub_spec(self, rhs: Instant<C>) -> Self::Output {
        spec_duration((self@ - rhs@) as u64)
    }
}

impl<C: ClockTick> core::ops::Sub<Instant<C>> for Instant<C> {
    type Output = Duration<C>;

    /// The span between two instants. The right operand must not lie after
    /// the left; an inverted pair is a fatal condition, not a value.
    fn sub(self, rhs: Instant<C>) -> Duration<C> {
        self.duration_since(rhs)
    }
}

/// Shifting an earlier instant by the span up to a later one returns the
/// later instant: taking the duration since an instant inverts adding a
/// duration to it, and the shift cannot overflow.
pub proof fn lemma_duration_since_inverts_add<C: ClockTick>(
    a: Instant<C>,
    b: Instant<C>,
    d: Duration<C>,
)
    requires
        a@ <= b@,
        d@ == b@ - a@,
    ensures
        a.add_req(d),
        a.add_spec(d) == b,
{
}

/// Instants order exactly as their tick counts do: one instant compares
/// below another precisely when its tick count is the smaller.
pub proof fn lemma_instant_order<C: ClockTick>(a: Instant<C>, b: Instant<C>)
    ensures
        a.partial_cmp_spec(&b) == Some(core::cmp::Ordering::Less) <==> a@ < b@,
        a.partial_cmp_spec(&b) == Some(core::cmp::Ordering::Equal) <==> a@ == b@,
        a.partial_cmp_spec(&b) == Some(core::cmp::Ordering::Greater) <==> a@ > b@,
{
}

} // verus!
