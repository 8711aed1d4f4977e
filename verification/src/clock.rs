//! Monotonic time: deadlines for the timed phases and the timestamp that the
//! network stack is fed.

use vstd::prelude::*;

verus! {

/// How long the receiving phase may last, in microseconds.
pub const RECEIVE_WINDOW_MICROS: u64 = 20_000_000;

/// How long the link is polled after a disconnect, in microseconds.
pub const DRAIN_WINDOW_MICROS: u64 = 5_000_000;

/// A point on the monotonic clock, given as the moment a phase began and the
/// span granted to it. Both are counted in microseconds.
#[derive(Clone, Copy, Debug, PartialEq, Eq, Structural)]
pub struct Deadline {
    pub start: u64,
    pub span: u64,
}

impl Deadline {
    /// The deadline as a point in time. It is a mathematical integer, so a
    /// deadline set late in the clock's range does not wrap.
    pub open spec fn at(self) -> int {
        self.start + self.span
    }

    /// The deadline `span` microseconds after `now`.
    pub fn after(now: u64, span: u64) -> (deadline: Deadline)
        ensures
            deadline == (Deadline { start: now, span }),
            deadline.at() == now + span,
    {
        Deadline { start: now, span }
    }

    /// True once the clock has passed the deadline.
    pub fn exceeded(&self, now: u64) -> (late: bool)
        ensures
            late == (now > self.at()),
    {
        now > self.start && now - self.start > self.span
    }

    /// True while the clock has not yet reached the deadline.
    pub fn pending(&self, now: u64) -> (early: bool)
        ensures
            early == (now < self.at()),
    {
        now < self.start || now - self.start < self.span
    }
}

/// The instant of `smoltcp`. Nothing inside it is visible to contracts;
/// `instant_micros` stands for the count it wraps.
#[verifier::external_type_specification]
#[verifier::external_body]
pub struct ExInstant(smoltcp::time::Instant);

/// The count of microseconds that an instant of the network stack wraps: what
/// its `total_micros` gives.
pub uninterp spec fn instant_micros(instant: smoltcp::time::Instant) -> i64;

/// `smoltcp::time::Instant::from_micros`: the instant wraps exactly the count
/// it was made from.
#[verifier::external_body]
fn instant_from_micros(micros: i64) -> (instant: smoltcp::time::Instant)
    ensures
        instant_micros(instant) == micros,
{
    smoltcp::time::Instant::from_micros(micros)
}

/// The signed count that an unsigned microsecond count becomes when its 64
/// bits are read as two's complement.
pub open spec fn signed_micros(epoch_micros: u64) -> int {
    if epoch_micros <= i64::MAX {
        epoch_micros as int
    } else {
        epoch_micros - 0x1_0000_0000_0000_0000
    }
}

/// The network stack's timestamp for a reading of the monotonic clock, given in
/// microseconds since start-up.
pub fn timestamp(epoch_micros: u64) -> (instant: smoltcp::time::Instant)
    ensures
        instant_micros(instant) == signed_micros(epoch_micros),
{
    let micros: i64 = epoch_micros as i64;
    assert(micros as int == signed_micros(epoch_micros)) by (bit_vector)
        requires
            micros == epoch_micros as i64,
    ;
    instant_from_micros(micros)
}

} // verus!
