//! Points in time, and how much time lies between two of them.

use vstd::prelude::*;

verus! {

/// The number of nanoseconds in a millisecond.
pub const NANOS_PER_MILLI: u32 = 1_000_000;

/// A point in time: seconds since the Unix epoch, and nanoseconds since that second began.
#[derive(Debug, Clone, Copy, PartialEq, Eq, Structural)]
pub struct Timestamp {
    pub secs: i64,
    pub nanos: u32,
}

impl Timestamp {
    /// Nanoseconds since the Unix epoch.
    pub open spec fn since_epoch(self) -> int {
        self.secs * 1_000_000_000 + self.nanos
    }

    /// Nanoseconds from `earlier` to this point in time, negative when `earlier` is later.
    pub open spec fn since(self, earlier: Timestamp) -> int {
        self.since_epoch() - earlier.since_epoch()
    }

    /// Nanoseconds from `earlier` to this point in time; `None` when `earlier` is later.
    pub fn elapsed_since(&self, earlier: &Timestamp) -> (res: Option<u128>)
        ensures
            res is Some <==> self.since(*earlier) >= 0,
            res matches Some(nanos) ==> nanos == self.since(*earlier),
    {
        let until: i128 = self.secs as i128 * 1_000_000_000 + self.nanos as i128;
        let from: i128 = earlier.secs as i128 * 1_000_000_000 + earlier.nanos as i128;
        if until < from {
            None
        } else {
            Some((until - from) as u128)
        }
    }
}

/// A second has a billion nanoseconds, so that is what a later second adds to the time elapsed; a
/// later nanosecond adds one.
pub proof fn law_elapsed(now: Timestamp, earlier: Timestamp)
    ensures
        now.since(earlier) == (now.secs - earlier.secs) * 1_000_000_000 + (now.nanos
            - earlier.nanos),
{
}

/// Times elapsed one after the other add up, and no time elapses between a point in time and
/// itself.
pub proof fn law_elapsed_adds_up(first: Timestamp, second: Timestamp, third: Timestamp)
    ensures
        first.since(first) == 0,
        third.since(first) == third.since(second) + second.since(first),
        first.since(second) == -second.since(first),
{
}

/// The current time, from `chrono::Local::now()` and its `timestamp` and
/// `timestamp_subsec_nanos`.
///
/// The nanoseconds stay below one second, for the system clock that the time is read from knows
/// no leap seconds. Nothing else is claimed of the time, not even that it goes forward. The call
/// panics when the system clock stands before the Unix epoch, or when the machine's time zone data
/// cannot be used.
#[verifier::external_body]
fn now() -> (time: Timestamp)
    ensures
        time.nanos < 1_000_000_000,
{
    let time = chrono::Local::now();
    Timestamp { secs: time.timestamp(), nanos: time.timestamp_subsec_nanos() }
}

/// A clock; its view is the times that were read from it, the last one last.
pub struct Clock {
    read: Ghost<Seq<Timestamp>>,
}

impl View for Clock {
    type V = Seq<Timestamp>;

    closed spec fn view(&self) -> Seq<Timestamp> {
        self.read@
    }
}

impl Clock {
    /// A clock that has not been read yet.
    pub fn new() -> (res: Self)
        ensures
            res@ == Seq::<Timestamp>::empty(),
    {
        Clock { read: Ghost(Seq::empty()) }
    }

    /// Reads the current time.
    pub fn read(&mut self) -> (time: Timestamp)
        ensures
            final(self)@ == old(self)@.push(time),
            time.nanos < 1_000_000_000,
    {
        let time: Timestamp = now();
        self.read = Ghost(self.read@.push(time));
        time
    }
}

} // verus!
