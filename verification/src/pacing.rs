//! The clocks of a run: the pace of the sweeps, the beacon that keeps a
//! silent output alive, and the schedule on which unchanged values are
//! written again.
//!
//! Moments and spans of the monotonic clock are nanoseconds.

use crate::datatypes::OutputType;
use crate::sink::beacon_stdout;
use crate::text::{push_text, push_thousandths, thousandths};
use vstd::prelude::*;

verus! {

/// The first of the moments `next + interval`, `next + 2 * interval`, ...
/// that lies behind `now`, for a `next` that does not.
pub open spec fn next_after(next: u64, interval: u64, now: u64) -> int {
    next + ((now - next) / (interval as int) + 1) * interval
}

/// A moment that is a whole number of intervals behind `next`, behind `now`
/// and not more than one interval behind it, is `next_after`.
pub proof fn lemma_next_after_is(next: u64, interval: u64, now: u64, k: int)
    requires
        interval > 0,
        next <= now,
        now < next + k * interval <= now + interval,
    ensures
        next + k * interval == next_after(next, interval, now),
{
    let d = (now - next) as int;
    let i = interval as int;
    assert(d / i == k - 1) by (nonlinear_arith)
        requires
            i > 0,
            d >= 0,
            d < k * i,
            k * i <= d + i,
    ;
}

/// Moves `next` on by whole intervals until it lies behind `now`.
pub fn skip_past(next: u64, interval: u64, now: u64) -> (r: u64)
    requires
        interval > 0,
        next <= now,
        now + interval <= u64::MAX,
    ensures
        r == next_after(next, interval, now),
        now < r <= now + interval,
{
    let mut moved: u64 = next;
    let ghost mut k: int = 0;
    while moved <= now
        invariant
            interval > 0,
            next <= now,
            now + interval <= u64::MAX,
            k >= 0,
            moved == next + k * interval,
            moved <= now + interval,
        decreases now + interval - moved,
    {
        proof {
            assert((k + 1) * interval == k * interval + interval) by (nonlinear_arith);
            k = k + 1;
        }
        moved = moved + interval;
    }
    proof {
        lemma_next_after_is(next, interval, now, k);
    }
    moved
}

/// What `sleep` finds at the end of a sweep.
#[derive(PartialEq, Eq, Clone, Copy, Debug, Structural)]
pub enum Pace {
    /// The sweep ended in time: the next one begins after `wait`.
    OnTime { wait: u64 },
    /// The sweep ended `late` behind the moment at which the next one was
    /// to begin: the next one begins at once.
    Overrun { late: u64 },
}

impl Pace {
    /// Whether the sweep ended in time.
    pub fn on_time(&self) -> (r: bool)
        ensures
            r == (*self is OnTime),
    {
        match self {
            Pace::OnTime { .. } => true,
            Pace::Overrun { .. } => false,
        }
    }
}

/// The pace of the sweeps: one each `interval`, the next at `next_iter`.
#[derive(PartialEq, Eq, Clone, Copy, Debug, Structural)]
pub struct IntervalLoop {
    pub next_iter: u64,
    pub interval: u64,
}

impl IntervalLoop {
    /// The pace of a loop whose first sweep begins at `now`.
    pub fn new(interval: u64, now: u64) -> (r: Self)
        requires
            now + interval <= u64::MAX,
        ensures
            r == (IntervalLoop { next_iter: (now + interval) as u64, interval }),
    {
        IntervalLoop { next_iter: now + interval, interval }
    }

    /// What a sweep that ends at `now` finds.
    pub open spec fn pace_at(self, now: u64) -> Pace {
        if now >= self.next_iter {
            Pace::Overrun { late: (now - self.next_iter) as u64 }
        } else {
            Pace::OnTime { wait: (self.next_iter - now) as u64 }
        }
    }

    /// The moment at which the sweep after the next one is to begin. In time,
    /// it is one interval behind the next one, whatever the clock says; after
    /// an overrun, it is one interval from now.
    pub open spec fn next_at(self, now: u64) -> int {
        if now >= self.next_iter {
            now + self.interval
        } else {
            self.next_iter + self.interval
        }
    }

    /// Ends a sweep at `now`: says how long to wait for the next one, and
    /// moves on to the one after.
    pub fn sleep(&mut self, now: u64) -> (r: Pace)
        requires
            old(self).next_at(now) <= u64::MAX,
        ensures
            r == old(self).pace_at(now),
            final(self).interval == old(self).interval,
            final(self).next_iter == old(self).next_at(now),
    {
        if now >= self.next_iter {
            let late: u64 = now - self.next_iter;
            self.next_iter = now + self.interval;
            Pace::Overrun { late }
        } else {
            let wait: u64 = self.next_iter - now;
            self.next_iter = self.next_iter + self.interval;
            Pace::OnTime { wait }
        }
    }

    /// The warning for a sweep that ended `late` behind its time.
    pub open spec fn warning_spec(self, late: u64) -> Seq<char> {
        "WARNING: loop timeout ("@ + thousandths((self.interval / 1000) as nat) + " ms + "@
            + thousandths((late / 1000) as nat) + " ms)"@
    }

    /// Writes the warning for a sweep that ended `late` behind its time.
    pub fn warning(&self, late: u64) -> (r: String)
        ensures
            r@ == self.warning_spec(late),
    {
        let mut s = String::new();
        push_text(&mut s, "WARNING: loop timeout (");
        push_thousandths(&mut s, self.interval / 1000);
        push_text(&mut s, " ms + ");
        push_thousandths(&mut s, late / 1000);
        push_text(&mut s, " ms)");
        s
    }
}

/// A sweep that ends in time waits until the moment at which the next one
/// is to begin, and the one after is to begin one interval behind that
/// moment, not behind now. Two sweeps that end in time, one behind the
/// other, so have the next sweeps begin exactly one interval apart, however
/// long each of them took.
pub proof fn law_steady_pace(pace: IntervalLoop, first: u64, second: u64)
    requires
        first < pace.next_iter,
        pace.next_iter + pace.interval <= u64::MAX,
        second < pace.next_iter + pace.interval,
    ensures
        pace.next_at(first) == pace.next_iter + pace.interval,
        pace.pace_at(first) == (Pace::OnTime { wait: (pace.next_iter - first) as u64 }),
        pace.pace_at(first) matches Pace::OnTime { wait: w1 } && (IntervalLoop {
            next_iter: pace.next_at(first) as u64,
            ..pace
        }).pace_at(second) matches Pace::OnTime { wait: w2 } && (second + w2) - (first + w1)
            == pace.interval,
{
}

/// A sweep that ends late has the next one counted from now, once: a sweep
/// that ends within an interval from now is in time again, and waits for the
/// end of that interval.
pub proof fn law_overrun_rebases(pace: IntervalLoop, late: u64, next: u64)
    requires
        late >= pace.next_iter,
        late + pace.interval <= u64::MAX,
        late <= next < late + pace.interval,
    ensures
        pace.pace_at(late) is Overrun,
        pace.next_at(late) == late + pace.interval,
        (IntervalLoop { next_iter: pace.next_at(late) as u64, ..pace }).pace_at(next) == (
        Pace::OnTime { wait: (late + pace.interval - next) as u64 }),
{
}

/// `next_after` lies behind `now`, by at most one interval, and a whole
/// number of intervals, one at least, behind `next`.
pub proof fn lemma_next_after_bounds(next: u64, interval: u64, now: u64)
    requires
        interval > 0,
        next <= now,
    ensures
        now < next_after(next, interval, now) <= now + interval,
        (now - next) / (interval as int) >= 0,
{
    let d = (now - next) as int;
    let i = interval as int;
    assert(d == i * (d / i) + d % i && 0 <= d % i < i && d / i >= 0) by (nonlinear_arith)
        requires
            i > 0,
            d >= 0,
    ;
    assert((d / i + 1) * i == i * (d / i) + i) by (nonlinear_arith);
}

/// A beacon that is due gives one ping, however long it was silent: after
/// the ping its next moment lies behind `now`, by one interval at most and a
/// whole number of intervals from the old one, so that a ping right after,
/// and any ping before that moment, gives nothing. Where the silence lasted
/// `n` whole intervals, the next moment is more than `n` intervals from the
/// old one: the pings that were missed are passed over, not made up for.
pub proof fn law_beacon_pings_once(beacon: Beacon, now: u64, n: nat, later: u64)
    requires
        beacon.wf(),
        beacon.enabled,
        now + beacon.beacon_interval <= u64::MAX,
        beacon.next_beacon + n * beacon.beacon_interval <= now,
        now <= later < beacon.after_ping(now).next_beacon,
    ensures
        beacon.due(now),
        beacon.after_ping(now) == (Beacon {
            next_beacon: beacon.after_ping(now).next_beacon,
            ..beacon
        }),
        beacon.after_ping(now).wf(),
        now < beacon.after_ping(now).next_beacon <= now + beacon.beacon_interval,
        beacon.after_ping(now).next_beacon == beacon.next_beacon + ((now - beacon.next_beacon) / (
        beacon.beacon_interval as int) + 1) * beacon.beacon_interval,
        (now - beacon.next_beacon) / (beacon.beacon_interval as int) + 1 >= n + 1,
        !beacon.after_ping(now).due(now),
        !beacon.after_ping(now).due(later),
{
    let i = beacon.beacon_interval as int;
    let d = (now - beacon.next_beacon) as int;
    assert(n * i >= 0) by (nonlinear_arith)
        requires
            i >= 0,
            n >= 0,
    ;
    lemma_next_after_bounds(beacon.next_beacon, beacon.beacon_interval, now);
    assert(d / i >= n) by (nonlinear_arith)
        requires
            i > 0,
            d >= n * i,
            n >= 0,
    ;
}

/// A schedule that is due has the cache cleared once, however long ago it
/// was due: after the tick its next moment lies behind `now`, by one interval
/// at most and a whole number of intervals from the old one, and a sweep that
/// begins before that moment clears nothing.
pub proof fn law_resend_ticks_once(resend: Resend, now: u64, later: u64)
    requires
        resend.interval > 0,
        resend.next <= now,
        now + resend.interval <= u64::MAX,
        now <= later < resend.after_tick(now).next,
    ensures
        resend.due(now),
        resend.after_tick(now).interval == resend.interval,
        now < resend.after_tick(now).next <= now + resend.interval,
        resend.after_tick(now).next == resend.next + ((now - resend.next) / (
        resend.interval as int) + 1) * resend.interval,
        (now - resend.next) / (resend.interval as int) + 1 >= 1,
        !resend.after_tick(now).due(now),
        !resend.after_tick(now).due(later),
{
    lemma_next_after_bounds(resend.next, resend.interval, now);
}

/// The beacon: an empty line each `beacon_interval`, the next no sooner
/// than `next_beacon`. One of less than a microsecond is switched off.
#[derive(PartialEq, Eq, Clone, Copy, Debug, Structural)]
pub struct Beacon {
    pub tp: OutputType,
    pub beacon_interval: u64,
    pub next_beacon: u64,
    pub enabled: bool,
}

impl Beacon {
    /// Whether the beacon is switched on exactly if its interval is a
    /// microsecond or more.
    pub open spec fn wf(self) -> bool {
        self.enabled == (self.beacon_interval >= 1000)
    }

    /// A beacon that counts from `now`.
    pub fn new(output_type: OutputType, beacon_interval: u64, now: u64) -> (r: Self)
        requires
            now + beacon_interval <= u64::MAX,
        ensures
            r == (Beacon {
                tp: output_type,
                beacon_interval,
                next_beacon: (now + beacon_interval) as u64,
                enabled: beacon_interval >= 1000,
            }),
            r.wf(),
    {
        Beacon {
            tp: output_type,
            beacon_interval,
            next_beacon: now + beacon_interval,
            enabled: beacon_interval >= 1000,
        }
    }

    /// Whether the beacon is due at `now`.
    pub open spec fn due(self, now: u64) -> bool {
        self.enabled && now >= self.next_beacon
    }

    /// The beacon after a ping at `now`: where it was due, its next moment
    /// lies behind `now`, a whole number of intervals from the old one.
    pub open spec fn after_ping(self, now: u64) -> Beacon {
        if self.due(now) {
            Beacon {
                next_beacon: next_after(self.next_beacon, self.beacon_interval, now) as u64,
                ..self
            }
        } else {
            self
        }
    }

    /// Called once a sweep. Where the beacon is due, the heartbeat line comes
    /// back, once however long the silence was.
    pub fn ping(&mut self, now: u64) -> (r: Option<String>)
        requires
            old(self).wf(),
            now + old(self).beacon_interval <= u64::MAX,
        ensures
            r is Some <==> old(self).due(now),
            r matches Some(line) ==> line@.len() == 0,
            *final(self) == old(self).after_ping(now),
            final(self).wf(),
    {
        if self.enabled && now >= self.next_beacon {
            let line = match self.tp {
                OutputType::Stdout
                | OutputType::StdoutCsv
                | OutputType::StdoutNdJson
                | OutputType::StdoutEvaDatapuller => beacon_stdout(),
            };
            self.next_beacon = skip_past(self.next_beacon, self.beacon_interval, now);
            Some(line)
        } else {
            None
        }
    }
}

/// The schedule on which the values that did not change are written again:
/// each `interval`, the next time no sooner than `next`.
#[derive(PartialEq, Eq, Clone, Copy, Debug, Structural)]
pub struct Resend {
    pub interval: u64,
    pub next: u64,
}

impl Resend {
    /// The schedule of a run that begins at `now`: none where no interval is
    /// given, or an empty one.
    pub fn new(interval: Option<u64>, now: u64) -> (r: Option<Self>)
        requires
            interval matches Some(i) ==> now + i <= u64::MAX,
        ensures
            r == match interval {
                Some(i) => if i > 0 {
                    Some(Resend { interval: i, next: (now + i) as u64 })
                } else {
                    None
                },
                None => None,
            },
    {
        match interval {
            Some(i) => if i > 0 {
                Some(Resend { interval: i, next: now + i })
            } else {
                None
            },
            None => None,
        }
    }

    /// Whether the values are due again at `now`.
    pub open spec fn due(self, now: u64) -> bool {
        self.interval > 0 && now >= self.next
    }

    /// The schedule after a sweep that begins at `now`.
    pub open spec fn after_tick(self, now: u64) -> Resend {
        if self.due(now) {
            Resend { next: next_after(self.next, self.interval, now) as u64, ..self }
        } else {
            self
        }
    }

    /// Called at the beginning of a sweep: whether the cache is to be
    /// cleared before it.
    pub fn tick(&mut self, now: u64) -> (r: bool)
        requires
            now + old(self).interval <= u64::MAX,
        ensures
            r == old(self).due(now),
            *final(self) == old(self).after_tick(now),
    {
        if self.interval > 0 && now >= self.next {
            self.next = skip_past(self.next, self.interval, now);
            true
        } else {
            false
        }
    }
}

} // verus!
