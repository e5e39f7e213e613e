//! The way of an event to the output: the steps that its value passes, the
//! cache that keeps unchanged values back, and the watch for silence.
//!
//! Moments and spans of the monotonic clock are nanoseconds.

use crate::datatypes::{Event, EventTime, EventTransformList, OutputFlags, OutputType, TimeFormat,
    TimeText, MAX_LOCAL_SECS,
};
use crate::sink::{line_of, output_eva_datapuller, output_stdout, output_stdout_csv,
    output_stdout_ndjson,
};
use crate::text::json_escaped;
use crate::transform::{step_of, TransformError, TransformStep, Value, ValueText};
use std::collections::HashMap;
use vstd::prelude::*;

verus! {

/// The text last written for each event, under the hash of the event's name.
pub struct EventCache {
    last: HashMap<u64, String>,
}

impl View for EventCache {
    type V = Map<u64, Seq<char>>;

    closed spec fn view(&self) -> Map<u64, Seq<char>> {
        Map::new(|k: u64| self.last@.contains_key(k), |k: u64| self.last@[k]@)
    }
}

/// Whether `text` is news for the event `id_hash`: nothing was written for
/// it yet, or something else.
pub open spec fn is_news(cache: Map<u64, Seq<char>>, id_hash: u64, text: Seq<char>) -> bool {
    !cache.contains_key(id_hash) || cache[id_hash] != text
}

/// The cache after `text` has come in for the event `id_hash`. It holds
/// `text` for the event either way: newly written, or written before.
pub open spec fn cache_after(cache: Map<u64, Seq<char>>, id_hash: u64, text: Seq<char>) -> Map<
    u64,
    Seq<char>,
> {
    cache.insert(id_hash, text)
}

/// A text that has come in for an event is no news for it when it comes in
/// again: an event whose text is the one last written is not written.
pub proof fn law_unchanged_is_silent(cache: Map<u64, Seq<char>>, id_hash: u64, text: Seq<char>)
    ensures
        !is_news(cache_after(cache, id_hash, text), id_hash, text),
{
}

/// What comes in for one event does not change what is news for another.
pub proof fn law_events_are_apart(
    cache: Map<u64, Seq<char>>,
    id_hash: u64,
    text: Seq<char>,
    other_hash: u64,
    other_text: Seq<char>,
)
    requires
        id_hash != other_hash,
    ensures
        is_news(cache_after(cache, other_hash, other_text), id_hash, text) == is_news(
            cache,
            id_hash,
            text,
        ),
{
}

/// Of two texts that come in for one event, one behind the other, the
/// second is written if it differs from the first; the first is written
/// unless it is the text that the cache holds for the event.
pub proof fn law_change_is_written(
    cache: Map<u64, Seq<char>>,
    id_hash: u64,
    first: Seq<char>,
    second: Seq<char>,
)
    requires
        first != second,
    ensures
        is_news(cache_after(cache, id_hash, first), id_hash, second),
        is_news(cache, id_hash, first) <==> !(cache.contains_key(id_hash) && cache[id_hash]
            == first),
{
}

/// After the cache was cleared, whatever comes in is written.
pub proof fn law_cleared_cache_writes_all(id_hash: u64, text: Seq<char>)
    ensures
        is_news(Map::<u64, Seq<char>>::empty(), id_hash, text),
{
}

impl EventCache {
    /// A cache that holds nothing: whatever comes in is news.
    pub fn new() -> (r: Self)
        ensures
            r@ == Map::<u64, Seq<char>>::empty(),
    {
        let r = EventCache { last: HashMap::new() };
        r
    }

    /// Forgets every text, so that each event is written again.
    pub fn clear(&mut self)
        ensures
            final(self)@ == Map::<u64, Seq<char>>::empty(),
    {
        self.last.clear();
    }

    /// Whether `text` is news for the event `id_hash`; if so, keeps it.
    pub fn accept_text(&mut self, id_hash: u64, text: &str) -> (r: bool)
        ensures
            r == is_news(old(self)@, id_hash, text@),
            r ==> final(self)@ == cache_after(old(self)@, id_hash, text@),
            !r ==> final(self)@ == old(self)@,
    {
        let news = match self.last.get(&id_hash) {
            Some(prev) => !crate::text::text_eq(prev.as_str(), text),
            None => true,
        };
        if news {
            self.last.insert(id_hash, text.to_owned());
        }
        news
    }
}

/// The moment at which an event was last written.
#[derive(PartialEq, Eq, Clone, Copy, Debug, Structural)]
pub struct EventTimer {
    pub last_event_time: u64,
}

impl EventTimer {
    /// A timer for a run in which an event was last written at `now`.
    pub fn new(now: u64) -> (r: Self)
        ensures
            r.last_event_time == now,
    {
        EventTimer { last_event_time: now }
    }

    /// Notes that an event is written at `now`.
    pub fn trigger(&mut self, now: u64)
        ensures
            final(self).last_event_time == now,
    {
        self.last_event_time = now;
    }

    /// The time since the last event was written.
    pub open spec fn since_spec(self, now: u64) -> u64 {
        if now >= self.last_event_time {
            (now - self.last_event_time) as u64
        } else {
            0
        }
    }

    /// The time from the last written event to `now`; none if `now` is earlier.
    pub fn since_event(&self, now: u64) -> (r: u64)
        ensures
            r == self.since_spec(now),
    {
        if now >= self.last_event_time {
            now - self.last_event_time
        } else {
            0
        }
    }
}

/// What is to be done with an event whose steps up to `ti` are done.
#[derive(PartialEq, Eq, Clone, Copy, Debug, Structural)]
pub enum Stage {
    /// The next step is due, and asks for this arithmetic.
    Transform(TransformStep),
    /// The next step is due, and cannot be done.
    Fail(TransformError),
    /// All steps are done: the event goes to the output.
    Emit,
}

/// Why an event could not be written.
#[derive(PartialEq, Eq, Clone, Copy, Debug, Structural)]
pub enum OutputError {
    /// The time of the event has no local notation.
    Time,
}

/// The settings of a run: the output type and its flags, the time format,
/// and the longest silence, if the run is to end after one.
#[derive(PartialEq, Eq, Clone, Copy, Debug, Structural)]
pub struct Core {
    pub tp: OutputType,
    pub event_output_flags: OutputFlags,
    pub time_format: TimeFormat,
    pub event_timeout: Option<u64>,
}

impl Core {
    /// The settings of a run that begins at `now`. Where the run watches for
    /// silence, the watch begins now.
    pub fn new(
        output_type: OutputType,
        event_output_flags: OutputFlags,
        time_format: TimeFormat,
        event_timeout: Option<u64>,
        timer: &mut EventTimer,
        now: u64,
    ) -> (r: Self)
        ensures
            r == (Core { tp: output_type, event_output_flags, time_format, event_timeout }),
            *final(timer) == if event_timeout is Some {
                EventTimer { last_event_time: now }
            } else {
                *old(timer)
            },
    {
        if event_timeout.is_some() {
            timer.trigger(now);
        }
        Core { tp: output_type, event_output_flags, time_format, event_timeout }
    }

    /// The time of a pull that begins at the given readings of the clocks.
    pub fn create_event_time(self, secs: u64, nanos: u32, monotonic: u64) -> (r: EventTime)
        ensures
            r == (EventTime { secs, nanos, monotonic, time_format: self.time_format }),
    {
        EventTime::new(self.time_format, secs, nanos, monotonic)
    }

    /// An event of this run: it carries the flags of the output.
    pub fn create_event<'a>(
        self,
        id: &'a String,
        value: Value,
        transform: &'a EventTransformList,
        t: &'a EventTime,
    ) -> (r: Event<'a>)
        ensures
            r.wf(),
            r.id == id,
            r.id_hash == crate::datatypes::stable_hash(id@),
            r.value == value,
            r.t == t,
            r.transform_list == transform,
            r.output_flags == self.event_output_flags,
    {
        Event::new(id, value, transform, t, self.event_output_flags)
    }

    /// What is due for an event after `ti` steps: the next step while there
    /// is one, the output after the last.
    pub open spec fn stage_spec(event: Event, ti: usize) -> Stage {
        if ti < event.transform_list@.len() {
            match step_of(
                event.value,
                event.id_hash,
                event.t.monotonic,
                event.transform_list@[ti as int].func,
                event.transform_list@[ti as int].args@,
            ) {
                Ok(step) => Stage::Transform(step),
                Err(e) => Stage::Fail(e),
            }
        } else {
            Stage::Emit
        }
    }

    /// Decides what is due for an event after `ti` steps.
    pub fn stage(self, event: &Event, ti: usize) -> (r: Stage)
        ensures
            r == Self::stage_spec(*event, ti),
    {
        if ti < event.transform_list.len() {
            match event.transform_at(ti) {
                Ok(step) => Stage::Transform(step),
                Err(e) => Stage::Fail(e),
            }
        } else {
            Stage::Emit
        }
    }

    /// The timer after an event came in at `now`: set to `now` where the
    /// event was written and the run watches for silence.
    pub open spec fn timer_after(self, timer: EventTimer, written: bool, now: u64) -> EventTimer {
        if written && self.event_timeout is Some {
            EventTimer { last_event_time: now }
        } else {
            timer
        }
    }

    /// Writes the event unless its text is the one last written for it: the
    /// line to print, or none. `value` and `time` are the texts of its value
    /// and of its time.
    pub fn output_at(
        self,
        cache: &mut EventCache,
        timer: &mut EventTimer,
        event: &Event,
        value: &ValueText,
        time: &TimeText,
        now: u64,
    ) -> (r: Option<String>)
        ensures
            r is Some <==> is_news(old(cache)@, event.id_hash, value@.0),
            r matches Some(line) ==> line@ == line_of(
                self.tp,
                event.output_flags,
                event.id@,
                value@,
                time@,
            ),
            final(cache)@ == cache_after(old(cache)@, event.id_hash, value@.0),
            *final(timer) == self.timer_after(*old(timer), r is Some, now),
    {
        if !cache.accept_text(event.id_hash, value.plain.as_str()) {
            return None;
        }
        if self.event_timeout.is_some() {
            timer.trigger(now);
        }
        Some(
            match self.tp {
                OutputType::Stdout => output_stdout(event, value, time),
                OutputType::StdoutCsv => output_stdout_csv(event, value, time),
                OutputType::StdoutNdJson => output_stdout_ndjson(event, value, time),
                OutputType::StdoutEvaDatapuller => output_eva_datapuller(event, value),
            },
        )
    }

    /// The line of an event whose time in local notation is `local`.
    pub open spec fn local_line(self, event: Event, value: ValueText, local: Seq<char>) -> Seq<char> {
        line_of(
            self.tp,
            event.output_flags,
            event.id@,
            value@,
            (local, Some(json_escaped(local))),
        )
    }

    /// Writes the event unless its text is the one last written for it. The
    /// time is written as the event's format says; under `Rfc3339` its text
    /// is what `chrono` makes of it on this machine, and where that is
    /// nothing the event is refused and nothing changes.
    pub fn output(
        self,
        cache: &mut EventCache,
        timer: &mut EventTimer,
        event: &Event,
        value: &ValueText,
        now: u64,
    ) -> (r: Result<Option<String>, OutputError>)
        ensures
            event.t.time_format != TimeFormat::Rfc3339 ==> r is Ok,
            event.t.time_format == TimeFormat::Rfc3339 && event.t.secs > MAX_LOCAL_SECS ==> r
                is Err,
            r is Err ==> final(cache)@ == old(cache)@ && *final(timer) == *old(timer),
            r matches Ok(o) ==> {
                &&& o is Some <==> is_news(old(cache)@, event.id_hash, value@.0)
                &&& final(cache)@ == cache_after(old(cache)@, event.id_hash, value@.0)
                &&& *final(timer) == self.timer_after(*old(timer), o is Some, now)
                &&& o matches Some(line) ==> event.t.time_format != TimeFormat::Rfc3339
                    ==> line@ == line_of(
                    self.tp,
                    event.output_flags,
                    event.id@,
                    value@,
                    event.t.text_spec(None)->0,
                )
                &&& o matches Some(line) ==> event.t.time_format == TimeFormat::Rfc3339
                    ==> exists|local: Seq<char>| line@ == #[trigger] self.local_line(
                        *event,
                        *value,
                        local,
                    )
            },
    {
        match event.t.text() {
            Some(time) => {
                let o = self.output_at(cache, timer, event, value, &time, now);
                proof {
                    if event.t.time_format == TimeFormat::Rfc3339 && o is Some {
                        assert(o->0@ == self.local_line(*event, *value, time@.0));
                    }
                }
                Ok(o)
            },
            None => Err(OutputError::Time),
        }
    }

    /// The time since the last event was written, where the run watches for
    /// silence.
    pub fn since_event(self, timer: &EventTimer, now: u64) -> (r: Option<u64>)
        ensures
            r == match self.event_timeout {
                Some(_) => Some(timer.since_spec(now)),
                None => None,
            },
    {
        match self.event_timeout {
            Some(_) => Some(timer.since_event(now)),
            None => None,
        }
    }

    /// Whether the run has been silent for longer than it may be.
    pub fn is_event_timeout(self, timer: &EventTimer, now: u64) -> (r: bool)
        ensures
            r == match self.event_timeout {
                Some(v) => timer.since_spec(now) > v,
                None => false,
            },
    {
        match self.event_timeout {
            Some(v) => timer.since_event(now) > v,
            None => false,
        }
    }

    /// Whether the run ends after a sweep that ended at `now`: it does
    /// unless it loops, and when it has been silent for too long.
    pub fn ends_after_sweep(self, inloop: bool, timer: &EventTimer, now: u64) -> (r: bool)
        ensures
            r == (!inloop || match self.event_timeout {
                Some(v) => timer.since_spec(now) > v,
                None => false,
            }),
    {
        !inloop || self.is_event_timeout(timer, now)
    }

    /// Forgets what was written, so that every event is written again.
    pub fn clear_event_cache(self, cache: &mut EventCache)
        ensures
            final(cache)@ == Map::<u64, Seq<char>>::empty(),
    {
        cache.clear();
    }
}

} // verus!
