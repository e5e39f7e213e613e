//! The line that each output type writes for an event.

use crate::datatypes::{Event, OutputFlags, OutputType, TimeText};
use crate::text::{chars_of, ends_with, has_at, json_escaped, json_string, push_chars, push_text};
use crate::transform::ValueText;
use vstd::prelude::*;

verus! {

/// `time`, followed by `sep` unless it is empty.
pub open spec fn time_prefix(time: Seq<char>, sep: Seq<char>) -> Seq<char> {
    if time.len() == 0 {
        time
    } else {
        time + sep
    }
}

/// The plain line: time, name and value with blanks between them; no time
/// and no blank where the time is empty.
pub open spec fn plain_line(time: Seq<char>, id: Seq<char>, value: Seq<char>) -> Seq<char> {
    time_prefix(time, " "@) + id + " "@ + value
}

/// The CSV line: as the plain line, with semicolons.
pub open spec fn csv_line(time: Seq<char>, id: Seq<char>, value: Seq<char>) -> Seq<char> {
    time_prefix(time, ";"@) + id + ";"@ + value
}

/// The JSON line: an object of the name and the value, or in the short form
/// an object with the name as the key of the value; then the time, where
/// there is one.
pub open spec fn ndjson_line(
    id: Seq<char>,
    value: Seq<char>,
    time: Option<Seq<char>>,
    short: bool,
) -> Seq<char> {
    "{"@ + (if short {
        json_escaped(id) + ":"@
    } else {
        "\"id\":"@ + json_escaped(id) + ",\"value\":"@
    }) + value + (match time {
        Some(t) => ",\"time\":"@ + t,
        None => Seq::empty(),
    }) + "}"@
}

/// The line for the EVA datapuller: the name without its ending `.value` or
/// `.status`, the letter `u`, the word `None` unless the name ends with
/// `.status`, and the value.
pub open spec fn eva_line(id: Seq<char>, value: Seq<char>) -> Seq<char> {
    if ends_with(id, ".value"@) {
        id.subrange(0, id.len() - ".value"@.len()) + " u None "@ + value
    } else if ends_with(id, ".status"@) {
        id.subrange(0, id.len() - ".status"@.len()) + " u "@ + value
    } else {
        id + " u None "@ + value
    }
}

/// The line of an event under an output type.
pub open spec fn line_of(
    tp: OutputType,
    flags: OutputFlags,
    id: Seq<char>,
    value: (Seq<char>, Seq<char>),
    time: (Seq<char>, Option<Seq<char>>),
) -> Seq<char> {
    match tp {
        OutputType::Stdout => plain_line(time.0, id, value.0),
        OutputType::StdoutCsv => csv_line(time.0, id, value.0),
        OutputType::StdoutNdJson => ndjson_line(id, value.1, time.1, flags.json_short),
        OutputType::StdoutEvaDatapuller => eva_line(id, value.0),
    }
}

fn push_time_prefix(s: &mut String, time: &str, sep: &str)
    ensures
        final(s)@ == old(s)@ + time_prefix(time@, sep@),
{
    let t = chars_of(time);
    if t.len() > 0 {
        push_text(s, time);
        push_text(s, sep);
    }
}

/// The plain line of an event.
pub fn output_stdout(event: &Event, value: &ValueText, time: &TimeText) -> (r: String)
    ensures
        r@ == plain_line(time@.0, event.id@, value@.0),
{
    let mut s = String::new();
    push_time_prefix(&mut s, time.plain.as_str(), " ");
    push_text(&mut s, event.id.as_str());
    push_text(&mut s, " ");
    push_text(&mut s, value.plain.as_str());
    s
}

/// The CSV line of an event.
pub fn output_stdout_csv(event: &Event, value: &ValueText, time: &TimeText) -> (r: String)
    ensures
        r@ == csv_line(time@.0, event.id@, value@.0),
{
    let mut s = String::new();
    push_time_prefix(&mut s, time.plain.as_str(), ";");
    push_text(&mut s, event.id.as_str());
    push_text(&mut s, ";");
    push_text(&mut s, value.plain.as_str());
    s
}

/// The JSON line of an event.
pub fn output_stdout_ndjson(event: &Event, value: &ValueText, time: &TimeText) -> (r: String)
    ensures
        r@ == ndjson_line(event.id@, value@.1, time@.1, event.output_flags.json_short),
{
    let mut s = String::new();
    push_text(&mut s, "{");
    let id = json_string(event.id.as_str());
    if event.output_flags.json_short {
        push_text(&mut s, id.as_str());
        push_text(&mut s, ":");
    } else {
        push_text(&mut s, "\"id\":");
        push_text(&mut s, id.as_str());
        push_text(&mut s, ",\"value\":");
    }
    push_text(&mut s, value.json.as_str());
    match &time.json {
        Some(t) => {
            push_text(&mut s, ",\"time\":");
            push_text(&mut s, t.as_str());
        },
        None => {},
    }
    push_text(&mut s, "}");
    s
}

/// The line of an event for the EVA datapuller.
pub fn output_eva_datapuller(event: &Event, value: &ValueText) -> (r: String)
    ensures
        r@ == eva_line(event.id@, value@.0),
{
    let id = chars_of(event.id.as_str());
    let n = id.len();
    let value_end = chars_of(".value");
    let status_end = chars_of(".status");
    let mut s = String::new();
    if value_end.len() <= n && has_at(&id, n - value_end.len(), &value_end) {
        push_chars(&mut s, &id, 0, n - value_end.len());
        push_text(&mut s, " u None ");
    } else if status_end.len() <= n && has_at(&id, n - status_end.len(), &status_end) {
        push_chars(&mut s, &id, 0, n - status_end.len());
        push_text(&mut s, " u ");
    } else {
        push_chars(&mut s, &id, 0, n);
        push_text(&mut s, " u None ");
    }
    push_text(&mut s, value.plain.as_str());
    s
}

/// The heartbeat: an empty line.
pub fn beacon_stdout() -> (r: String)
    ensures
        r@.len() == 0,
{
    String::new()
}

} // verus!
