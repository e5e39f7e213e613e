//! The data that travels through the poller: time and output formats, data
//! types and offsets of a datum, events, and the per-pull timing record.

use crate::text::{
    bounded_value, chars_of, decimal, find_char, first_index, fraction3, head, json_escaped,
    json_string, lowercase, parse_bounded, push_decimal, push_fraction3, push_text,
    push_thousandths, tail, text_eq, thousandths, to_lowercase,
};
use crate::transform::{plan_step, step_of, TransformError, TransformFunction, TransformStep, Value};
use chrono::{Local, TimeZone};
use std::collections::hash_map::DefaultHasher;
use std::hash::{Hash, Hasher};
use vstd::prelude::*;
use vstd::std_specs::hash::DefaultHasherAdditionalSpecFns;

verus! {

/// What a text feeds to a hasher when it is hashed: the writes that
/// `Hash::hash` of the standard library makes for it, each with its bytes.
pub uninterp spec fn hash_input(t: Seq<char>) -> Seq<Seq<u8>>;

/// Calls `Hash::hash` of a text on a `DefaultHasher`. What it writes to the
/// hasher depends on the text alone, and follows what was written before.
#[verifier::external_body]
fn hash_text(t: &String, state: &mut DefaultHasher)
    ensures
        final(state)@ == old(state)@ + hash_input(t@),
{
    t.hash(state)
}

/// The hash of a text: what a new `DefaultHasher` makes of what the text
/// feeds to it. Every such hasher is the same, so that the hash depends on
/// the text alone.
pub open spec fn stable_hash(t: Seq<char>) -> u64 {
    DefaultHasher::spec_finish(Seq::<Seq<u8>>::empty() + hash_input(t))
}

/// Computes the hash of a text.
pub fn calculate_hash(t: &String) -> (h: u64)
    ensures
        h == stable_hash(t@),
{
    let mut s = DefaultHasher::new();
    hash_text(t, &mut s);
    s.finish()
}

/// How the time of an event is written out.
#[derive(PartialEq, Eq, Clone, Copy, Debug, Structural)]
pub enum TimeFormat {
    /// No time at all.
    Omit,
    /// Seconds since the epoch, with a fraction.
    Raw,
    /// RFC 3339 in the local time zone.
    Rfc3339,
}

/// The time format where none is named: no time.
pub fn get_default_time_format() -> (r: TimeFormat)
    ensures
        r == TimeFormat::Omit,
{
    TimeFormat::Omit
}

/// A time format name that is not known.
#[derive(PartialEq, Eq, Clone, Copy, Debug, Structural)]
pub struct TimeFormatError;

impl TimeFormatError {
    /// What is said of the fault.
    pub fn to_string(&self) -> (s: String)
        ensures
            s@ == "Invalid time format"@,
    {
        "Invalid time format".to_owned()
    }
}

/// The time format that a name in lower case stands for.
pub open spec fn time_format_of(lower: Seq<char>) -> Result<TimeFormat, TimeFormatError> {
    if lower == ""@ {
        Ok(TimeFormat::Omit)
    } else if lower == "rfc3339"@ {
        Ok(TimeFormat::Rfc3339)
    } else if lower == "raw"@ || lower == "timestamp"@ {
        Ok(TimeFormat::Raw)
    } else {
        Err(TimeFormatError)
    }
}

/// The time format named by a text that already is in lower case.
pub fn time_format_from_lower(lower: &str) -> (r: Result<TimeFormat, TimeFormatError>)
    ensures
        r == time_format_of(lower@),
{
    if text_eq(lower, "") {
        Ok(TimeFormat::Omit)
    } else if text_eq(lower, "rfc3339") {
        Ok(TimeFormat::Rfc3339)
    } else if text_eq(lower, "raw") || text_eq(lower, "timestamp") {
        Ok(TimeFormat::Raw)
    } else {
        Err(TimeFormatError)
    }
}

/// The time format named by `time_format`, whatever its case.
pub fn get_time_format(time_format: &String) -> (r: Result<TimeFormat, TimeFormatError>)
    ensures
        r == time_format_of(lowercase(time_format@)),
{
    let lower = to_lowercase(time_format.as_str());
    time_format_from_lower(lower.as_str())
}

/// Where and in which shape events are written.
#[derive(PartialEq, Eq, Clone, Copy, Debug, Structural)]
pub enum OutputType {
    Stdout,
    StdoutCsv,
    StdoutNdJson,
    StdoutEvaDatapuller,
}

/// Switches of an output type.
#[derive(PartialEq, Eq, Clone, Copy, Debug, Structural)]
pub struct OutputFlags {
    /// JSON lines carry the event id as the key of the value.
    pub json_short: bool,
}

impl OutputFlags {
    /// No switch set.
    pub fn empty() -> (r: Self)
        ensures
            r == (OutputFlags { json_short: false }),
    {
        Self { json_short: false }
    }
}

/// The output where none is named: plain lines.
pub fn get_default_output() -> (r: (OutputType, OutputFlags))
    ensures
        r == (OutputType::Stdout, OutputFlags { json_short: false }),
{
    (OutputType::Stdout, OutputFlags::empty())
}

/// An output type name that is not known.
#[derive(PartialEq, Eq, Clone, Copy, Debug, Structural)]
pub struct OutputTypeError;

impl OutputTypeError {
    /// What is said of the fault.
    pub fn to_string(&self) -> (s: String)
        ensures
            s@ == "Invalid output type"@,
    {
        "Invalid output type".to_owned()
    }
}

/// The output type and flags that a name in lower case stands for.
pub open spec fn output_type_of(lower: Seq<char>) -> Result<
    (OutputType, OutputFlags),
    OutputTypeError,
> {
    if lower == "stdout"@ || lower == "text"@ || lower == "plain"@ || lower == "-"@ {
        Ok((OutputType::Stdout, OutputFlags { json_short: false }))
    } else if lower == "csv"@ {
        Ok((OutputType::StdoutCsv, OutputFlags { json_short: false }))
    } else if lower == "ndjson"@ || lower == "json"@ {
        Ok((OutputType::StdoutNdJson, OutputFlags { json_short: false }))
    } else if lower == "ndjson/short"@ || lower == "json/short"@ || lower == "ndjson/s"@ || lower
        == "json/s"@ {
        Ok((OutputType::StdoutNdJson, OutputFlags { json_short: true }))
    } else if lower == "eva/datapuller"@ || lower == "eva"@ {
        Ok((OutputType::StdoutEvaDatapuller, OutputFlags { json_short: false }))
    } else {
        Err(OutputTypeError)
    }
}

/// The output type named by a text that already is in lower case.
pub fn output_type_from_lower(lower: &str) -> (r: Result<(OutputType, OutputFlags), OutputTypeError>)
    ensures
        r == output_type_of(lower@),
{
    if text_eq(lower, "stdout") || text_eq(lower, "text") || text_eq(lower, "plain") || text_eq(
        lower,
        "-",
    ) {
        Ok((OutputType::Stdout, OutputFlags::empty()))
    } else if text_eq(lower, "csv") {
        Ok((OutputType::StdoutCsv, OutputFlags::empty()))
    } else if text_eq(lower, "ndjson") || text_eq(lower, "json") {
        Ok((OutputType::StdoutNdJson, OutputFlags::empty()))
    } else if text_eq(lower, "ndjson/short") || text_eq(lower, "json/short") || text_eq(
        lower,
        "ndjson/s",
    ) || text_eq(lower, "json/s") {
        Ok((OutputType::StdoutNdJson, OutputFlags { json_short: true }))
    } else if text_eq(lower, "eva/datapuller") || text_eq(lower, "eva") {
        Ok((OutputType::StdoutEvaDatapuller, OutputFlags::empty()))
    } else {
        Err(OutputTypeError)
    }
}

/// The output type named by `output_type`, whatever its case.
pub fn get_output_type(output_type: &String) -> (r: Result<
    (OutputType, OutputFlags),
    OutputTypeError,
>)
    ensures
        r == output_type_of(lowercase(output_type@)),
{
    let lower = to_lowercase(output_type.as_str());
    output_type_from_lower(lower.as_str())
}

/// The machine type of a datum.
#[derive(PartialEq, Eq, Clone, Copy, Debug, Structural)]
pub enum GenDataType {
    Bit,
    Int8,
    Int16,
    Int32,
    Uint8,
    Uint16,
    Uint32,
    Uint64,
    Int64,
    Real32,
    Real64,
}

impl GenDataType {
    /// The name of the data type.
    pub open spec fn name_spec(self) -> Seq<char> {
        match self {
            GenDataType::Bit => "Bit"@,
            GenDataType::Int8 => "Int8"@,
            GenDataType::Int16 => "Int16"@,
            GenDataType::Int32 => "Int32"@,
            GenDataType::Uint8 => "Uint8"@,
            GenDataType::Uint16 => "Uint16"@,
            GenDataType::Uint32 => "Uint32"@,
            GenDataType::Uint64 => "Uint64"@,
            GenDataType::Int64 => "Int64"@,
            GenDataType::Real32 => "Real32"@,
            GenDataType::Real64 => "Real64"@,
        }
    }

    /// Writes the name of the data type.
    pub fn to_string(&self) -> (r: String)
        ensures
            r@ == self.name_spec(),
    {
        match self {
            GenDataType::Bit => "Bit".to_owned(),
            GenDataType::Int8 => "Int8".to_owned(),
            GenDataType::Int16 => "Int16".to_owned(),
            GenDataType::Int32 => "Int32".to_owned(),
            GenDataType::Uint8 => "Uint8".to_owned(),
            GenDataType::Uint16 => "Uint16".to_owned(),
            GenDataType::Uint32 => "Uint32".to_owned(),
            GenDataType::Uint64 => "Uint64".to_owned(),
            GenDataType::Int64 => "Int64".to_owned(),
            GenDataType::Real32 => "Real32".to_owned(),
            GenDataType::Real64 => "Real64".to_owned(),
        }
    }
}

/// A data type name that is not known.
#[derive(PartialEq, Eq, Clone, Copy, Debug, Structural)]
pub struct DataTypeError;

/// The data type that a name in lower case stands for.
pub open spec fn data_type_of(lower: Seq<char>) -> Result<GenDataType, DataTypeError> {
    if lower == "bit"@ {
        Ok(GenDataType::Bit)
    } else if lower == "uint8"@ || lower == "byte"@ {
        Ok(GenDataType::Uint8)
    } else if lower == "int8"@ || lower == "sint8"@ {
        Ok(GenDataType::Int8)
    } else if lower == "uint16"@ || lower == "word"@ {
        Ok(GenDataType::Uint16)
    } else if lower == "int16"@ || lower == "sint16"@ {
        Ok(GenDataType::Int16)
    } else if lower == "uint32"@ || lower == "dword"@ {
        Ok(GenDataType::Uint32)
    } else if lower == "int32"@ || lower == "sint32"@ {
        Ok(GenDataType::Int32)
    } else if lower == "uint64"@ || lower == "qword"@ {
        Ok(GenDataType::Uint64)
    } else if lower == "int64"@ || lower == "sint64"@ {
        Ok(GenDataType::Int64)
    } else if lower == "real32"@ || lower == "real"@ || lower == "float32"@ || lower == "float"@ {
        Ok(GenDataType::Real32)
    } else if lower == "real64"@ || lower == "float64"@ {
        Ok(GenDataType::Real64)
    } else {
        Err(DataTypeError)
    }
}

/// The data type named by a text that already is in lower case.
pub fn data_type_from_lower(lower: &str) -> (r: Result<GenDataType, DataTypeError>)
    ensures
        r == data_type_of(lower@),
{
    if text_eq(lower, "bit") {
        Ok(GenDataType::Bit)
    } else if text_eq(lower, "uint8") || text_eq(lower, "byte") {
        Ok(GenDataType::Uint8)
    } else if text_eq(lower, "int8") || text_eq(lower, "sint8") {
        Ok(GenDataType::Int8)
    } else if text_eq(lower, "uint16") || text_eq(lower, "word") {
        Ok(GenDataType::Uint16)
    } else if text_eq(lower, "int16") || text_eq(lower, "sint16") {
        Ok(GenDataType::Int16)
    } else if text_eq(lower, "uint32") || text_eq(lower, "dword") {
        Ok(GenDataType::Uint32)
    } else if text_eq(lower, "int32") || text_eq(lower, "sint32") {
        Ok(GenDataType::Int32)
    } else if text_eq(lower, "uint64") || text_eq(lower, "qword") {
        Ok(GenDataType::Uint64)
    } else if text_eq(lower, "int64") || text_eq(lower, "sint64") {
        Ok(GenDataType::Int64)
    } else if text_eq(lower, "real32") || text_eq(lower, "real") || text_eq(lower, "float32")
        || text_eq(lower, "float") {
        Ok(GenDataType::Real32)
    } else if text_eq(lower, "real64") || text_eq(lower, "float64") {
        Ok(GenDataType::Real64)
    } else {
        Err(DataTypeError)
    }
}

/// Reading a data type from its name.
pub trait GenDataTypeParse {
    spec fn data_type_spec(&self) -> Result<GenDataType, DataTypeError>;

    fn parse_data_type(&self) -> (r: Result<GenDataType, DataTypeError>)
        ensures
            r == self.data_type_spec(),
    ;
}

impl GenDataTypeParse for String {
    open spec fn data_type_spec(&self) -> Result<GenDataType, DataTypeError> {
        data_type_of(lowercase(self@))
    }

    fn parse_data_type(&self) -> (r: Result<GenDataType, DataTypeError>) {
        let lower = to_lowercase(self.as_str());
        data_type_from_lower(lower.as_str())
    }
}

/// Where a datum stands in what a pull has read: the index of its word or
/// byte and, for a single bit, the number of the bit in it.
#[derive(PartialEq, Eq, Clone, Copy, Debug, Structural)]
pub struct DataOffset {
    pub offset: usize,
    pub bit: Option<u8>,
}

impl Default for DataOffset {
    fn default() -> (r: Self)
        ensures
            r == (DataOffset { offset: 0, bit: None }),
    {
        DataOffset { offset: 0, bit: None }
    }
}

/// Why a text is no offset.
#[derive(PartialEq, Eq, Clone, Copy, Debug, Structural)]
pub enum OffsetError {
    /// What follows the `/` is no bit number.
    Bit,
    /// Nothing stands before the `/`.
    Empty,
    /// A term of the sum is no number, or the sum is too large.
    Number,
    /// An absolute address lies below the base address of the pull.
    BelowBase,
}

/// A text that is no sum of numbers.
#[derive(PartialEq, Eq, Clone, Copy, Debug, Structural)]
pub struct NumberError;

/// The sum of the numbers that stand in `s` with `+` between them. Each of
/// them is at most `u32::MAX`; the sum may be larger.
pub open spec fn sum_value(s: Seq<char>) -> Option<nat>
    decreases s.len(),
{
    let k = first_index(s, '+');
    if 0 <= k < s.len() {
        match (bounded_value(s.take(k), u32::MAX as nat), sum_value(s.skip(k + 1))) {
            (Some(n), Some(m)) => Some(n + m),
            _ => None,
        }
    } else {
        bounded_value(s, u32::MAX as nat)
    }
}

/// The sum that `s` stands for, if it fits 32 bits.
pub open spec fn safe_u32_of(s: Seq<char>) -> Result<u32, NumberError> {
    match sum_value(s) {
        Some(n) => if n <= u32::MAX {
            Ok(n as u32)
        } else {
            Err(NumberError)
        },
        None => Err(NumberError),
    }
}

/// The text of the bit number in an offset: what stands between the first
/// `/` and the next one, if there is a `/`.
pub open spec fn bit_text(s: Seq<char>) -> Option<Seq<char>> {
    match tail(s, '/') {
        Some(t) => Some(head(t, '/')),
        None => None,
    }
}

/// The offset that `s` stands for in a pull that starts at address `addr`.
///
/// The text is `[=]<sum>[/<bit>]`. With `=` in front the sum is an absolute
/// address, and the offset is its distance from `addr`.
pub open spec fn data_offset_of(s: Seq<char>, addr: u32) -> Result<DataOffset, OffsetError> {
    let o = head(s, '/');
    let bit = match bit_text(s) {
        Some(b) => bounded_value(b, u8::MAX as nat),
        None => None,
    };
    if bit_text(s) is Some && bit is None {
        Err(OffsetError::Bit)
    } else if o.len() == 0 {
        Err(OffsetError::Empty)
    } else {
        let absolute = o[0] == '=';
        match safe_u32_of(if absolute { o.skip(1) } else { o }) {
            Err(_) => Err(OffsetError::Number),
            Ok(n) => if absolute && n < addr {
                Err(OffsetError::BelowBase)
            } else {
                Ok(
                    DataOffset {
                        offset: (if absolute { n - addr } else { n as int }) as usize,
                        bit: match bit {
                            Some(b) => Some(b as u8),
                            None => None,
                        },
                    },
                )
            },
        }
    }
}

/// Reads `v[from..to]` as a sum of numbers.
pub fn parse_sum(v: &Vec<char>, from: usize, to: usize) -> (r: Result<u32, NumberError>)
    requires
        from <= to <= v.len(),
    ensures
        r == safe_u32_of(v@.subrange(from as int, to as int)),
{
    let ghost whole = v@.subrange(from as int, to as int);
    let mut pos: usize = from;
    let mut acc: u64 = 0;
    loop
        invariant
            from <= pos <= to <= v.len(),
            acc <= u32::MAX,
            whole == v@.subrange(from as int, to as int),
            sum_value(whole) == match sum_value(v@.subrange(pos as int, to as int)) {
                Some(m) => Some((acc + m) as nat),
                None => None,
            },
        decreases to - pos,
    {
        let ghost rest = v@.subrange(pos as int, to as int);
        let k = find_char(v, pos, to, '+');
        assert(rest.take(k - pos) == v@.subrange(pos as int, k as int));
        assert(k < to ==> rest.skip(k - pos + 1) == v@.subrange(k + 1, to as int));
        match parse_bounded(v, pos, k, 0xffff_ffff) {
            None => {
                return Err(NumberError);
            },
            Some(n) => {
                let next: u64 = acc + n;
                if next > 0xffff_ffff {
                    return Err(NumberError);
                }
                if k == to {
                    return Ok(next as u32);
                }
                acc = next;
                pos = k + 1;
            },
        }
    }
}

/// Reading offsets and sums from texts.
pub trait ParseData {
    spec fn offset_spec(&self, addr: u32) -> Result<DataOffset, OffsetError>;

    spec fn sum_spec(&self) -> Result<u32, NumberError>;

    fn parse_data_offset(&self, addr: u32) -> (r: Result<DataOffset, OffsetError>)
        ensures
            r == self.offset_spec(addr),
    ;

    fn safe_parse_u32(&self) -> (r: Result<u32, NumberError>)
        ensures
            r == self.sum_spec(),
    ;
}

impl ParseData for String {
    open spec fn offset_spec(&self, addr: u32) -> Result<DataOffset, OffsetError> {
        data_offset_of(self@, addr)
    }

    open spec fn sum_spec(&self) -> Result<u32, NumberError> {
        safe_u32_of(self@)
    }

    fn parse_data_offset(&self, addr: u32) -> (r: Result<DataOffset, OffsetError>) {
        let v = chars_of(self.as_str());
        let n = v.len();
        let slash = find_char(&v, 0, n, '/');
        assert(v@.subrange(0, n as int) == v@);
        let mut bit: Option<u8> = None;
        if slash < n {
            let ghost t = v@.skip(slash + 1);
            let end = find_char(&v, slash + 1, n, '/');
            assert(head(t, '/') == v@.subrange(slash + 1, end as int));
            match parse_bounded(&v, slash + 1, end, 255) {
                None => {
                    return Err(OffsetError::Bit);
                },
                Some(b) => {
                    bit = Some(b as u8);
                },
            }
        }
        if slash == 0 {
            return Err(OffsetError::Empty);
        }
        let absolute = v[0] == '=';
        let start: usize = if absolute {
            1
        } else {
            0
        };
        assert(absolute ==> head(v@, '/').skip(1) == v@.subrange(1, slash as int));
        match parse_sum(&v, start, slash) {
            Err(_) => Err(OffsetError::Number),
            Ok(sum) => {
                if absolute {
                    if sum < addr {
                        Err(OffsetError::BelowBase)
                    } else {
                        Ok(DataOffset { offset: (sum - addr) as usize, bit })
                    }
                } else {
                    Ok(DataOffset { offset: sum as usize, bit })
                }
            },
        }
    }

    fn safe_parse_u32(&self) -> (r: Result<u32, NumberError>) {
        let v = chars_of(self.as_str());
        assert(v@.subrange(0, v@.len() as int) == v@);
        parse_sum(&v, 0, v.len())
    }
}

/// One step of a transform chain: what to do, and the real numbers it is
/// done with, as bits.
#[derive(Debug)]
pub struct EventTransformTask {
    pub func: TransformFunction,
    pub args: Vec<u64>,
}

/// The steps that a value passes before it is written, first to last.
pub type EventTransformList = Vec<EventTransformTask>;

/// The chain of a datum that is written as it is read: no step.
pub fn empty_transform_task() -> (r: EventTransformList)
    ensures
        r@.len() == 0,
{
    Vec::new()
}

/// The largest number of seconds since the epoch that a time in local
/// notation is asked for.
pub const MAX_LOCAL_SECS: u64 = 0x7fff_ffff_ffff_ffff;

/// The time of an event as it is written out: plainly, and as a JSON value
/// where the format has one.
#[derive(Clone, Debug, PartialEq, Eq)]
pub struct TimeText {
    pub plain: String,
    pub json: Option<String>,
}

impl View for TimeText {
    type V = (Seq<char>, Option<Seq<char>>);

    open spec fn view(&self) -> (Seq<char>, Option<Seq<char>>) {
        (
            self.plain@,
            match self.json {
                Some(j) => Some(j@),
                None => None,
            },
        )
    }
}

/// Asks `chrono` for the local time of a moment given in seconds and
/// nanoseconds since the epoch, in RFC 3339 notation. The text depends on
/// the time zone of the machine; there is none where `chrono` knows no such
/// date.
#[verifier::external_body]
fn local_rfc3339(secs: i64, nanos: u32) -> Option<String> {
    match Local.timestamp_opt(secs, nanos).single() {
        Some(t) => Some(t.to_rfc3339()),
        None => None,
    }
}

/// The moment at which a pull began: wall-clock time since the epoch, the
/// monotonic clock in nanoseconds, and the format the time is written in.
#[derive(PartialEq, Eq, Clone, Copy, Debug, Structural)]
pub struct EventTime {
    pub secs: u64,
    pub nanos: u32,
    pub monotonic: u64,
    pub time_format: TimeFormat,
}

/// The whole milliseconds of the part of a moment that lies below the second.
pub open spec fn subsec_millis(nanos: u32) -> nat {
    (nanos / 1_000_000 % 1000) as nat
}

/// The plain text of a raw time: the seconds, then the milliseconds as
/// decimals.
pub open spec fn raw_time_text(secs: u64, nanos: u32) -> Seq<char> {
    decimal(secs as nat) + fraction3(subsec_millis(nanos))
}

/// The JSON number of a raw time: as the plain text, with `.0` where the
/// plain text has no decimals.
pub open spec fn raw_time_json(secs: u64, nanos: u32) -> Seq<char> {
    if subsec_millis(nanos) == 0 {
        decimal(secs as nat) + ".0"@
    } else {
        raw_time_text(secs, nanos)
    }
}

impl EventTime {
    /// The time of a pull from the readings of the clocks at its beginning.
    pub fn new(time_format: TimeFormat, secs: u64, nanos: u32, monotonic: u64) -> (r: Self)
        ensures
            r == (EventTime { secs, nanos, monotonic, time_format }),
    {
        EventTime { secs, nanos, monotonic, time_format }
    }

    /// The texts of the time, given the local notation of it where the
    /// format asks for one: nothing for `Omit`, the seconds for `Raw`, the
    /// local notation for `Rfc3339`, for which there may be none.
    pub open spec fn text_spec(self, local: Option<Seq<char>>) -> Option<
        (Seq<char>, Option<Seq<char>>),
    > {
        match self.time_format {
            TimeFormat::Omit => Some((Seq::empty(), None)),
            TimeFormat::Raw => Some(
                (
                    raw_time_text(self.secs, self.nanos),
                    Some(raw_time_json(self.secs, self.nanos)),
                ),
            ),
            TimeFormat::Rfc3339 => match local {
                Some(l) => Some((l, Some(json_escaped(l)))),
                None => None,
            },
        }
    }

    /// The texts of the time, given its local notation.
    pub fn text_with(&self, local: Option<String>) -> (r: Option<TimeText>)
        ensures
            r is Some <==> self.text_spec(
                match local {
                    Some(l) => Some(l@),
                    None => None,
                },
            ) is Some,
            r matches Some(t) ==> self.text_spec(
                match local {
                    Some(l) => Some(l@),
                    None => None,
                },
            ) == Some(t@),
    {
        match self.time_format {
            TimeFormat::Omit => Some(TimeText { plain: String::new(), json: None }),
            TimeFormat::Raw => {
                let millis: u64 = (self.nanos / 1_000_000 % 1000) as u64;
                let mut plain = String::new();
                push_decimal(&mut plain, self.secs);
                push_fraction3(&mut plain, millis);
                let mut json = String::new();
                push_decimal(&mut json, self.secs);
                if millis == 0 {
                    push_text(&mut json, ".0");
                } else {
                    push_fraction3(&mut json, millis);
                }
                Some(TimeText { plain, json: Some(json) })
            },
            TimeFormat::Rfc3339 => match local {
                Some(l) => {
                    let json = json_string(l.as_str());
                    Some(TimeText { plain: l, json: Some(json) })
                },
                None => None,
            },
        }
    }

    /// The texts of the time. The local notation is whatever `chrono` makes
    /// of the moment on this machine, and it is not asked for a moment more
    /// than `MAX_LOCAL_SECS` seconds after the epoch, which has none; the
    /// other formats are as `text_spec` says.
    pub fn text(&self) -> (r: Option<TimeText>)
        ensures
            self.time_format != TimeFormat::Rfc3339 ==> r is Some && self.text_spec(None) == Some(
                r->0@,
            ),
            self.time_format == TimeFormat::Rfc3339 ==> (r matches Some(t) ==> t@.1 == Some(
                json_escaped(t@.0),
            )),
            self.time_format == TimeFormat::Rfc3339 && self.secs > MAX_LOCAL_SECS ==> r is None,
    {
        let local = match self.time_format {
            TimeFormat::Rfc3339 => if self.secs <= MAX_LOCAL_SECS {
                local_rfc3339(self.secs as i64, self.nanos)
            } else {
                None
            },
            _ => None,
        };
        self.text_with(local)
    }

    /// The plain text of the time.
    pub fn to_string(&self) -> (r: Option<String>)
        ensures
            self.time_format == TimeFormat::Omit ==> r is Some && r->0@.len() == 0,
            self.time_format == TimeFormat::Raw ==> r is Some && r->0@ == raw_time_text(
                self.secs,
                self.nanos,
            ),
            self.time_format == TimeFormat::Rfc3339 && self.secs > MAX_LOCAL_SECS ==> r is None,
    {
        match self.text() {
            Some(t) => Some(t.plain),
            None => None,
        }
    }
}

/// One datum on its way out: its name, its value, the time of the pull that
/// read it, and the steps its value still has to pass.
pub struct Event<'a> {
    pub id: &'a String,
    pub id_hash: u64,
    pub value: Value,
    pub t: &'a EventTime,
    pub transform_list: &'a EventTransformList,
    pub output_flags: OutputFlags,
}

/// Two events of one name have one hash.
pub proof fn law_one_name_one_hash(a: Event, b: Event)
    requires
        a.wf(),
        b.wf(),
        a.id@ == b.id@,
    ensures
        a.id_hash == b.id_hash,
{
}

impl<'a> Event<'a> {
    /// Whether the hash of the event is that of its name.
    pub open spec fn wf(self) -> bool {
        self.id_hash == stable_hash(self.id@)
    }

    /// A new event. Its hash is that of its name, so that two events of one
    /// name share one.
    pub fn new(
        id: &'a String,
        value: Value,
        transform: &'a EventTransformList,
        t: &'a EventTime,
        output_flags: OutputFlags,
    ) -> (r: Self)
        ensures
            r.wf(),
            r.id == id,
            r.id_hash == stable_hash(id@),
            r.value == value,
            r.t == t,
            r.transform_list == transform,
            r.output_flags == output_flags,
    {
        Event { id, id_hash: calculate_hash(id), value, t, transform_list: transform, output_flags }
    }

    /// The arithmetic that a step of kind `transform_function` with `args`
    /// asks for on the value of this event.
    pub fn transform(&self, transform_function: TransformFunction, args: &Vec<u64>) -> (r: Result<
        TransformStep,
        TransformError,
    >)
        ensures
            r == step_of(self.value, self.id_hash, self.t.monotonic, transform_function, args@),
    {
        plan_step(&self.value, self.id_hash, self.t.monotonic, transform_function, args)
    }

    /// The arithmetic that step `ti` of the chain asks for.
    pub fn transform_at(&self, ti: usize) -> (r: Result<TransformStep, TransformError>)
        requires
            ti < self.transform_list@.len(),
        ensures
            r == step_of(
                self.value,
                self.id_hash,
                self.t.monotonic,
                self.transform_list@[ti as int].func,
                self.transform_list@[ti as int].args@,
            ),
    {
        let tr = &self.transform_list[ti];
        self.transform(tr.func, &tr.args)
    }

    /// The event that follows a step: the same event with the real number
    /// that the step produced, or none where the step produced none.
    pub fn transformed(&self, outcome: Option<u64>) -> (r: Option<Event<'a>>)
        ensures
            outcome is None ==> r is None,
            outcome matches Some(bits) ==> (r matches Some(e) && e.value == Value::Real64(bits)
                && e.id == self.id && e.id_hash == self.id_hash && e.t == self.t
                && e.transform_list == self.transform_list && e.output_flags
                == self.output_flags && (self.wf() ==> e.wf())),
    {
        match outcome {
            Some(bits) => Some(
                Event {
                    id: self.id,
                    id_hash: self.id_hash,
                    value: Value::Real64(bits),
                    t: self.t,
                    transform_list: self.transform_list,
                    output_flags: self.output_flags,
                },
            ),
            None => None,
        }
    }
}

/// The time that one pull took.
pub struct PullLogEntry {
    id: String,
    created: u64,
    spent: Option<u64>,
}

/// What a timing record of one pull holds: the name of the pull, the
/// monotonic time in nanoseconds at which it began, and the nanoseconds it
/// took, once it has ended.
pub struct PullLogEntryView {
    pub id: Seq<char>,
    pub created: u64,
    pub spent: Option<u64>,
}

impl View for PullLogEntry {
    type V = PullLogEntryView;

    closed spec fn view(&self) -> PullLogEntryView {
        PullLogEntryView { id: self.id@, created: self.created, spent: self.spent }
    }
}

impl PullLogEntry {
    /// The record of a pull named `id` that begins at monotonic time `now`.
    pub fn new(id: &str, now: u64) -> (r: Self)
        ensures
            r@ == (PullLogEntryView { id: id@, created: now, spent: None }),
    {
        PullLogEntry { id: id.to_owned(), created: now, spent: None }
    }

    /// Notes that the pull has ended at monotonic time `now`.
    pub fn pulled(&mut self, now: u64)
        ensures
            final(self)@ == (PullLogEntryView {
                spent: Some(
                    if now >= old(self)@.created {
                        (now - old(self)@.created) as u64
                    } else {
                        0
                    },
                ),
                ..old(self)@
            }),
    {
        let spent: u64 = if now >= self.created {
            now - self.created
        } else {
            0
        };
        self.spent = Some(spent);
    }
}

/// The line of one timing record: the name, then the milliseconds that the
/// pull took with the microseconds as decimals, or `?` for a pull that has
/// not ended.
pub open spec fn entry_text(e: PullLogEntryView) -> Seq<char> {
    e.id + ": "@ + match e.spent {
        Some(nanos) => thousandths((nanos / 1000) as nat) + " ms"@,
        None => "?"@,
    } + ", "@
}

/// The lines of the records `entries[..n]`, one behind the other.
pub open spec fn entries_text(entries: Seq<PullLogEntryView>, n: nat) -> Seq<char>
    decreases n,
{
    if n == 0 {
        Seq::empty()
    } else {
        entries_text(entries, (n - 1) as nat) + entry_text(entries[n - 1])
    }
}

/// The timing records of one sweep.
pub struct PullLog {
    entries: Vec<PullLogEntry>,
}

impl View for PullLog {
    type V = Seq<PullLogEntryView>;

    closed spec fn view(&self) -> Seq<PullLogEntryView> {
        Seq::new(self.entries@.len(), |i: int| self.entries@[i]@)
    }
}

impl PullLog {
    /// No records yet.
    pub fn new() -> (r: Self)
        ensures
            r@.len() == 0,
    {
        PullLog { entries: Vec::new() }
    }

    /// Keeps the record of one more pull.
    pub fn push_entry(&mut self, p: PullLogEntry)
        ensures
            final(self)@ == old(self)@.push(p@),
    {
        self.entries.push(p);
    }

    /// Forgets the records, at the beginning of a sweep.
    pub fn clear(&mut self)
        ensures
            final(self)@.len() == 0,
    {
        self.entries.clear();
    }

    /// The summary that is printed when a sweep took too long.
    pub fn to_string(&self) -> (r: String)
        ensures
            r@ == "Time spent: "@ + entries_text(self@, self@.len()),
    {
        let mut result = "Time spent: ".to_owned();
        let mut i: usize = 0;
        while i < self.entries.len()
            invariant
                i <= self.entries.len(),
                self@.len() == self.entries@.len(),
                result@ == "Time spent: "@ + entries_text(self@, i as nat),
            decreases self.entries.len() - i,
        {
            let entry = &self.entries[i];
            push_text(&mut result, entry.id.as_str());
            push_text(&mut result, ": ");
            match entry.spent {
                Some(t) => {
                    push_thousandths(&mut result, t / 1000);
                    push_text(&mut result, " ms");
                },
                None => {
                    push_text(&mut result, "?");
                },
            }
            push_text(&mut result, ", ");
            i = i + 1;
        }
        result
    }
}

} // verus!
