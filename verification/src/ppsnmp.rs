//! SNMP: the identifiers that a pull asks for, the values that come back,
//! and the events they become.

use crate::datatypes::EventTransformList;
use crate::text::{
    bounded_value, chars_of, decimal, find_char, first_index, has_at, parse_bounded, push_chars,
    push_decimal, push_text, starts_with, text_eq,
};
use crate::transform::Value;
use vstd::prelude::*;

verus! {

/// The port of a device that names none.
pub const DEFAULT_SNMP_PORT: u16 = 161;

/// The version of the protocol where none is named.
pub fn get_default_version() -> (r: u8)
    ensures
        r == 2,
{
    2
}

/// Whether a version of the protocol is spoken here: the second is.
pub fn version_supported(version: u8) -> (r: bool)
    ensures
        r == (version == 2),
{
    version == 2
}

/// The community where none is named.
pub fn get_default_community() -> (r: String)
    ensures
        r@ == "public"@,
{
    "public".to_owned()
}

/// How many identifiers of a pull are asked for once only, where the pull
/// does not say.
pub fn get_default_non_repeat() -> (r: u32)
    ensures
        r == 0,
{
    0
}

/// How many answers are asked for each further identifier, where the pull
/// does not say.
pub fn get_default_max_repeat() -> (r: u32)
    ensures
        r == 1,
{
    1
}

/// The name of an event where none is set: none, so that the identifier
/// names it.
pub fn get_default_set_id() -> (r: Option<String>)
    ensures
        r is None,
{
    None
}

/// What a device can answer, as plain data.
#[derive(Clone, Debug, PartialEq, Eq)]
pub enum SnmpDatum {
    Boolean(bool),
    Integer(i64),
    OctetString(Vec<u8>),
    /// An object identifier, in dotted notation.
    ObjectIdentifier(String),
    IpAddress([u8; 4]),
    Counter32(u32),
    Unsigned32(u32),
    Timeticks(u32),
    Counter64(u64),
    /// Anything else: nothing, sequences, sets and the like.
    Other,
}

/// A value as the poller keeps it.
#[derive(Clone, Debug, PartialEq, Eq)]
pub enum SNMPValue {
    SBoolean(u8),
    SUint32(u32),
    SInt64(i64),
    SUint64(u64),
    SStr(String),
    SNull,
}

/// The text that the bytes stand for in UTF-8, with the replacement
/// character in place of what is no UTF-8, as `String::from_utf8_lossy`
/// reads them.
pub uninterp spec fn utf8_lossy(bytes: Seq<u8>) -> Seq<char>;

/// Calls `String::from_utf8_lossy`.
#[verifier::external_body]
fn from_utf8_lossy(bytes: &Vec<u8>) -> (r: String)
    ensures
        r@ == utf8_lossy(bytes@),
{
    String::from_utf8_lossy(bytes.as_slice()).into_owned()
}

/// An address of four bytes in dotted notation.
pub open spec fn dotted(a: [u8; 4]) -> Seq<char> {
    decimal(a[0] as nat) + "."@ + decimal(a[1] as nat) + "."@ + decimal(a[2] as nat) + "."@
        + decimal(a[3] as nat)
}

/// What the poller keeps of an answer. The text of a value that is kept as
/// a text, and the number of one that is kept as a number.
pub enum KeptView {
    Boolean(u8),
    Uint32(u32),
    Int64(i64),
    Uint64(u64),
    Str(Seq<char>),
    Null,
}

impl View for SNMPValue {
    type V = KeptView;

    open spec fn view(&self) -> KeptView {
        match self {
            SNMPValue::SBoolean(v) => KeptView::Boolean(*v),
            SNMPValue::SUint32(v) => KeptView::Uint32(*v),
            SNMPValue::SInt64(v) => KeptView::Int64(*v),
            SNMPValue::SUint64(v) => KeptView::Uint64(*v),
            SNMPValue::SStr(s) => KeptView::Str(s@),
            SNMPValue::SNull => KeptView::Null,
        }
    }
}

/// What the poller keeps of the answer `d`: a boolean as 0 or 1, numbers as
/// they are, counters, gauges and ticks alike, and bytes, identifiers and
/// addresses as texts. Of anything else it keeps nothing.
pub open spec fn kept_of(d: SnmpDatum) -> KeptView {
    match d {
        SnmpDatum::Boolean(v) => KeptView::Boolean(
            if v {
                1
            } else {
                0
            },
        ),
        SnmpDatum::Integer(v) => KeptView::Int64(v),
        SnmpDatum::OctetString(v) => KeptView::Str(utf8_lossy(v@)),
        SnmpDatum::ObjectIdentifier(v) => KeptView::Str(v@),
        SnmpDatum::IpAddress(v) => KeptView::Str(dotted(v)),
        SnmpDatum::Counter32(v) => KeptView::Uint32(v),
        SnmpDatum::Unsigned32(v) => KeptView::Uint32(v),
        SnmpDatum::Timeticks(v) => KeptView::Uint32(v),
        SnmpDatum::Counter64(v) => KeptView::Uint64(v),
        SnmpDatum::Other => KeptView::Null,
    }
}

/// Decides what to keep of an answer.
pub fn parse_snmp_val(d: SnmpDatum) -> (r: SNMPValue)
    ensures
        r@ == kept_of(d),
{
    match d {
        SnmpDatum::Boolean(v) => {
            if v {
                SNMPValue::SBoolean(1)
            } else {
                SNMPValue::SBoolean(0)
            }
        },
        SnmpDatum::Integer(v) => SNMPValue::SInt64(v),
        SnmpDatum::OctetString(v) => SNMPValue::SStr(from_utf8_lossy(&v)),
        SnmpDatum::ObjectIdentifier(v) => SNMPValue::SStr(v),
        SnmpDatum::IpAddress(v) => {
            let mut s = String::new();
            push_decimal(&mut s, v[0] as u64);
            push_text(&mut s, ".");
            push_decimal(&mut s, v[1] as u64);
            push_text(&mut s, ".");
            push_decimal(&mut s, v[2] as u64);
            push_text(&mut s, ".");
            push_decimal(&mut s, v[3] as u64);
            SNMPValue::SStr(s)
        },
        SnmpDatum::Counter32(v) => SNMPValue::SUint32(v),
        SnmpDatum::Unsigned32(v) => SNMPValue::SUint32(v),
        SnmpDatum::Timeticks(v) => SNMPValue::SUint32(v),
        SnmpDatum::Counter64(v) => SNMPValue::SUint64(v),
        SnmpDatum::Other => SNMPValue::SNull,
    }
}

/// An identifier that is empty, or no dotted row of numbers.
#[derive(PartialEq, Eq, Clone, Copy, Debug, Structural)]
pub enum OidError {
    Empty,
    Number,
}

/// The identifier `oid` as it is looked up: without a dot in front, and
/// with `1.` in place of `iso.` in front.
pub open spec fn prepared_oid(oid: Seq<char>) -> Result<Seq<char>, OidError> {
    if oid.len() == 0 {
        Err(OidError::Empty)
    } else if oid[0] == '.' {
        Ok(oid.skip(1))
    } else if starts_with(oid, "iso."@) {
        Ok("1."@ + oid.skip("iso."@.len() as int))
    } else {
        Ok(oid)
    }
}

/// Brings an identifier into the form in which it is looked up.
pub fn prepare_oid(oid: &String) -> (r: Result<String, OidError>)
    ensures
        r is Ok <==> prepared_oid(oid@) is Ok,
        r matches Ok(s) ==> prepared_oid(oid@) == Ok::<_, OidError>(s@),
        r matches Err(e) ==> prepared_oid(oid@) == Err::<Seq<char>, _>(e),
{
    let v = chars_of(oid.as_str());
    let n = v.len();
    if n == 0 {
        return Err(OidError::Empty);
    }
    let iso = chars_of("iso.");
    let mut res = String::new();
    if v[0] == '.' {
        push_chars(&mut res, &v, 1, n);
    } else if has_at(&v, 0, &iso) {
        push_text(&mut res, "1.");
        push_chars(&mut res, &v, iso.len(), n);
    } else {
        push_chars(&mut res, &v, 0, n);
        assert(v@.subrange(0, n as int) == v@);
    }
    Ok(res)
}

/// The numbers of a dotted identifier, each of at most 32 bits; none if a
/// part is no such number.
pub open spec fn oid_numbers(s: Seq<char>) -> Option<Seq<u32>>
    decreases s.len(),
{
    let k = first_index(s, '.');
    if 0 <= k < s.len() {
        match (bounded_value(s.take(k), u32::MAX as nat), oid_numbers(s.skip(k + 1))) {
            (Some(n), Some(rest)) => Some(seq![n as u32] + rest),
            _ => None,
        }
    } else {
        match bounded_value(s, u32::MAX as nat) {
            Some(n) => Some(seq![n as u32]),
            None => None,
        }
    }
}

/// The numbers that the identifier `oid` stands for, once it is prepared.
pub open spec fn parsed_oid(oid: Seq<char>) -> Result<Seq<u32>, OidError> {
    match prepared_oid(oid) {
        Err(e) => Err(e),
        Ok(p) => match oid_numbers(p) {
            Some(n) => Ok(n),
            None => Err(OidError::Number),
        },
    }
}

/// Reads the numbers of an identifier that a pull asks for.
pub fn parse_oid(oid: &String) -> (r: Result<Vec<u32>, OidError>)
    ensures
        r is Ok <==> parsed_oid(oid@) is Ok,
        r matches Ok(n) ==> parsed_oid(oid@) == Ok::<_, OidError>(n@),
        r matches Err(e) ==> parsed_oid(oid@) == Err::<Seq<u32>, _>(e),
{
    let prepared = match prepare_oid(oid) {
        Ok(p) => p,
        Err(e) => {
            return Err(e);
        },
    };
    let v = chars_of(prepared.as_str());
    let to = v.len();
    let mut numbers: Vec<u32> = Vec::new();
    let mut pos: usize = 0;
    assert(v@.subrange(0, to as int) == v@);
    loop
        invariant
            pos <= to == v.len(),
            prepared_oid(oid@) == Ok::<_, OidError>(v@),
            oid_numbers(v@) == match oid_numbers(v@.subrange(pos as int, to as int)) {
                Some(rest) => Some(numbers@ + rest),
                None => None,
            },
        decreases to - pos,
    {
        let ghost rest = v@.subrange(pos as int, to as int);
        let k = find_char(&v, pos, to, '.');
        assert(rest.take(k - pos) == v@.subrange(pos as int, k as int));
        assert(k < to ==> rest.skip(k - pos + 1) == v@.subrange(k + 1, to as int));
        match parse_bounded(&v, pos, k, 0xffff_ffff) {
            None => {
                return Err(OidError::Number);
            },
            Some(n) => {
                let ghost before = numbers@;
                numbers.push(n as u32);
                if k == to {
                    assert(before + seq![n as u32] == numbers@);
                    return Ok(numbers);
                }
                pos = k + 1;
            },
        }
    }
}

/// Whether a pull asks for several answers at once: it does with more than
/// one identifier, or with more than one repetition.
pub fn is_bulk(max_repeat: u32, oids: usize) -> (r: bool)
    ensures
        r == (max_repeat > 1 || oids > 1),
{
    max_repeat > 1 || oids > 1
}

/// What a pull asks of the device.
pub struct SNMPPullData {
    pub oids: Vec<Vec<u32>>,
    pub non_repeat: u32,
    pub max_repeat: u32,
    pub bulk: bool,
}

/// What to look up in the answers of a pull, and what to make of it.
pub struct SNMPDataProcessInfo {
    pub oid: String,
    pub set_id: Option<String>,
    pub transform: EventTransformList,
}

impl SNMPDataProcessInfo {
    /// Reads the description of a datum: its identifier is prepared.
    pub fn new(oid: &String, set_id: Option<String>, transform: EventTransformList) -> (r: Result<
        Self,
        OidError,
    >)
        ensures
            r is Ok <==> prepared_oid(oid@) is Ok,
            r matches Ok(d) ==> prepared_oid(oid@) == Ok::<_, OidError>(d.oid@) && d.set_id
                == set_id && d.transform == transform,
            r matches Err(e) ==> prepared_oid(oid@) == Err::<Seq<char>, _>(e),
    {
        match prepare_oid(oid) {
            Ok(p) => Ok(SNMPDataProcessInfo { oid: p, set_id, transform }),
            Err(e) => Err(e),
        }
    }

    /// The name of the event: the one that was set, else the identifier.
    pub fn event_id(&self) -> (r: &String)
        ensures
            r == match self.set_id {
                Some(s) => s,
                None => self.oid,
            },
    {
        match &self.set_id {
            Some(s) => s,
            None => &self.oid,
        }
    }
}

/// A datum of a pull as the configuration describes it.
pub struct SNMPProcessConfig {
    pub oid: String,
    pub set_id: Option<String>,
    pub transform: EventTransformList,
}

/// A pull as the configuration describes it.
pub struct SNMPPullConfig {
    pub oids: Vec<String>,
    pub non_repeat: u32,
    pub max_repeat: u32,
    pub process: Vec<SNMPProcessConfig>,
}

/// The identifiers under which the data that `process` describes are
/// looked up, in their order; the fault of the first of them that is not
/// well described, if there is one.
pub open spec fn prepared_oids(process: Seq<SNMPProcessConfig>) -> Result<Seq<Seq<char>>, OidError>
    decreases process.len(),
{
    if process.len() == 0 {
        Ok(Seq::empty())
    } else {
        match prepared_oid(process[0].oid@) {
            Err(e) => Err(e),
            Ok(first) => match prepared_oids(process.skip(1)) {
                Err(e) => Err(e),
                Ok(rest) => Ok(seq![first] + rest),
            },
        }
    }
}

/// The numbers of the identifiers `oids`, in their order; the fault of the
/// first of them that is not well described, if there is one.
pub open spec fn parsed_oids(oids: Seq<String>) -> Result<Seq<Seq<u32>>, OidError>
    decreases oids.len(),
{
    if oids.len() == 0 {
        Ok(Seq::empty())
    } else {
        match parsed_oid(oids[0]@) {
            Err(e) => Err(e),
            Ok(first) => match parsed_oids(oids.skip(1)) {
                Err(e) => Err(e),
                Ok(rest) => Ok(seq![first] + rest),
            },
        }
    }
}

/// Whether `infos` are the data that `process` describes, looked up under
/// the identifiers `oids`.
pub open spec fn snmp_infos_are(
    infos: Seq<SNMPDataProcessInfo>,
    process: Seq<SNMPProcessConfig>,
    oids: Seq<Seq<char>>,
) -> bool {
    &&& infos.len() == process.len()
    &&& infos.len() == oids.len()
    &&& forall|i: int|
        0 <= i < infos.len() ==> (#[trigger] infos[i]).oid@ == oids[i] && infos[i].set_id
            == process[i].set_id && infos[i].transform == process[i].transform
}

/// Whether `made` are the identifiers with the numbers `numbers`.
pub open spec fn oids_are(made: Seq<Vec<u32>>, numbers: Seq<Seq<u32>>) -> bool {
    &&& made.len() == numbers.len()
    &&& forall|i: int| 0 <= i < made.len() ==> (#[trigger] made[i])@ == numbers[i]
}

/// What the pull `p` asks of the device and makes of its answers: the data
/// must be well described, then the identifiers.
pub open spec fn snmp_pull_of(p: SNMPPullConfig) -> Result<
    (Seq<Seq<char>>, Seq<Seq<u32>>),
    OidError,
> {
    match prepared_oids(p.process@) {
        Err(e) => Err(e),
        Ok(looked_up) => match parsed_oids(p.oids@) {
            Err(e) => Err(e),
            Ok(numbers) => Ok((looked_up, numbers)),
        },
    }
}

/// Makes of the description of a pull what is asked of the device and
/// what is made of its answers.
pub fn prepare_pull(p: SNMPPullConfig) -> (r: Result<
    (SNMPPullData, Vec<SNMPDataProcessInfo>),
    OidError,
>)
    ensures
        match snmp_pull_of(p) {
            Ok((looked_up, numbers)) => r matches Ok((pull, infos)) && snmp_infos_are(
                infos@,
                p.process@,
                looked_up,
            ) && oids_are(pull.oids@, numbers) && pull.non_repeat == p.non_repeat
                && pull.max_repeat == p.max_repeat && pull.bulk == (p.max_repeat > 1
                || p.oids@.len() > 1),
            Err(e) => r matches Err(f) && f == e,
        },
{
    let ghost process = p.process@;
    let ghost mut looked_up: Seq<Seq<char>> = Seq::empty();
    let mut infos: Vec<SNMPDataProcessInfo> = Vec::new();
    assert(process.skip(0) == process);
    for prc in it: p.process
        invariant
            it.seq() == process,
            process == p.process@,
            snmp_infos_are(infos@, process.take(it.index()), looked_up),
            prepared_oids(process) == match prepared_oids(process.skip(it.index())) {
                Ok(rest) => Ok(looked_up + rest),
                Err(e) => Err(e),
            },
    {
        let ghost i = it.index();
        assert(process.skip(i).skip(1) == process.skip(i + 1));
        match SNMPDataProcessInfo::new(&prc.oid, prc.set_id, prc.transform) {
            Err(e) => {
                return Err(e);
            },
            Ok(d) => {
                proof {
                    let rest = prepared_oids(process.skip(i + 1));
                    if rest is Ok {
                        assert(looked_up + (seq![d.oid@] + rest->Ok_0) == looked_up.push(d.oid@)
                            + rest->Ok_0);
                    }
                    looked_up = looked_up.push(d.oid@);
                }
                infos.push(d);
            },
        }
    }
    let ghost mut numbers: Seq<Seq<u32>> = Seq::empty();
    let mut oids: Vec<Vec<u32>> = Vec::new();
    let mut k: usize = 0;
    assert(p.oids@.skip(0) == p.oids@);
    while k < p.oids.len()
        invariant
            k <= p.oids.len(),
            prepared_oids(p.process@) == Ok::<_, OidError>(looked_up),
            oids_are(oids@, numbers),
            numbers.len() == k,
            parsed_oids(p.oids@) == match parsed_oids(p.oids@.skip(k as int)) {
                Ok(rest) => Ok(numbers + rest),
                Err(e) => Err(e),
            },
        decreases p.oids.len() - k,
    {
        assert(p.oids@.skip(k as int).skip(1) == p.oids@.skip(k + 1));
        match parse_oid(&p.oids[k]) {
            Err(e) => {
                return Err(e);
            },
            Ok(n) => {
                proof {
                    let rest = parsed_oids(p.oids@.skip(k + 1));
                    if rest is Ok {
                        assert(numbers + (seq![n@] + rest->Ok_0) == numbers.push(n@)
                            + rest->Ok_0);
                    }
                    numbers = numbers.push(n@);
                }
                oids.push(n);
            },
        }
        k = k + 1;
    }
    let bulk = is_bulk(p.max_repeat, oids.len());
    Ok((SNMPPullData { oids, non_repeat: p.non_repeat, max_repeat: p.max_repeat, bulk }, infos))
}

/// One answer of a device: the identifier it answers for, and the value.
pub struct SnmpAnswer {
    pub name: String,
    pub value: SNMPValue,
}

/// The place of the answer for `oid` in `answers`: the last one of that
/// name, as a later answer replaces an earlier one.
pub open spec fn answer_index(answers: Seq<SnmpAnswer>, oid: Seq<char>) -> Option<int>
    decreases answers.len(),
{
    if answers.len() == 0 {
        None
    } else if answers.last().name@ == oid {
        Some(answers.len() - 1)
    } else {
        answer_index(answers.drop_last(), oid)
    }
}

/// Looks up the answer for `oid`.
pub fn find_answer<'a>(answers: &'a Vec<SnmpAnswer>, oid: &str) -> (r: Option<&'a SNMPValue>)
    ensures
        match answer_index(answers@, oid@) {
            Some(i) => 0 <= i < answers@.len() && r == Some(&answers@[i].value),
            None => r is None,
        },
{
    let mut i: usize = answers.len();
    assert(answers@.take(i as int) == answers@);
    while i > 0
        invariant
            i <= answers.len(),
            answer_index(answers@, oid@) == answer_index(answers@.take(i as int), oid@),
        decreases i,
    {
        assert(answers@.take(i as int).drop_last() == answers@.take(i - 1));
        if text_eq(answers[i - 1].name.as_str(), oid) {
            return Some(&answers[i - 1].value);
        }
        i = i - 1;
    }
    None
}

/// The value of the event that an answer becomes: none for an answer of
/// which nothing is kept.
pub open spec fn event_value_of(v: KeptView) -> Option<Value> {
    match v {
        KeptView::Boolean(b) => Some(Value::U8(b)),
        KeptView::Uint32(n) => Some(Value::U32(n)),
        KeptView::Int64(n) => Some(Value::I64(n)),
        KeptView::Uint64(n) => Some(Value::U64(n)),
        KeptView::Str(_) => None,
        KeptView::Null => None,
    }
}

/// The value of the event that an answer becomes. A text becomes a text
/// value of the same characters.
pub fn event_value(v: &SNMPValue) -> (r: Option<Value>)
    ensures
        match v@ {
            KeptView::Str(s) => r matches Some(Value::Str(t)) && t@ == s,
            other => r == event_value_of(other),
        },
{
    match v {
        SNMPValue::SBoolean(b) => Some(Value::U8(*b)),
        SNMPValue::SUint32(n) => Some(Value::U32(*n)),
        SNMPValue::SInt64(n) => Some(Value::I64(*n)),
        SNMPValue::SUint64(n) => Some(Value::U64(*n)),
        SNMPValue::SStr(s) => Some(Value::Str(s.clone())),
        SNMPValue::SNull => None,
    }
}

} // verus!
