//! Values and the steps that transform them.
//!
//! Real numbers are held as IEEE-754 bit patterns and never computed with
//! here: a step says which arithmetic is due, and the caller performs it.

use crate::text::{
    json_escaped, json_string, push_decimal, push_signed, signed_decimal, text_eq,
};
use std::collections::HashMap;
use vstd::prelude::*;

verus! {

/// The kinds of transform step.
#[derive(PartialEq, Eq, Clone, Copy, Debug, Structural)]
pub enum TransformFunction {
    Multiply,
    Divide,
    Round,
    CalcSpeed,
}

/// The kind of step that a name in a configuration stands for.
pub open spec fn function_of(name: Seq<char>) -> Option<TransformFunction> {
    if name == "multiply"@ {
        Some(TransformFunction::Multiply)
    } else if name == "divide"@ {
        Some(TransformFunction::Divide)
    } else if name == "round"@ {
        Some(TransformFunction::Round)
    } else if name == "calc_speed"@ {
        Some(TransformFunction::CalcSpeed)
    } else {
        None
    }
}

/// Reads the kind of a step from its name.
pub fn transform_function(name: &str) -> (r: Option<TransformFunction>)
    ensures
        r == function_of(name@),
{
    if text_eq(name, "multiply") {
        Some(TransformFunction::Multiply)
    } else if text_eq(name, "divide") {
        Some(TransformFunction::Divide)
    } else if text_eq(name, "round") {
        Some(TransformFunction::Round)
    } else if text_eq(name, "calc_speed") {
        Some(TransformFunction::CalcSpeed)
    } else {
        None
    }
}

/// The value of a datum. `Real32` and `Real64` hold the bits of the number.
#[derive(Clone, Debug, PartialEq, Eq)]
pub enum Value {
    U8(u8),
    I8(i8),
    U16(u16),
    I16(i16),
    U32(u32),
    I32(i32),
    U64(u64),
    I64(i64),
    Real32(u32),
    Real64(u64),
    Str(String),
    Bool(bool),
}

/// A value as it is written out: plainly, and as a JSON value.
#[derive(Clone, Debug, PartialEq, Eq)]
pub struct ValueText {
    pub plain: String,
    pub json: String,
}

impl View for ValueText {
    type V = (Seq<char>, Seq<char>);

    open spec fn view(&self) -> (Seq<char>, Seq<char>) {
        (self.plain@, self.json@)
    }
}

impl Value {
    /// The integer that the value holds, if it holds one.
    pub open spec fn integer(self) -> Option<int> {
        match self {
            Value::U8(v) => Some(v as int),
            Value::I8(v) => Some(v as int),
            Value::U16(v) => Some(v as int),
            Value::I16(v) => Some(v as int),
            Value::U32(v) => Some(v as int),
            Value::I32(v) => Some(v as int),
            Value::U64(v) => Some(v as int),
            Value::I64(v) => Some(v as int),
            _ => None,
        }
    }

    /// Whether the value is a real number.
    pub open spec fn is_real(self) -> bool {
        self is Real32 || self is Real64
    }

    /// The plain and the JSON text of the value: `None` for a real number,
    /// whose text is not made here.
    pub open spec fn text_spec(self) -> Option<(Seq<char>, Seq<char>)> {
        match self {
            Value::Real32(_) | Value::Real64(_) => None,
            Value::Str(s) => Some((s@, json_escaped(s@))),
            Value::Bool(b) => if b {
                Some(("true"@, "true"@))
            } else {
                Some(("false"@, "false"@))
            },
            _ => Some((signed_decimal(self.integer()->0), signed_decimal(self.integer()->0))),
        }
    }

    /// The largest number of the value's integer type.
    pub open spec fn max_spec(self) -> Option<u64> {
        match self {
            Value::U8(_) => Some(0xff),
            Value::I8(_) => Some(0x7f),
            Value::U16(_) => Some(0xffff),
            Value::I16(_) => Some(0x7fff),
            Value::U32(_) => Some(0xffff_ffff),
            Value::I32(_) => Some(0x7fff_ffff),
            Value::U64(_) => Some(0xffff_ffff_ffff_ffff),
            Value::I64(_) => Some(0x7fff_ffff_ffff_ffff),
            _ => None,
        }
    }

    /// The truth value of an integer or a boolean: an integer is true unless
    /// it is zero. `None` for texts and real numbers.
    pub open spec fn bool_spec(self) -> Option<bool> {
        match self {
            Value::Bool(b) => Some(b),
            Value::Str(_) | Value::Real32(_) | Value::Real64(_) => None,
            _ => Some(self.integer()->0 != 0),
        }
    }

    fn unsigned_text(v: u64) -> (r: ValueText)
        ensures
            r@ == (signed_decimal(v as int), signed_decimal(v as int)),
    {
        let mut plain = String::new();
        push_decimal(&mut plain, v);
        let mut json = String::new();
        push_decimal(&mut json, v);
        ValueText { plain, json }
    }

    fn signed_text(v: i64) -> (r: ValueText)
        ensures
            r@ == (signed_decimal(v as int), signed_decimal(v as int)),
    {
        let mut plain = String::new();
        push_signed(&mut plain, v);
        let mut json = String::new();
        push_signed(&mut json, v);
        ValueText { plain, json }
    }

    /// The text of an integer, a boolean or a text value.
    pub fn text(&self) -> (r: Option<ValueText>)
        ensures
            r is Some <==> self.text_spec() is Some,
            r matches Some(t) ==> self.text_spec() == Some(t@),
    {
        match self {
            Value::U8(v) => Some(Self::unsigned_text(*v as u64)),
            Value::I8(v) => Some(Self::signed_text(*v as i64)),
            Value::U16(v) => Some(Self::unsigned_text(*v as u64)),
            Value::I16(v) => Some(Self::signed_text(*v as i64)),
            Value::U32(v) => Some(Self::unsigned_text(*v as u64)),
            Value::I32(v) => Some(Self::signed_text(*v as i64)),
            Value::U64(v) => Some(Self::unsigned_text(*v)),
            Value::I64(v) => Some(Self::signed_text(*v)),
            Value::Real32(_) => None,
            Value::Real64(_) => None,
            Value::Str(s) => Some(ValueText { plain: s.clone(), json: json_string(s.as_str()) }),
            Value::Bool(b) => if *b {
                Some(ValueText { plain: "true".to_owned(), json: "true".to_owned() })
            } else {
                Some(ValueText { plain: "false".to_owned(), json: "false".to_owned() })
            },
        }
    }

    /// The largest number of the value's integer type, for counters that
    /// wrap around.
    pub fn max(&self) -> (r: Option<u64>)
        ensures
            r == self.max_spec(),
    {
        match self {
            Value::U8(_) => Some(0xff),
            Value::I8(_) => Some(0x7f),
            Value::U16(_) => Some(0xffff),
            Value::I16(_) => Some(0x7fff),
            Value::U32(_) => Some(0xffff_ffff),
            Value::I32(_) => Some(0x7fff_ffff),
            Value::U64(_) => Some(0xffff_ffff_ffff_ffff),
            Value::I64(_) => Some(0x7fff_ffff_ffff_ffff),
            _ => None,
        }
    }

    /// The truth value of an integer or a boolean.
    pub fn to_bool(&self) -> (r: Option<bool>)
        ensures
            r == self.bool_spec(),
    {
        match self {
            Value::U8(v) => Some(*v != 0),
            Value::I8(v) => Some(*v != 0),
            Value::U16(v) => Some(*v != 0),
            Value::I16(v) => Some(*v != 0),
            Value::U32(v) => Some(*v != 0),
            Value::I32(v) => Some(*v != 0),
            Value::U64(v) => Some(*v != 0),
            Value::I64(v) => Some(*v != 0),
            Value::Bool(b) => Some(*b),
            _ => None,
        }
    }
}

/// The bits of the real number 1, the least time in seconds between two
/// speed measurements where a step names none.
pub const DEFAULT_SPEED_INTERVAL: u64 = 0x3ff0_0000_0000_0000;

/// The most digits that a value can be rounded to.
pub const MAX_ROUND_DIGITS: u32 = 19;

/// The arithmetic that a transform step asks for. Real operands are bits.
#[derive(PartialEq, Eq, Clone, Copy, Debug, Structural)]
pub enum TransformStep {
    /// The value times `factor`.
    Multiply { factor: u64 },
    /// The value divided by `divisor`.
    Divide { divisor: u64 },
    /// The value rounded to `digits` decimals; the digits are a real number
    /// still, of which `round_scale` takes the whole part.
    Round { digits: u64 },
    /// The growth of the value per second at the monotonic time `t` of the
    /// event, measured against the last observation kept under `uid`, at
    /// least `interval` seconds old.
    CalcSpeed { uid: u64, interval: u64, t: u64 },
}

/// Why a transform step cannot be done.
#[derive(PartialEq, Eq, Clone, Copy, Debug, Structural)]
pub enum TransformError {
    /// The step needs an argument and has none.
    MissingArgument,
    /// Arithmetic on a boolean.
    NotNumeric,
    /// The speed of a text or of a boolean.
    SpeedUnsupported,
    /// Rounding to more than 19 digits.
    TooManyDigits,
}

/// The step that `func` with `args` asks for on the value of an event with
/// the hash `uid` and the monotonic time `t`: its first argument is the
/// operand. A speed step without argument measures at most once a second.
pub open spec fn step_of(
    value: Value,
    uid: u64,
    t: u64,
    func: TransformFunction,
    args: Seq<u64>,
) -> Result<TransformStep, TransformError> {
    match func {
        TransformFunction::CalcSpeed => if value is Str || value is Bool {
            Err(TransformError::SpeedUnsupported)
        } else {
            Ok(
                TransformStep::CalcSpeed {
                    uid,
                    interval: if args.len() > 0 {
                        args[0]
                    } else {
                        DEFAULT_SPEED_INTERVAL
                    },
                    t,
                },
            )
        },
        _ => if args.len() == 0 {
            Err(TransformError::MissingArgument)
        } else if value is Bool {
            Err(TransformError::NotNumeric)
        } else {
            Ok(
                match func {
                    TransformFunction::Multiply => TransformStep::Multiply { factor: args[0] },
                    TransformFunction::Divide => TransformStep::Divide { divisor: args[0] },
                    _ => TransformStep::Round { digits: args[0] },
                },
            )
        },
    }
}

/// Decides the step that `func` with `args` asks for on `value`.
pub fn plan_step(value: &Value, uid: u64, t: u64, func: TransformFunction, args: &Vec<u64>) -> (r:
    Result<TransformStep, TransformError>)
    ensures
        r == step_of(*value, uid, t, func, args@),
{
    let is_bool = match value {
        Value::Bool(_) => true,
        _ => false,
    };
    let is_str = match value {
        Value::Str(_) => true,
        _ => false,
    };
    match func {
        TransformFunction::CalcSpeed => {
            if is_str || is_bool {
                Err(TransformError::SpeedUnsupported)
            } else if args.len() > 0 {
                Ok(TransformStep::CalcSpeed { uid, interval: args[0], t })
            } else {
                Ok(TransformStep::CalcSpeed { uid, interval: DEFAULT_SPEED_INTERVAL, t })
            }
        },
        TransformFunction::Multiply => {
            if args.len() == 0 {
                Err(TransformError::MissingArgument)
            } else if is_bool {
                Err(TransformError::NotNumeric)
            } else {
                Ok(TransformStep::Multiply { factor: args[0] })
            }
        },
        TransformFunction::Divide => {
            if args.len() == 0 {
                Err(TransformError::MissingArgument)
            } else if is_bool {
                Err(TransformError::NotNumeric)
            } else {
                Ok(TransformStep::Divide { divisor: args[0] })
            }
        },
        TransformFunction::Round => {
            if args.len() == 0 {
                Err(TransformError::MissingArgument)
            } else if is_bool {
                Err(TransformError::NotNumeric)
            } else {
                Ok(TransformStep::Round { digits: args[0] })
            }
        },
    }
}

/// Ten to the power `n`.
pub open spec fn pow10(n: nat) -> nat
    decreases n,
{
    if n == 0 {
        1
    } else {
        10 * pow10((n - 1) as nat)
    }
}

/// Powers of ten grow with the exponent.
pub proof fn lemma_pow10_grows(i: nat, j: nat)
    requires
        i <= j,
    ensures
        0 < pow10(i) <= pow10(j),
    decreases j,
{
    if j > 0 {
        if i < j {
            lemma_pow10_grows(i, (j - 1) as nat);
        } else {
            lemma_pow10_grows((i - 1) as nat, (j - 1) as nat);
        }
    }
}

/// The factor by which a value is scaled before it is rounded to `digits`
/// decimals, and scaled back afterwards: ten to that power. More than 19
/// digits are refused.
pub fn round_scale(digits: u32) -> (r: Result<u64, TransformError>)
    ensures
        r == if digits <= MAX_ROUND_DIGITS {
            Ok::<u64, TransformError>(pow10(digits as nat) as u64)
        } else {
            Err(TransformError::TooManyDigits)
        },
        digits <= MAX_ROUND_DIGITS ==> pow10(digits as nat) <= u64::MAX,
{
    if digits > MAX_ROUND_DIGITS {
        return Err(TransformError::TooManyDigits);
    }
    proof {
        assert(pow10(19) == 10_000_000_000_000_000_000) by {
            reveal_with_fuel(pow10, 20);
        }
        lemma_pow10_grows(digits as nat, 19);
    }
    let mut scale: u64 = 1;
    let mut i: u32 = 0;
    while i < digits
        invariant
            i <= digits <= 19,
            scale == pow10(i as nat),
            pow10(19) == 10_000_000_000_000_000_000,
        decreases digits - i,
    {
        proof {
            lemma_pow10_grows((i + 1) as nat, 19);
        }
        scale = scale * 10;
        i = i + 1;
    }
    Ok(scale)
}

/// What is kept of the last observation of a value: its bits and the
/// monotonic time of the observation in nanoseconds.
#[derive(PartialEq, Eq, Clone, Copy, Debug, Structural)]
pub struct ValSpeedInfo {
    pub value: u64,
    pub last: u64,
}

/// What a speed step finds for an observation.
#[derive(PartialEq, Eq, Clone, Copy, Debug, Structural)]
pub enum SpeedStep {
    /// Nothing was observed before: the speed is zero.
    First,
    /// The last observation is too young, or no time has passed since:
    /// there is no speed, and the event is dropped.
    TooSoon,
    /// The speed is the growth since `previous`, divided by the time that
    /// has passed since, `elapsed` nanoseconds read as seconds. Some time has
    /// passed: `elapsed` is not zero.
    Measure { previous: u64, elapsed: u64 },
}

/// The nanoseconds in a second.
pub const NANOS_PER_SEC: u64 = 1_000_000_000;

/// The nanoseconds from `earlier` to `later`: none if `later` is not later.
pub open spec fn elapsed(later: u64, earlier: u64) -> int {
    if later >= earlier {
        later - earlier
    } else {
        0
    }
}

/// What a speed step finds at time `t` in the observations `info`, when two
/// measurements lie at least `interval` nanoseconds apart: the first
/// observation, one that comes before the interval has passed or before any
/// time has passed, or the last value together with all the time that has
/// passed since.
pub open spec fn speed_step_of(info: Map<u64, ValSpeedInfo>, uid: u64, interval: u64, t: u64)
    -> SpeedStep {
    if !info.contains_key(uid) {
        SpeedStep::First
    } else if elapsed(t, info[uid].last) < interval || elapsed(t, info[uid].last) == 0 {
        SpeedStep::TooSoon
    } else {
        SpeedStep::Measure {
            previous: info[uid].value,
            elapsed: elapsed(t, info[uid].last) as u64,
        }
    }
}

/// The observations after a speed step: the new one replaces the old one
/// unless the step found the old one too young.
pub open spec fn speed_info_after(
    info: Map<u64, ValSpeedInfo>,
    uid: u64,
    value: u64,
    interval: u64,
    t: u64,
) -> Map<u64, ValSpeedInfo> {
    if speed_step_of(info, uid, interval, t) == SpeedStep::TooSoon {
        info
    } else {
        info.insert(uid, ValSpeedInfo { value, last: t })
    }
}

/// The first observation of a value has the speed zero, and is kept as it
/// is: nothing else changes.
pub proof fn law_first_speed_is_zero(
    info: Map<u64, ValSpeedInfo>,
    uid: u64,
    value: u64,
    interval: u64,
    t: u64,
)
    requires
        !info.contains_key(uid),
    ensures
        speed_step_of(info, uid, interval, t) == SpeedStep::First,
        speed_info_after(info, uid, value, interval, t) == info.insert(
            uid,
            ValSpeedInfo { value, last: t },
        ),
{
}

/// A value that was observed before, no less than the interval ago, is
/// measured against that observation over all the time that has passed
/// since, to the nanosecond; the new observation takes the place of the old
/// one, and the observations of other values stay as they are.
pub proof fn law_speed_measures_elapsed(
    info: Map<u64, ValSpeedInfo>,
    uid: u64,
    value: u64,
    interval: u64,
    t: u64,
    other: u64,
)
    requires
        info.contains_key(uid),
        t > info[uid].last,
        t - info[uid].last >= interval,
        other != uid,
    ensures
        speed_step_of(info, uid, interval, t) == (SpeedStep::Measure {
            previous: info[uid].value,
            elapsed: (t - info[uid].last) as u64,
        }),
        t - info[uid].last > 0,
        speed_info_after(info, uid, value, interval, t)[uid] == (ValSpeedInfo { value, last: t }),
        speed_info_after(info, uid, value, interval, t).contains_key(other) == info.contains_key(
            other,
        ),
        info.contains_key(other) ==> speed_info_after(info, uid, value, interval, t)[other]
            == info[other],
{
}

/// An observation is kept exactly if a speed comes of it: one that comes
/// too soon leaves everything as it was.
pub proof fn law_speed_keeps_what_counts(
    info: Map<u64, ValSpeedInfo>,
    uid: u64,
    value: u64,
    interval: u64,
    t: u64,
)
    ensures
        speed_step_of(info, uid, interval, t) == SpeedStep::TooSoon ==> speed_info_after(
            info,
            uid,
            value,
            interval,
            t,
        ) == info,
        speed_step_of(info, uid, interval, t) != SpeedStep::TooSoon ==> speed_info_after(
            info,
            uid,
            value,
            interval,
            t,
        )[uid] == (ValSpeedInfo { value, last: t }),
{
}

/// The last observation of each value of which a speed is computed.
pub struct SpeedTable {
    info: HashMap<u64, ValSpeedInfo>,
}

impl View for SpeedTable {
    type V = Map<u64, ValSpeedInfo>;

    closed spec fn view(&self) -> Map<u64, ValSpeedInfo> {
        self.info@
    }
}

impl SpeedTable {
    /// No observations yet.
    pub fn new() -> (r: Self)
        ensures
            r@ == Map::<u64, ValSpeedInfo>::empty(),
    {
        SpeedTable { info: HashMap::new() }
    }

    /// The last observation kept under `uid`.
    pub fn get(&self, uid: u64) -> (r: Option<ValSpeedInfo>)
        ensures
            r == if self@.contains_key(uid) {
                Some(self@[uid])
            } else {
                None
            },
    {
        match self.info.get(&uid) {
            Some(v) => Some(*v),
            None => None,
        }
    }

    /// Observes `value` at monotonic time `t` under `uid` and says how its
    /// speed is to be computed, when two measurements lie at least
    /// `interval` nanoseconds apart.
    pub fn calculate_growth_speed(&mut self, value: u64, uid: u64, interval: u64, t: u64) -> (r:
        SpeedStep)
        ensures
            r == speed_step_of(old(self)@, uid, interval, t),
            r matches SpeedStep::Measure { elapsed, .. } ==> elapsed > 0,
            final(self)@ == speed_info_after(old(self)@, uid, value, interval, t),
    {
        let step = match self.info.get(&uid) {
            None => SpeedStep::First,
            Some(prv) => {
                let passed: u64 = if t >= prv.last {
                    t - prv.last
                } else {
                    0
                };
                if passed < interval || passed == 0 {
                    SpeedStep::TooSoon
                } else {
                    SpeedStep::Measure { previous: prv.value, elapsed: passed }
                }
            },
        };
        match step {
            SpeedStep::TooSoon => {},
            _ => {
                self.info.insert(uid, ValSpeedInfo { value, last: t });
            },
        }
        step
    }
}

} // verus!
