//! EtherNet/IP: the path that names a tag, what to read from a tag, and
//! what to make of what was read.

use crate::datatypes::{
    calculate_hash, data_offset_of, data_type_of, stable_hash, DataOffset, EventTransformList,
    GenDataType, GenDataTypeParse, OffsetError, ParseData,
};
use crate::text::{decimal, lowercase, push_decimal, push_text, text_eq};
use vstd::prelude::*;

verus! {

/// The port of a device that names none.
pub const DEFAULT_ENIP_PORT: u16 = 44818;

/// Whether a protocol name is the one that is spoken here.
pub fn protocol_supported(name: &str) -> (r: bool)
    ensures
        r == (name@ == "enip/ab_eip"@),
{
    text_eq(name, "enip/ab_eip")
}

/// The size of an element of a tag where a pull names none.
pub fn get_default_size() -> (r: u32)
    ensures
        r == 1,
{
    1
}

/// The number of elements of a tag where a pull names none: unsaid.
pub fn get_default_count() -> (r: Option<u32>)
    ensures
        r is None,
{
    None
}

/// The data type of a datum where its description names none.
pub fn get_default_type() -> (r: String)
    ensures
        r@ == "bit"@,
{
    "bit".to_owned()
}

/// The path of a device: protocol, gateway, route and kind of controller.
pub open spec fn plc_path_spec(host: Seq<char>, port: u16, path: Seq<char>, cpu: Seq<char>) -> Seq<
    char,
> {
    "protocol=ab_eip&gateway="@ + host + ":"@ + decimal(port as nat) + "&path="@ + path + "&cpu="@
        + cpu
}

/// The path of a tag on a device: the path of the device, the size of an
/// element, the number of elements where it is said, and the name.
pub open spec fn tag_path_spec(
    plc_path: Seq<char>,
    size: u32,
    count: Option<u32>,
    tag: Seq<char>,
) -> Seq<char> {
    plc_path + "&elem_size="@ + decimal(size as nat) + (match count {
        Some(c) => "&elem_count="@ + decimal(c as nat),
        None => Seq::empty(),
    }) + "&name="@ + tag
}

/// Writes the path of a device.
pub fn plc_path(host: &str, port: u16, path: &str, cpu: &str) -> (r: String)
    ensures
        r@ == plc_path_spec(host@, port, path@, cpu@),
{
    let mut s = String::new();
    push_text(&mut s, "protocol=ab_eip&gateway=");
    push_text(&mut s, host);
    push_text(&mut s, ":");
    push_decimal(&mut s, port as u64);
    push_text(&mut s, "&path=");
    push_text(&mut s, path);
    push_text(&mut s, "&cpu=");
    push_text(&mut s, cpu);
    s
}

/// Writes the path of a tag on the device `plc_path`.
pub fn tag_path(plc_path: &str, size: u32, count: Option<u32>, tag: &str) -> (r: String)
    ensures
        r@ == tag_path_spec(plc_path@, size, count, tag@),
{
    let mut s = String::new();
    push_text(&mut s, plc_path);
    push_text(&mut s, "&elem_size=");
    push_decimal(&mut s, size as u64);
    match count {
        Some(c) => {
            push_text(&mut s, "&elem_count=");
            push_decimal(&mut s, c as u64);
        },
        None => {},
    }
    push_text(&mut s, "&name=");
    push_text(&mut s, tag);
    s
}

/// Why a datum of a tag is not well described.
#[derive(PartialEq, Eq, Clone, Copy, Debug, Structural)]
pub enum EnIpProcessError {
    Offset(OffsetError),
    /// The type is no data type.
    DataType,
    /// The type is a bit, and the offset names none.
    TypeNotSpecified,
    /// The bits before the byte do not fit the offset.
    TooFar,
}

/// What to read from a tag, and what to make of it. The offset counts
/// bytes; for a bit it counts the bits before the byte of the bit.
pub struct EnIpDataProcessInfo {
    pub offset: DataOffset,
    pub tp: GenDataType,
    pub set_id: String,
    pub transform: EventTransformList,
}

/// The offset and the type of a datum described by the texts `offset` and
/// `tp`. An offset that names a bit makes the datum a bit, and counts eight
/// bits for each byte; without one, the type has to say what the datum is.
pub open spec fn enip_process_of(offset: Seq<char>, tp: Seq<char>) -> Result<
    (DataOffset, GenDataType),
    EnIpProcessError,
> {
    match data_offset_of(offset, 0) {
        Err(e) => Err(EnIpProcessError::Offset(e)),
        Ok(o) => if o.bit is Some {
            if o.offset * 8 > usize::MAX {
                Err(EnIpProcessError::TooFar)
            } else {
                Ok((DataOffset { offset: (o.offset * 8) as usize, bit: o.bit }, GenDataType::Bit))
            }
        } else {
            match data_type_of(lowercase(tp)) {
                Err(_) => Err(EnIpProcessError::DataType),
                Ok(t) => if t == GenDataType::Bit {
                    Err(EnIpProcessError::TypeNotSpecified)
                } else {
                    Ok((o, t))
                },
            }
        },
    }
}

impl EnIpDataProcessInfo {
    /// Reads the description of a datum of a tag.
    pub fn new(offset: &String, tp: &String, set_id: String, transform: EventTransformList) -> (r:
        Result<Self, EnIpProcessError>)
        ensures
            match enip_process_of(offset@, tp@) {
                Ok((o, t)) => r matches Ok(d) && d.offset == o && d.tp == t && d.set_id == set_id
                    && d.transform == transform,
                Err(e) => r matches Err(f) && f == e,
            },
    {
        match offset.parse_data_offset(0) {
            Err(e) => Err(EnIpProcessError::Offset(e)),
            Ok(o) => {
                if o.bit.is_some() {
                    if o.offset > usize::MAX / 8 {
                        Err(EnIpProcessError::TooFar)
                    } else {
                        Ok(
                            EnIpDataProcessInfo {
                                offset: DataOffset { offset: o.offset * 8, bit: o.bit },
                                tp: GenDataType::Bit,
                                set_id,
                                transform,
                            },
                        )
                    }
                } else {
                    match tp.parse_data_type() {
                        Err(_) => Err(EnIpProcessError::DataType),
                        Ok(t) => {
                            if t == GenDataType::Bit {
                                Err(EnIpProcessError::TypeNotSpecified)
                            } else {
                                Ok(EnIpDataProcessInfo { offset: o, tp: t, set_id, transform })
                            }
                        },
                    }
                }
            },
        }
    }
}

/// A datum of a tag as the configuration describes it.
pub struct EnIpProcessConfig {
    pub offset: String,
    pub tp: String,
    pub set_id: String,
    pub transform: EventTransformList,
}

/// A pull as the configuration describes it: the tag, the size of an
/// element, the number of elements where it is said, and the data.
pub struct EnIpPullConfig {
    pub tag: String,
    pub size: u32,
    pub count: Option<u32>,
    pub process: Vec<EnIpProcessConfig>,
}

/// The tag of a pull: its path, and the hash under which the tag is kept
/// once it is made.
pub struct EnIpPullData {
    pub path: String,
    pub path_hash: u64,
}

/// The offsets and types of the data that `process` describes, in their
/// order; the fault of the first datum that is not well described, if there
/// is one.
pub open spec fn enip_processes_of(process: Seq<EnIpProcessConfig>) -> Result<
    Seq<(DataOffset, GenDataType)>,
    EnIpProcessError,
>
    decreases process.len(),
{
    if process.len() == 0 {
        Ok(Seq::empty())
    } else {
        match enip_process_of(process[0].offset@, process[0].tp@) {
            Err(e) => Err(e),
            Ok(first) => match enip_processes_of(process.skip(1)) {
                Err(e) => Err(e),
                Ok(rest) => Ok(seq![first] + rest),
            },
        }
    }
}

/// Whether `infos` are the data that `process` describes, with the offsets
/// and types `items`.
pub open spec fn enip_infos_are(
    infos: Seq<EnIpDataProcessInfo>,
    process: Seq<EnIpProcessConfig>,
    items: Seq<(DataOffset, GenDataType)>,
) -> bool {
    &&& infos.len() == process.len()
    &&& infos.len() == items.len()
    &&& forall|i: int|
        0 <= i < infos.len() ==> (#[trigger] infos[i]).offset == items[i].0 && infos[i].tp
            == items[i].1 && infos[i].set_id == process[i].set_id && infos[i].transform
            == process[i].transform
}

/// Makes of the description of a pull the tag that is read on the device
/// `plc_path` and what is made of what is read.
pub fn prepare_pull(plc_path: &str, p: EnIpPullConfig) -> (r: Result<
    (EnIpPullData, Vec<EnIpDataProcessInfo>),
    EnIpProcessError,
>)
    ensures
        match enip_processes_of(p.process@) {
            Ok(items) => r matches Ok((pull, infos)) && pull.path@ == tag_path_spec(
                plc_path@,
                p.size,
                p.count,
                p.tag@,
            ) && pull.path_hash == stable_hash(pull.path@) && enip_infos_are(
                infos@,
                p.process@,
                items,
            ),
            Err(e) => r matches Err(f) && f == e,
        },
{
    let ghost process = p.process@;
    let ghost mut items: Seq<(DataOffset, GenDataType)> = Seq::empty();
    let mut infos: Vec<EnIpDataProcessInfo> = Vec::new();
    assert(process.skip(0) == process);
    for prc in it: p.process
        invariant
            it.seq() == process,
            process == p.process@,
            enip_infos_are(infos@, process.take(it.index()), items),
            enip_processes_of(process) == match enip_processes_of(process.skip(it.index())) {
                Ok(rest) => Ok(items + rest),
                Err(e) => Err(e),
            },
    {
        let ghost i = it.index();
        assert(process.skip(i).skip(1) == process.skip(i + 1));
        match EnIpDataProcessInfo::new(&prc.offset, &prc.tp, prc.set_id, prc.transform) {
            Err(e) => {
                return Err(e);
            },
            Ok(d) => {
                proof {
                    let item = (d.offset, d.tp);
                    let rest = enip_processes_of(process.skip(i + 1));
                    if rest is Ok {
                        assert(items + (seq![item] + rest->Ok_0) == items.push(item)
                            + rest->Ok_0);
                    }
                    items = items.push(item);
                }
                infos.push(d);
            },
        }
    }
    let path = tag_path(plc_path, p.size, p.count, p.tag.as_str());
    let path_hash = calculate_hash(&path);
    Ok((EnIpPullData { path, path_hash }, infos))
}

/// Why a datum cannot be read from a tag.
#[derive(PartialEq, Eq, Clone, Copy, Debug, Structural)]
pub enum EnIpError {
    /// A bit is asked for, and the offset names none.
    MissingBit,
    /// The place of the datum does not fit the 31 bits of an offset.
    Offset,
    /// The library of the device answered with this code.
    Code(i32),
}

/// The place in a tag at which the datum `offset` of type `tp` is read: the
/// byte of a number, or the bit counted from the beginning of the tag.
pub open spec fn read_offset_of(offset: DataOffset, tp: GenDataType) -> Result<i32, EnIpError> {
    if tp == GenDataType::Bit {
        match offset.bit {
            None => Err(EnIpError::MissingBit),
            Some(b) => if offset.offset + b > i32::MAX {
                Err(EnIpError::Offset)
            } else {
                Ok((offset.offset + b) as i32)
            },
        }
    } else if offset.offset > i32::MAX {
        Err(EnIpError::Offset)
    } else {
        Ok(offset.offset as i32)
    }
}

/// Decides the place in a tag at which a datum is read.
pub fn read_offset(offset: &DataOffset, tp: GenDataType) -> (r: Result<i32, EnIpError>)
    ensures
        r == read_offset_of(*offset, tp),
{
    if tp == GenDataType::Bit {
        match offset.bit {
            None => Err(EnIpError::MissingBit),
            Some(b) => {
                if offset.offset > 0x7fff_ffff || offset.offset + (b as usize) > 0x7fff_ffff {
                    Err(EnIpError::Offset)
                } else {
                    Ok((offset.offset + (b as usize)) as i32)
                }
            },
        }
    } else if offset.offset > 0x7fff_ffff {
        Err(EnIpError::Offset)
    } else {
        Ok(offset.offset as i32)
    }
}

/// The status with which the library of the device says that all is well.
pub const PLCTAG_STATUS_OK: i32 = 0;

/// The status with which it says that it is still at work.
pub const PLCTAG_STATUS_PENDING: i32 = 1;

/// The pause between two looks at the status of a tag, in nanoseconds.
pub const PLC_SLEEP_STEP: u32 = 10_000_000;

/// What to do about a tag that is being made.
#[derive(PartialEq, Eq, Clone, Copy, Debug, Structural)]
pub enum TagStep {
    /// The tag is there.
    Ready,
    /// The tag is not there yet: look again after a pause.
    Wait,
    /// The tag is not there, and the time for making it is over.
    TimedOut,
    /// The tag cannot be made: the library says why.
    Failed(i32),
}

/// What to do about a tag whose status is `status` at `now`, when it has to
/// be there by `deadline`.
pub fn tag_step(status: i32, now: u64, deadline: u64) -> (r: TagStep)
    ensures
        r == if status == PLCTAG_STATUS_PENDING {
            if now > deadline {
                TagStep::TimedOut
            } else {
                TagStep::Wait
            }
        } else if status != PLCTAG_STATUS_OK {
            TagStep::Failed(status)
        } else {
            TagStep::Ready
        },
{
    if status == PLCTAG_STATUS_PENDING {
        if now > deadline {
            TagStep::TimedOut
        } else {
            TagStep::Wait
        }
    } else if status != PLCTAG_STATUS_OK {
        TagStep::Failed(status)
    } else {
        TagStep::Ready
    }
}

/// The bit that the library of the device has read: what it returned,
/// unless that is below zero and stands for a fault.
pub fn safe_get_bit(result: i32) -> (r: Result<u8, EnIpError>)
    ensures
        r == if result < 0 {
            Err::<u8, _>(EnIpError::Code(result))
        } else {
            Ok((result % 256) as u8)
        },
{
    if result < 0 {
        Err(EnIpError::Code(result))
    } else {
        Ok((result % 256) as u8)
    }
}

} // verus!
