//! Modbus: what a pull asks for, the frames that go to the device and come
//! back, and the data in the words that were read.

use crate::datatypes::{
    data_offset_of, data_type_of, parse_sum, safe_u32_of, DataOffset, EventTransformList,
    GenDataType, GenDataTypeParse, OffsetError, ParseData,
};
use crate::text::{chars_of, lowercase, text_eq};
use crate::tools::GetBit;
use crate::transform::Value;
use rmodbus::client::ModbusRequest;
use rmodbus::consts::ModbusFunction;
use rmodbus::ModbusProto;
use vstd::prelude::*;

verus! {

/// The error of the `rmodbus` crate. Nothing is known of it here but that
/// there is one.
#[verifier::external_type_specification]
#[verifier::external_body]
pub struct ExErrorKind(rmodbus::ErrorKind);

/// The port of a device that names none.
pub const DEFAULT_MODBUS_PORT: u16 = 502;

/// The unit where none is named: zero, which stands for none.
pub fn get_default_unit() -> (r: u8)
    ensures
        r == 0,
{
    0
}

/// The data type of a datum where its description names none.
pub fn get_default_type() -> (r: String)
    ensures
        r@ == "word"@,
{
    "word".to_owned()
}

/// How the frames travel.
#[derive(PartialEq, Eq, Clone, Copy, Debug, Structural)]
pub enum ModbusTransport {
    Tcp,
    Udp,
}

/// The way of travel that a protocol name stands for.
pub open spec fn transport_of(name: Seq<char>) -> Option<ModbusTransport> {
    if name == "modbus/tcp"@ {
        Some(ModbusTransport::Tcp)
    } else if name == "modbus/udp"@ {
        Some(ModbusTransport::Udp)
    } else {
        None
    }
}

/// Reads the way of travel from the name of the protocol.
pub fn transport(name: &str) -> (r: Option<ModbusTransport>)
    ensures
        r == transport_of(name@),
{
    if text_eq(name, "modbus/tcp") {
        Some(ModbusTransport::Tcp)
    } else if text_eq(name, "modbus/udp") {
        Some(ModbusTransport::Udp)
    } else {
        None
    }
}

/// The kind of register that a pull reads.
#[derive(PartialEq, Eq, Clone, Copy, Debug, Structural)]
pub enum ModbusRegisterType {
    Holding,
    Input,
    Coil,
    Discrete,
}

impl ModbusRegisterType {
    /// The function code of the request that reads registers of this kind.
    pub open spec fn code_spec(self) -> u8 {
        match self {
            ModbusRegisterType::Coil => 1,
            ModbusRegisterType::Discrete => 2,
            ModbusRegisterType::Holding => 3,
            ModbusRegisterType::Input => 4,
        }
    }

    /// The function code of the request that reads registers of this kind.
    pub fn code(&self) -> (r: u8)
        ensures
            r == self.code_spec(),
    {
        match self {
            ModbusRegisterType::Coil => 1,
            ModbusRegisterType::Discrete => 2,
            ModbusRegisterType::Holding => 3,
            ModbusRegisterType::Input => 4,
        }
    }

    /// Whether registers of this kind hold one bit each.
    pub open spec fn is_bits(self) -> bool {
        self == ModbusRegisterType::Coil || self == ModbusRegisterType::Discrete
    }
}

/// Why a text names no register.
#[derive(PartialEq, Eq, Clone, Copy, Debug, Structural)]
pub enum RegisterError {
    /// The text is empty.
    Empty,
    /// What follows the first letter is no address.
    Address,
    /// The first letter is none of `h`, `i`, `d`, `c`.
    Kind,
}

/// The register that `s` names: a letter for the kind (`h` holding, `i`
/// input, `d` discrete, `c` coil), then the address as a sum.
pub open spec fn register_of(s: Seq<char>) -> Result<(ModbusRegisterType, u32), RegisterError> {
    if s.len() == 0 {
        Err(RegisterError::Empty)
    } else {
        match safe_u32_of(s.skip(1)) {
            Err(_) => Err(RegisterError::Address),
            Ok(addr) => if s[0] == 'h' {
                Ok((ModbusRegisterType::Holding, addr))
            } else if s[0] == 'i' {
                Ok((ModbusRegisterType::Input, addr))
            } else if s[0] == 'd' {
                Ok((ModbusRegisterType::Discrete, addr))
            } else if s[0] == 'c' {
                Ok((ModbusRegisterType::Coil, addr))
            } else {
                Err(RegisterError::Kind)
            },
        }
    }
}

/// Reads the kind and the address of the first register of a pull.
pub fn parse_register(reg: &String) -> (r: Result<(ModbusRegisterType, u32), RegisterError>)
    ensures
        r == register_of(reg@),
{
    let v = chars_of(reg.as_str());
    if v.len() == 0 {
        return Err(RegisterError::Empty);
    }
    match parse_sum(&v, 1, v.len()) {
        Err(_) => Err(RegisterError::Address),
        Ok(addr) => {
            let tp = v[0];
            if tp == 'h' {
                Ok((ModbusRegisterType::Holding, addr))
            } else if tp == 'i' {
                Ok((ModbusRegisterType::Input, addr))
            } else if tp == 'd' {
                Ok((ModbusRegisterType::Discrete, addr))
            } else if tp == 'c' {
                Ok((ModbusRegisterType::Coil, addr))
            } else {
                Err(RegisterError::Kind)
            }
        },
    }
}

/// The unit that a pull addresses: its own, or the one of the device where
/// it names none. Zero names none.
pub fn resolve_unit(pull_unit: u8, default_unit: u8) -> (r: Option<u8>)
    ensures
        r == if pull_unit != 0 {
            Some(pull_unit)
        } else if default_unit != 0 {
            Some(default_unit)
        } else {
            None
        },
{
    if pull_unit != 0 {
        Some(pull_unit)
    } else if default_unit != 0 {
        Some(default_unit)
    } else {
        None
    }
}

/// What a pull asks of the device.
#[derive(PartialEq, Eq, Clone, Copy, Debug, Structural)]
pub struct ModbusPullData {
    pub tp: ModbusRegisterType,
    pub addr: u16,
    pub count: u16,
    pub unit: u8,
}

impl ModbusPullData {
    /// The pull of `count` registers from `addr` on. Of the address the
    /// lower 16 bits count.
    pub fn new(tp: ModbusRegisterType, addr: u32, count: u16, unit: u8) -> (r: Self)
        ensures
            r == (ModbusPullData { tp, addr: (addr % 0x1_0000) as u16, count, unit }),
    {
        ModbusPullData { tp, addr: (addr % 0x1_0000) as u16, count, unit }
    }
}

/// Why a datum of a pull is not well described.
#[derive(PartialEq, Eq, Clone, Copy, Debug, Structural)]
pub enum ProcessError {
    Offset(OffsetError),
    DataType,
}

/// What to read from the words of a pull, and what to make of it.
pub struct ModbusDataProcessInfo {
    pub offset: DataOffset,
    pub tp: GenDataType,
    pub set_id: String,
    pub transform: EventTransformList,
}

/// The offset and the type of a datum described by the texts `offset` and
/// `tp` in a pull that begins at `addr`. An offset that names a bit makes
/// the datum a bit, whatever the type says.
pub open spec fn process_of(offset: Seq<char>, tp: Seq<char>, addr: u32) -> Result<
    (DataOffset, GenDataType),
    ProcessError,
> {
    match data_offset_of(offset, addr) {
        Err(e) => Err(ProcessError::Offset(e)),
        Ok(o) => if o.bit is Some {
            Ok((o, GenDataType::Bit))
        } else {
            match data_type_of(lowercase(tp)) {
                Ok(t) => Ok((o, t)),
                Err(_) => Err(ProcessError::DataType),
            }
        },
    }
}

impl ModbusDataProcessInfo {
    /// Reads the description of a datum of a pull that begins at `addr`.
    pub fn new(
        offset: &String,
        tp: &String,
        set_id: String,
        transform: EventTransformList,
        addr: u32,
    ) -> (r: Result<Self, ProcessError>)
        ensures
            match process_of(offset@, tp@, addr) {
                Ok((o, t)) => r matches Ok(d) && d.offset == o && d.tp == t && d.set_id == set_id
                    && d.transform == transform,
                Err(e) => r matches Err(f) && f == e,
            },
    {
        match offset.parse_data_offset(addr) {
            Err(e) => Err(ProcessError::Offset(e)),
            Ok(o) => {
                if o.bit.is_some() {
                    Ok(ModbusDataProcessInfo { offset: o, tp: GenDataType::Bit, set_id, transform })
                } else {
                    match tp.parse_data_type() {
                        Ok(t) => Ok(ModbusDataProcessInfo { offset: o, tp: t, set_id, transform }),
                        Err(_) => Err(ProcessError::DataType),
                    }
                }
            },
        }
    }
}

/// A datum of a pull as the configuration describes it.
pub struct ModbusProcessConfig {
    pub offset: String,
    pub tp: String,
    pub set_id: String,
    pub transform: EventTransformList,
}

/// A pull as the configuration describes it.
pub struct ModbusPullConfig {
    pub reg: String,
    pub count: u16,
    pub unit: u8,
    pub process: Vec<ModbusProcessConfig>,
}

/// Why a pull is not well described.
#[derive(PartialEq, Eq, Clone, Copy, Debug, Structural)]
pub enum ModbusConfigError {
    Register(RegisterError),
    Process(ProcessError),
    /// Neither the pull nor the device names a unit.
    Unit,
}

/// The offsets and types of the data that `process` describes in a pull
/// that begins at `addr`, in their order; the fault of the first datum that
/// is not well described, if there is one.
pub open spec fn processes_of(process: Seq<ModbusProcessConfig>, addr: u32) -> Result<
    Seq<(DataOffset, GenDataType)>,
    ProcessError,
>
    decreases process.len(),
{
    if process.len() == 0 {
        Ok(Seq::empty())
    } else {
        match process_of(process[0].offset@, process[0].tp@, addr) {
            Err(e) => Err(e),
            Ok(first) => match processes_of(process.skip(1), addr) {
                Err(e) => Err(e),
                Ok(rest) => Ok(seq![first] + rest),
            },
        }
    }
}

/// Whether `infos` are the data that `process` describes, with the offsets
/// and types `items`.
pub open spec fn infos_are(
    infos: Seq<ModbusDataProcessInfo>,
    process: Seq<ModbusProcessConfig>,
    items: Seq<(DataOffset, GenDataType)>,
) -> bool {
    &&& infos.len() == process.len()
    &&& infos.len() == items.len()
    &&& forall|i: int|
        0 <= i < infos.len() ==> (#[trigger] infos[i]).offset == items[i].0 && infos[i].tp
            == items[i].1 && infos[i].set_id == process[i].set_id && infos[i].transform
            == process[i].transform
}

/// What the pull `p` asks of a device whose unit is `default_unit`: its
/// register must be well described, then each datum, then the unit.
pub open spec fn pull_of(p: ModbusPullConfig, default_unit: u8) -> Result<
    (ModbusPullData, Seq<(DataOffset, GenDataType)>),
    ModbusConfigError,
> {
    match register_of(p.reg@) {
        Err(e) => Err(ModbusConfigError::Register(e)),
        Ok((tp, addr)) => match processes_of(p.process@, addr) {
            Err(e) => Err(ModbusConfigError::Process(e)),
            Ok(items) => if p.unit == 0 && default_unit == 0 {
                Err(ModbusConfigError::Unit)
            } else {
                Ok(
                    (
                        ModbusPullData {
                            tp,
                            addr: (addr % 0x1_0000) as u16,
                            count: p.count,
                            unit: if p.unit != 0 {
                                p.unit
                            } else {
                                default_unit
                            },
                        },
                        items,
                    ),
                )
            },
        },
    }
}

/// Makes of the description of a pull what is asked of the device and
/// what is made of its answer.
pub fn prepare_pull(p: ModbusPullConfig, default_unit: u8) -> (r: Result<
    (ModbusPullData, Vec<ModbusDataProcessInfo>),
    ModbusConfigError,
>)
    ensures
        match pull_of(p, default_unit) {
            Ok((pull, items)) => r matches Ok((made, infos)) && made == pull && infos_are(
                infos@,
                p.process@,
                items,
            ),
            Err(e) => r matches Err(f) && f == e,
        },
{
    let (tp, addr) = match parse_register(&p.reg) {
        Ok(r) => r,
        Err(e) => {
            return Err(ModbusConfigError::Register(e));
        },
    };
    let ghost process = p.process@;
    let ghost mut items: Seq<(DataOffset, GenDataType)> = Seq::empty();
    let mut infos: Vec<ModbusDataProcessInfo> = Vec::new();
    assert(process.skip(0) == process);
    for prc in it: p.process
        invariant
            it.seq() == process,
            process == p.process@,
            register_of(p.reg@) == Ok::<_, RegisterError>((tp, addr)),
            infos_are(infos@, process.take(it.index()), items),
            processes_of(process, addr) == match processes_of(process.skip(it.index()), addr) {
                Ok(rest) => Ok(items + rest),
                Err(e) => Err(e),
            },
    {
        let ghost i = it.index();
        assert(process.skip(i).skip(1) == process.skip(i + 1));
        match ModbusDataProcessInfo::new(&prc.offset, &prc.tp, prc.set_id, prc.transform, addr) {
            Err(e) => {
                return Err(ModbusConfigError::Process(e));
            },
            Ok(d) => {
                proof {
                    let item = (d.offset, d.tp);
                    let rest = processes_of(process.skip(i + 1), addr);
                    if rest is Ok {
                        assert(items + (seq![item] + rest->Ok_0) == items.push(item)
                            + rest->Ok_0);
                    }
                    items = items.push(item);
                }
                infos.push(d);
            },
        }
    }
    match resolve_unit(p.unit, default_unit) {
        None => Err(ModbusConfigError::Unit),
        Some(unit) => Ok((ModbusPullData::new(tp, addr, p.count, unit), infos)),
    }
}

/// What went wrong between a request and the data of its response.
#[derive(Clone, Copy, Debug, PartialEq, Eq)]
pub enum ModbusError {
    /// The codec refused the request or the response.
    Protocol(rmodbus::ErrorKind),
    /// Fewer than six bytes of a response header.
    Header,
    /// A response header that announces more than a frame can hold.
    Length,
    /// A response without data.
    Empty,
}

/// The transaction number that follows `tr_id`: one more, and zero after
/// the largest.
pub fn next_tr_id(tr_id: u16) -> (r: u16)
    ensures
        r == if tr_id == u16::MAX {
            0
        } else {
            (tr_id + 1) as u16
        },
{
    if tr_id == u16::MAX {
        0
    } else {
        tr_id + 1
    }
}

/// The frame that asks unit `unit_id` for `count` registers from `reg` on
/// with function `func`, as transaction `tr_id` over TCP or UDP: the
/// transaction, the protocol 0, the length 6 of what follows, the unit, the
/// function, the register and the count, each number with its upper byte
/// first.
pub open spec fn request_frame(func: u8, unit_id: u8, tr_id: u16, reg: u16, count: u16) -> Seq<u8> {
    seq![
        (tr_id / 256) as u8,
        (tr_id % 256) as u8,
        0u8,
        0u8,
        0u8,
        6u8,
        unit_id,
        func,
        (reg / 256) as u8,
        (reg % 256) as u8,
        (count / 256) as u8,
        (count % 256) as u8,
    ]
}

/// `ModbusRequest::generate_get_coils` on a request made by
/// `ModbusRequest::new_tcp_udp`, writing into a vector, which takes every
/// byte: it succeeds, and the frame is as `request_frame` says, with
/// function 1.
#[verifier::external_body]
fn generate_get_coils(unit_id: u8, tr_id: u16, reg: u16, count: u16) -> (r: Result<
    Vec<u8>,
    rmodbus::ErrorKind,
>)
    ensures
        r is Ok,
        r matches Ok(request) ==> request@ == request_frame(1, unit_id, tr_id, reg, count),
{
    let mut request = Vec::new();
    ModbusRequest::new_tcp_udp(unit_id, tr_id).generate_get_coils(reg, count, &mut request)?;
    Ok(request)
}

/// `ModbusRequest::generate_get_discretes`: as for coils, with function 2.
#[verifier::external_body]
fn generate_get_discretes(unit_id: u8, tr_id: u16, reg: u16, count: u16) -> (r: Result<
    Vec<u8>,
    rmodbus::ErrorKind,
>)
    ensures
        r is Ok,
        r matches Ok(request) ==> request@ == request_frame(2, unit_id, tr_id, reg, count),
{
    let mut request = Vec::new();
    ModbusRequest::new_tcp_udp(unit_id, tr_id).generate_get_discretes(reg, count, &mut request)?;
    Ok(request)
}

/// `ModbusRequest::generate_get_holdings`: as for coils, with function 3.
#[verifier::external_body]
fn generate_get_holdings(unit_id: u8, tr_id: u16, reg: u16, count: u16) -> (r: Result<
    Vec<u8>,
    rmodbus::ErrorKind,
>)
    ensures
        r is Ok,
        r matches Ok(request) ==> request@ == request_frame(3, unit_id, tr_id, reg, count),
{
    let mut request = Vec::new();
    ModbusRequest::new_tcp_udp(unit_id, tr_id).generate_get_holdings(reg, count, &mut request)?;
    Ok(request)
}

/// `ModbusRequest::generate_get_inputs`: as for coils, with function 4.
#[verifier::external_body]
fn generate_get_inputs(unit_id: u8, tr_id: u16, reg: u16, count: u16) -> (r: Result<
    Vec<u8>,
    rmodbus::ErrorKind,
>)
    ensures
        r is Ok,
        r matches Ok(request) ==> request@ == request_frame(4, unit_id, tr_id, reg, count),
{
    let mut request = Vec::new();
    ModbusRequest::new_tcp_udp(unit_id, tr_id).generate_get_inputs(reg, count, &mut request)?;
    Ok(request)
}

/// The request of the pull `p` as transaction `tr_id`.
pub fn build_request(p: &ModbusPullData, tr_id: u16) -> (r: Result<Vec<u8>, ModbusError>)
    ensures
        r matches Ok(request) && request@ == request_frame(
            p.tp.code_spec(),
            p.unit,
            tr_id,
            p.addr,
            p.count,
        ),
{
    let made = match p.tp {
        ModbusRegisterType::Coil => generate_get_coils(p.unit, tr_id, p.addr, p.count),
        ModbusRegisterType::Discrete => generate_get_discretes(p.unit, tr_id, p.addr, p.count),
        ModbusRegisterType::Holding => generate_get_holdings(p.unit, tr_id, p.addr, p.count),
        ModbusRegisterType::Input => generate_get_inputs(p.unit, tr_id, p.addr, p.count),
    };
    match made {
        Ok(request) => Ok(request),
        Err(e) => Err(ModbusError::Protocol(e)),
    }
}

/// The length that the first six bytes of a response announce for the whole
/// frame: the number in the fifth and sixth byte, and the six bytes before
/// what it counts.
pub open spec fn announced_len(header: Seq<u8>) -> int {
    header[4] * 256 + header[5] + 6
}

/// `rmodbus::guess_response_frame_len` for TCP and UDP. It wants six bytes
/// and an announced length that fits 16 bits. It accepts protocol 0 and a
/// length of at most 255, which it returns.
#[verifier::external_body]
fn guess_response_frame_len(header: &Vec<u8>) -> (r: Result<u8, rmodbus::ErrorKind>)
    requires
        header@.len() >= 6,
        announced_len(header@) <= 0xffff,
    ensures
        r is Ok <==> (header@[2] == 0 && header@[3] == 0 && announced_len(header@) <= 255),
        r matches Ok(n) ==> n == announced_len(header@),
{
    rmodbus::guess_response_frame_len(header.as_slice(), ModbusProto::TcpUdp)
}

/// How many bytes of a response follow its first six, `header`.
pub fn frame_rest(header: &Vec<u8>) -> (r: Result<usize, ModbusError>)
    ensures
        header@.len() < 6 ==> (r matches Err(e) && e is Header),
        header@.len() >= 6 ==> {
            &&& r is Ok <==> (header@[2] == 0 && header@[3] == 0 && announced_len(header@) <= 255)
            &&& r matches Ok(n) ==> n == announced_len(header@) - 6
            &&& r matches Err(e) ==> if announced_len(header@) > 0xffff {
                e is Length
            } else {
                e is Protocol
            }
        },
{
    if header.len() < 6 {
        return Err(ModbusError::Header);
    }
    let counted: u32 = (header[4] as u32) * 256 + (header[5] as u32);
    if counted > 0xffff - 6 {
        return Err(ModbusError::Length);
    }
    match guess_response_frame_len(header) {
        Ok(n) => Ok((n - 6) as usize),
        Err(e) => Err(ModbusError::Protocol(e)),
    }
}

/// Whether `response` answers the request of unit `unit_id` with function
/// `func` and transaction `tr_id`: nine bytes or more, of which the first
/// two are the transaction, the next two the protocol 0, the seventh the
/// unit, the eighth the function, and the ninth a number of bytes that is
/// at least half of what follows it.
pub open spec fn response_accepted(func: u8, unit_id: u8, tr_id: u16, response: Seq<u8>) -> bool {
    &&& response.len() >= 9
    &&& response[0] * 256 + response[1] == tr_id
    &&& response[2] == 0 && response[3] == 0
    &&& response[6] == unit_id
    &&& response[7] == func
    &&& response[8] * 2 >= response.len() - 9
}

/// The words in an accepted response to a request for `count` registers:
/// the pairs of bytes from the tenth byte on, upper byte first, but no more
/// than `count` of them.
pub open spec fn response_words(count: u16, response: Seq<u8>) -> Seq<u16> {
    let pairs = (response.len() - 9) / 2;
    Seq::new(
        (if count <= pairs {
            count as int
        } else {
            pairs
        }) as nat,
        |i: int| (response[9 + 2 * i] * 256 + response[9 + 2 * i + 1]) as u16,
    )
}

/// The bits in an accepted response to a request for `count` bits: those of
/// the bytes from the tenth byte on, the lowest bit of each byte first, but
/// no more than `count` of them.
pub open spec fn response_bits(count: u16, response: Seq<u8>) -> Seq<bool> {
    let bits = (response.len() - 9) * 8;
    Seq::new(
        (if count <= bits {
            count as int
        } else {
            bits
        }) as nat,
        |i: int| ((response[9 + i / 8] >> ((i % 8) as u8)) & 1u8) == 1u8,
    )
}

/// `ModbusRequest::parse_u16` on a request made by `new_tcp_udp` for
/// `count` registers with function `func`, which is 3 or 4. It does not
/// take an accepted response of nine bytes. It succeeds on the responses
/// that `response_accepted` describes, with the words of `response_words`.
#[verifier::external_body]
fn parse_u16(func: u8, unit_id: u8, tr_id: u16, count: u16, response: &Vec<u8>) -> (r: Result<
    Vec<u16>,
    rmodbus::ErrorKind,
>)
    requires
        func == 3 || func == 4,
        response@.len() != 9,
    ensures
        r is Ok <==> response_accepted(func, unit_id, tr_id, response@),
        r matches Ok(words) ==> words@ == response_words(count, response@),
{
    let mut request = ModbusRequest::new_tcp_udp(unit_id, tr_id);
    request.func = ModbusFunction::try_from(func)?;
    request.count = count;
    let mut words = Vec::new();
    request.parse_u16(response.as_slice(), &mut words)?;
    Ok(words)
}

/// `ModbusRequest::parse_bool` on a request made by `new_tcp_udp` for
/// `count` bits with function `func`, which is 1 or 2. It succeeds on the
/// responses that `response_accepted` describes, with the bits of
/// `response_bits`.
#[verifier::external_body]
fn parse_bool(func: u8, unit_id: u8, tr_id: u16, count: u16, response: &Vec<u8>) -> (r: Result<
    Vec<bool>,
    rmodbus::ErrorKind,
>)
    requires
        func == 1 || func == 2,
    ensures
        r is Ok <==> response_accepted(func, unit_id, tr_id, response@),
        r matches Ok(bits) ==> bits@ == response_bits(count, response@),
{
    let mut request = ModbusRequest::new_tcp_udp(unit_id, tr_id);
    request.func = ModbusFunction::try_from(func)?;
    request.count = count;
    let mut bits = Vec::new();
    request.parse_bool(response.as_slice(), &mut bits)?;
    Ok(bits)
}

/// Each bit as a word: 1 for a bit that is set, 0 for one that is not.
pub open spec fn bits_as_words(bits: Seq<bool>) -> Seq<u16> {
    Seq::new(
        bits.len(),
        |i: int|
            if bits[i] {
                1u16
            } else {
                0u16
            },
    )
}

/// Turns the bits of coils or discrete inputs into words, so that they are
/// read like registers.
pub fn parse_bool_as_u16(bits: &Vec<bool>) -> (r: Vec<u16>)
    ensures
        r@ == bits_as_words(bits@),
{
    let mut result: Vec<u16> = Vec::new();
    let mut i: usize = 0;
    while i < bits.len()
        invariant
            i <= bits.len(),
            result@ == bits_as_words(bits@.take(i as int)),
        decreases bits.len() - i,
    {
        result.push(
            if bits[i] {
                1
            } else {
                0
            },
        );
        i = i + 1;
    }
    result
}

/// The words that `response` holds for the pull `p`, asked as transaction
/// `tr_id`.
pub open spec fn pull_words(p: ModbusPullData, response: Seq<u8>) -> Seq<u16> {
    if p.tp.is_bits() {
        bits_as_words(response_bits(p.count, response))
    } else {
        response_words(p.count, response)
    }
}

/// Reads the data of the pull `p` from the response to its request.
pub fn parse_response(p: &ModbusPullData, tr_id: u16, response: &Vec<u8>) -> (r: Result<
    Vec<u16>,
    ModbusError,
>)
    ensures
        r is Ok <==> (response_accepted(p.tp.code_spec(), p.unit, tr_id, response@) && (
        p.tp.is_bits() || response@.len() != 9)),
        r matches Ok(words) ==> words@ == pull_words(*p, response@),
        r matches Err(e) ==> if response_accepted(p.tp.code_spec(), p.unit, tr_id, response@) {
            e is Empty
        } else {
            e is Protocol || e is Empty
        },
{
    match p.tp {
        ModbusRegisterType::Coil | ModbusRegisterType::Discrete => {
            match parse_bool(p.tp.code(), p.unit, tr_id, p.count, response) {
                Ok(bits) => Ok(parse_bool_as_u16(&bits)),
                Err(e) => Err(ModbusError::Protocol(e)),
            }
        },
        ModbusRegisterType::Holding | ModbusRegisterType::Input => {
            if response.len() == 9 {
                return Err(ModbusError::Empty);
            }
            match parse_u16(p.tp.code(), p.unit, tr_id, p.count, response) {
                Ok(words) => Ok(words),
                Err(e) => Err(ModbusError::Protocol(e)),
            }
        },
    }
}

/// Why the words of a pull do not hold a datum.
#[derive(PartialEq, Eq, Clone, Copy, Debug, Structural)]
pub enum DecodeError {
    /// The data type cannot be read from words.
    Unsupported,
    /// The datum lies beyond the words that were read.
    OutOfBounds,
    /// A bit is asked for, and the offset names none.
    MissingBit,
    /// A word has no bit of that number.
    BitRange,
}

impl DecodeError {
    /// What is said of the fault.
    pub open spec fn message(self) -> Seq<char> {
        match self {
            DecodeError::Unsupported => "data type unimplemented"@,
            DecodeError::OutOfBounds => "data out of bounds"@,
            DecodeError::MissingBit => "bit not specified"@,
            DecodeError::BitRange => "bit out of range"@,
        }
    }

    /// Writes what is said of the fault.
    pub fn to_string(&self) -> (s: String)
        ensures
            s@ == self.message(),
    {
        match self {
            DecodeError::Unsupported => "data type unimplemented".to_owned(),
            DecodeError::OutOfBounds => "data out of bounds".to_owned(),
            DecodeError::MissingBit => "bit not specified".to_owned(),
            DecodeError::BitRange => "bit out of range".to_owned(),
        }
    }
}

/// The signed number with the bits of a 16-bit word.
pub open spec fn as_i16(w: u16) -> i16 {
    if w >= 0x8000 {
        (w - 0x1_0000) as i16
    } else {
        w as i16
    }
}

/// The signed number with the bits of `v`.
pub open spec fn as_i32(v: u32) -> i32 {
    if v >= 0x8000_0000 {
        (v - 0x1_0000_0000) as i32
    } else {
        v as i32
    }
}

/// The signed number with the bits of `v`.
pub open spec fn as_i64(v: u64) -> i64 {
    if v >= 0x8000_0000_0000_0000 {
        (v - 0x1_0000_0000_0000_0000) as i64
    } else {
        v as i64
    }
}

/// Two words as one number, the first word being the upper half.
pub open spec fn join32(hi: u16, lo: u16) -> u32 {
    (hi * 0x1_0000 + lo) as u32
}

/// Four words as one number, the first word being the uppermost.
pub open spec fn join64(w0: u16, w1: u16, w2: u16, w3: u16) -> u64 {
    (w0 * 0x1_0000_0000_0000 + w1 * 0x1_0000_0000 + w2 * 0x1_0000 + w3) as u64
}

/// The two bytes of a word, the upper one first.
pub open spec fn word_bytes(w: u16) -> Seq<u8> {
    seq![(w / 256) as u8, (w % 256) as u8]
}

/// Eight bytes read as one number, the first byte being the uppermost.
pub open spec fn be_u64(b: Seq<u8>) -> int {
    b[0] * 0x100_0000_0000_0000 + b[1] * 0x1_0000_0000_0000 + b[2] * 0x100_0000_0000 + b[3]
        * 0x1_0000_0000 + b[4] * 0x100_0000 + b[5] * 0x1_0000 + b[6] * 0x100 + b[7]
}

/// The datum of type `tp` that stands at `offset` in `words`.
///
/// Integers of 32 and 64 bits have their uppermost word first. A real
/// number of 32 bits has its lower word first.
pub open spec fn decode_spec(words: Seq<u16>, offset: DataOffset, tp: GenDataType) -> Result<
    Value,
    DecodeError,
> {
    let o = offset.offset as int;
    let n = match tp {
        GenDataType::Bit | GenDataType::Uint16 | GenDataType::Int16 => 1int,
        GenDataType::Uint32 | GenDataType::Int32 | GenDataType::Real32 => 2int,
        GenDataType::Uint64 | GenDataType::Int64 => 4int,
        _ => 0int,
    };
    if n == 0 {
        Err(DecodeError::Unsupported)
    } else if o + n > words.len() {
        Err(DecodeError::OutOfBounds)
    } else {
        match tp {
            GenDataType::Bit => match offset.bit {
                None => Err(DecodeError::MissingBit),
                Some(b) => if b >= 16 {
                    Err(DecodeError::BitRange)
                } else {
                    Ok(Value::U8(words[o].bit_spec(b)))
                },
            },
            GenDataType::Uint16 => Ok(Value::U16(words[o])),
            GenDataType::Int16 => Ok(Value::I16(as_i16(words[o]))),
            GenDataType::Uint32 => Ok(Value::U32(join32(words[o], words[o + 1]))),
            GenDataType::Int32 => Ok(Value::I32(as_i32(join32(words[o], words[o + 1])))),
            GenDataType::Real32 => Ok(Value::Real32(join32(words[o + 1], words[o]))),
            GenDataType::Uint64 => Ok(
                Value::U64(join64(words[o], words[o + 1], words[o + 2], words[o + 3])),
            ),
            _ => Ok(
                Value::I64(as_i64(join64(words[o], words[o + 1], words[o + 2], words[o + 3]))),
            ),
        }
    }
}

/// Two words read as an unsigned number of 32 bits are the first word times
/// 65536 plus the second.
pub proof fn law_u32_word_order(hi: u16, lo: u16)
    ensures
        decode_spec(seq![hi, lo], DataOffset { offset: 0, bit: None }, GenDataType::Uint32) == Ok::<
            _,
            DecodeError,
        >(Value::U32((hi * 65536 + lo) as u32)),
{
}

/// Two words read as a real number of 32 bits have the bits of the second
/// word times 65536 plus the first: the words are swapped.
pub proof fn law_real32_word_order(a: u16, b: u16)
    ensures
        decode_spec(seq![a, b], DataOffset { offset: 0, bit: None }, GenDataType::Real32) == Ok::<
            _,
            DecodeError,
        >(Value::Real32((b * 65536 + a) as u32)),
{
}

/// The eight bytes of four words, the upper byte of each word first.
pub open spec fn four_word_bytes(w0: u16, w1: u16, w2: u16, w3: u16) -> Seq<u8> {
    word_bytes(w0) + word_bytes(w1) + word_bytes(w2) + word_bytes(w3)
}

/// Four words read as a number of 64 bits are their eight bytes, the upper
/// byte of each word first, read with the uppermost byte first; the signed
/// number has the same bits.
pub proof fn law_u64_byte_order(w0: u16, w1: u16, w2: u16, w3: u16)
    ensures
        four_word_bytes(w0, w1, w2, w3).len() == 8,
        join64(w0, w1, w2, w3) == be_u64(four_word_bytes(w0, w1, w2, w3)),
        decode_spec(
            seq![w0, w1, w2, w3],
            DataOffset { offset: 0, bit: None },
            GenDataType::Uint64,
        ) == Ok::<_, DecodeError>(Value::U64(be_u64(four_word_bytes(w0, w1, w2, w3)) as u64)),
        decode_spec(seq![w0, w1, w2, w3], DataOffset { offset: 0, bit: None }, GenDataType::Int64)
            == Ok::<_, DecodeError>(
            Value::I64(as_i64(be_u64(four_word_bytes(w0, w1, w2, w3)) as u64)),
        ),
{
    let b = four_word_bytes(w0, w1, w2, w3);
}

fn word32(hi: u16, lo: u16) -> (r: u32)
    ensures
        r == join32(hi, lo),
{
    (hi as u32) * 0x1_0000 + (lo as u32)
}

fn word64(w0: u16, w1: u16, w2: u16, w3: u16) -> (r: u64)
    ensures
        r == join64(w0, w1, w2, w3),
{
    (w0 as u64) * 0x1_0000_0000_0000 + (w1 as u64) * 0x1_0000_0000 + (w2 as u64) * 0x1_0000 + (
    w3 as u64)
}

fn signed16(w: u16) -> (r: i16)
    ensures
        r == as_i16(w),
{
    if w >= 0x8000 {
        ((w - 0x8000) as i16) - 0x4000 - 0x4000
    } else {
        w as i16
    }
}

fn signed32(v: u32) -> (r: i32)
    ensures
        r == as_i32(v),
{
    if v >= 0x8000_0000 {
        ((v - 0x8000_0000) as i32) - 0x4000_0000 - 0x4000_0000
    } else {
        v as i32
    }
}

fn signed64(v: u64) -> (r: i64)
    ensures
        r == as_i64(v),
{
    if v >= 0x8000_0000_0000_0000 {
        ((v - 0x8000_0000_0000_0000) as i64) - 0x4000_0000_0000_0000 - 0x4000_0000_0000_0000
    } else {
        v as i64
    }
}

/// Reads the datum of type `tp` that stands at `offset` in the words of a
/// pull.
pub fn decode(words: &Vec<u16>, offset: &DataOffset, tp: GenDataType) -> (r: Result<
    Value,
    DecodeError,
>)
    ensures
        r == decode_spec(words@, *offset, tp),
{
    let o = offset.offset;
    let n: usize = match tp {
        GenDataType::Bit | GenDataType::Uint16 | GenDataType::Int16 => 1,
        GenDataType::Uint32 | GenDataType::Int32 | GenDataType::Real32 => 2,
        GenDataType::Uint64 | GenDataType::Int64 => 4,
        _ => 0,
    };
    if n == 0 {
        return Err(DecodeError::Unsupported);
    }
    if words.len() < n || o > words.len() - n {
        return Err(DecodeError::OutOfBounds);
    }
    match tp {
        GenDataType::Bit => match offset.bit {
            None => Err(DecodeError::MissingBit),
            Some(b) => if b >= 16 {
                Err(DecodeError::BitRange)
            } else {
                Ok(Value::U8(words[o].get_bit(b)))
            },
        },
        GenDataType::Uint16 => Ok(Value::U16(words[o])),
        GenDataType::Int16 => Ok(Value::I16(signed16(words[o]))),
        GenDataType::Uint32 => Ok(Value::U32(word32(words[o], words[o + 1]))),
        GenDataType::Int32 => Ok(Value::I32(signed32(word32(words[o], words[o + 1])))),
        GenDataType::Real32 => Ok(Value::Real32(word32(words[o + 1], words[o]))),
        GenDataType::Uint64 => Ok(
            Value::U64(word64(words[o], words[o + 1], words[o + 2], words[o + 3])),
        ),
        _ => Ok(Value::I64(signed64(word64(words[o], words[o + 1], words[o + 2], words[o + 3])))),
    }
}

} // verus!
