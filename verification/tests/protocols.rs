use pulr::config::{
    protocol_family, version_supported, ProtocolError, ProtocolFamily, CFG_VERSION_MAX,
    CFG_VERSION_MIN,
};
use pulr::datatypes::{DataOffset, EventTime, GenDataType, OffsetError, TimeFormat};
use pulr::ppenip::{
    get_default_count, get_default_size, plc_path, protocol_supported, read_offset, safe_get_bit,
    tag_path, EnIpDataProcessInfo, EnIpError, EnIpProcessError, DEFAULT_ENIP_PORT,
};
use pulr::ppsnmp::{
    event_value, find_answer, get_default_community, get_default_max_repeat,
    get_default_non_repeat, get_default_set_id, get_default_version, is_bulk, parse_oid,
    parse_snmp_val, prepare_oid, OidError, SNMPDataProcessInfo, SNMPValue, SnmpAnswer, SnmpDatum,
    DEFAULT_SNMP_PORT,
};
use pulr::tools::{GetBit, HostPort, ParseHostPort, PortError};
use pulr::transform::Value;
use pulr::worker::{TaskCmd, TaskResult, WorkerAction};

fn s(text: &str) -> String {
    text.to_string()
}

#[test]
fn what_is_kept_of_an_answer() {
    assert_eq!(parse_snmp_val(SnmpDatum::Boolean(true)), SNMPValue::SBoolean(1));
    assert_eq!(parse_snmp_val(SnmpDatum::Boolean(false)), SNMPValue::SBoolean(0));
    assert_eq!(parse_snmp_val(SnmpDatum::Integer(-5)), SNMPValue::SInt64(-5));
    assert_eq!(
        parse_snmp_val(SnmpDatum::OctetString(b"eth0".to_vec())),
        SNMPValue::SStr(s("eth0"))
    );
    assert_eq!(
        parse_snmp_val(SnmpDatum::OctetString(vec![b'a', 0xff, b'b'])),
        SNMPValue::SStr(s("a\u{fffd}b"))
    );
    assert_eq!(
        parse_snmp_val(SnmpDatum::ObjectIdentifier(s("1.3.6.1"))),
        SNMPValue::SStr(s("1.3.6.1"))
    );
    assert_eq!(
        parse_snmp_val(SnmpDatum::IpAddress([192, 168, 0, 1])),
        SNMPValue::SStr(s("192.168.0.1"))
    );
    assert_eq!(
        parse_snmp_val(SnmpDatum::IpAddress([0, 0, 0, 255])),
        SNMPValue::SStr(s("0.0.0.255"))
    );
    assert_eq!(parse_snmp_val(SnmpDatum::Counter32(7)), SNMPValue::SUint32(7));
    assert_eq!(parse_snmp_val(SnmpDatum::Unsigned32(8)), SNMPValue::SUint32(8));
    assert_eq!(parse_snmp_val(SnmpDatum::Timeticks(9)), SNMPValue::SUint32(9));
    assert_eq!(parse_snmp_val(SnmpDatum::Counter64(u64::MAX)), SNMPValue::SUint64(u64::MAX));
    assert_eq!(parse_snmp_val(SnmpDatum::Other), SNMPValue::SNull);
}

#[test]
fn identifiers_as_they_are_looked_up() {
    assert_eq!(prepare_oid(&s(".1.3.6.1")), Ok(s("1.3.6.1")));
    assert_eq!(prepare_oid(&s("iso.3.6.1")), Ok(s("1.3.6.1")));
    assert_eq!(prepare_oid(&s("1.3.6.1")), Ok(s("1.3.6.1")));
    assert_eq!(prepare_oid(&s("..1")), Ok(s(".1")));
    assert_eq!(prepare_oid(&s(".iso.3")), Ok(s("iso.3")));
    assert_eq!(prepare_oid(&s("iso.")), Ok(s("1.")));
    assert_eq!(prepare_oid(&s("iso")), Ok(s("iso")));
    assert_eq!(prepare_oid(&s("isolated")), Ok(s("isolated")));
    assert_eq!(prepare_oid(&s(".")), Ok(s("")));
    assert_eq!(prepare_oid(&s("")), Err(OidError::Empty));
}

#[test]
fn numbers_of_an_identifier() {
    assert_eq!(parse_oid(&s(".1.3.6.1.2.1")), Ok(vec![1, 3, 6, 1, 2, 1]));
    assert_eq!(parse_oid(&s("iso.3.6")), Ok(vec![1, 3, 6]));
    assert_eq!(parse_oid(&s("4294967295")), Ok(vec![4294967295]));
    assert_eq!(parse_oid(&s("1.4294967296")), Err(OidError::Number));
    assert_eq!(parse_oid(&s("1..3")), Err(OidError::Number));
    assert_eq!(parse_oid(&s("1.3.")), Err(OidError::Number));
    assert_eq!(parse_oid(&s("1.x")), Err(OidError::Number));
    assert_eq!(parse_oid(&s(".")), Err(OidError::Number));
    assert_eq!(parse_oid(&s("")), Err(OidError::Empty));
}

#[test]
fn pulls_in_bulk() {
    assert!(!is_bulk(1, 1));
    assert!(!is_bulk(0, 0));
    assert!(is_bulk(2, 1));
    assert!(is_bulk(1, 2));
    assert!(is_bulk(0, 2));
    assert_eq!(get_default_version(), 2);
    assert!(pulr::ppsnmp::version_supported(2));
    assert!(!pulr::ppsnmp::version_supported(1));
    assert!(!pulr::ppsnmp::version_supported(3));
    assert_eq!(get_default_community(), "public");
    assert_eq!(get_default_non_repeat(), 0);
    assert_eq!(get_default_max_repeat(), 1);
    assert_eq!(get_default_set_id(), None);
    assert_eq!(DEFAULT_SNMP_PORT, 161);
}

#[test]
fn answers_become_events() {
    let answers = vec![
        SnmpAnswer { name: s("1.3.1"), value: SNMPValue::SUint32(5) },
        SnmpAnswer { name: s("1.3.2"), value: SNMPValue::SStr(s("eth0")) },
        SnmpAnswer { name: s("1.3.1"), value: SNMPValue::SUint32(6) },
        SnmpAnswer { name: s("1.3.3"), value: SNMPValue::SNull },
    ];
    assert_eq!(find_answer(&answers, "1.3.1"), Some(&SNMPValue::SUint32(6)));
    assert_eq!(find_answer(&answers, "1.3.2"), Some(&SNMPValue::SStr(s("eth0"))));
    assert_eq!(find_answer(&answers, "1.3.3"), Some(&SNMPValue::SNull));
    assert_eq!(find_answer(&answers, "1.3"), None);
    assert_eq!(find_answer(&vec![], "1.3.1"), None);
    assert_eq!(event_value(&SNMPValue::SBoolean(1)), Some(Value::U8(1)));
    assert_eq!(event_value(&SNMPValue::SUint32(6)), Some(Value::U32(6)));
    assert_eq!(event_value(&SNMPValue::SInt64(-6)), Some(Value::I64(-6)));
    assert_eq!(event_value(&SNMPValue::SUint64(6)), Some(Value::U64(6)));
    assert_eq!(event_value(&SNMPValue::SStr(s("eth0"))), Some(Value::Str(s("eth0"))));
    assert_eq!(event_value(&SNMPValue::SNull), None);
    let named = SNMPDataProcessInfo::new(&s(".1.3.1"), Some(s("in")), vec![]).unwrap();
    assert_eq!(named.oid, "1.3.1");
    assert_eq!(named.event_id(), "in");
    let bare = SNMPDataProcessInfo::new(&s("iso.3.1"), None, vec![]).unwrap();
    assert_eq!(bare.event_id(), "1.3.1");
    assert_eq!(find_answer(&answers, bare.oid.as_str()), Some(&SNMPValue::SUint32(6)));
    assert_eq!(SNMPDataProcessInfo::new(&s(""), None, vec![]).err(), Some(OidError::Empty));
}

#[test]
fn paths_of_tags() {
    let plc = plc_path("10.0.0.5", 44818, "1,0", "LGX");
    assert_eq!(plc, "protocol=ab_eip&gateway=10.0.0.5:44818&path=1,0&cpu=LGX");
    assert_eq!(
        tag_path(&plc, 4, None, "Counter"),
        "protocol=ab_eip&gateway=10.0.0.5:44818&path=1,0&cpu=LGX&elem_size=4&name=Counter"
    );
    assert_eq!(
        tag_path(&plc, 1, Some(10), "B[0]"),
        "protocol=ab_eip&gateway=10.0.0.5:44818&path=1,0&cpu=LGX&elem_size=1&elem_count=10&name=B[0]"
    );
    assert_eq!(tag_path("", 0, Some(0), ""), "&elem_size=0&elem_count=0&name=");
    assert_eq!(get_default_size(), 1);
    assert_eq!(get_default_count(), None);
    assert_eq!(pulr::ppenip::get_default_type(), "bit");
    assert_eq!(DEFAULT_ENIP_PORT, 44818);
    assert!(protocol_supported("enip/ab_eip"));
    assert!(!protocol_supported("enip"));
    assert!(!protocol_supported("enip/AB_EIP"));
}

#[test]
fn data_of_a_tag() {
    let d = EnIpDataProcessInfo::new(&s("2/3"), &s("bit"), s("a"), vec![]).unwrap();
    assert_eq!((d.offset, d.tp), (DataOffset { offset: 16, bit: Some(3) }, GenDataType::Bit));
    assert_eq!(read_offset(&d.offset, d.tp), Ok(19));
    let d = EnIpDataProcessInfo::new(&s("2/3"), &s("uint32"), s("a"), vec![]).unwrap();
    assert_eq!(d.tp, GenDataType::Bit);
    let d = EnIpDataProcessInfo::new(&s("=8"), &s("Real64"), s("a"), vec![]).unwrap();
    assert_eq!((d.offset, d.tp), (DataOffset { offset: 8, bit: None }, GenDataType::Real64));
    assert_eq!(read_offset(&d.offset, d.tp), Ok(8));
    assert_eq!(d.set_id, "a");
    assert_eq!(
        EnIpDataProcessInfo::new(&s("2"), &s("bit"), s("a"), vec![]).err(),
        Some(EnIpProcessError::TypeNotSpecified)
    );
    assert_eq!(
        EnIpDataProcessInfo::new(&s("2"), &pulr::ppenip::get_default_type(), s("a"), vec![]).err(),
        Some(EnIpProcessError::TypeNotSpecified)
    );
    assert_eq!(
        EnIpDataProcessInfo::new(&s("2"), &s("long"), s("a"), vec![]).err(),
        Some(EnIpProcessError::DataType)
    );
    assert_eq!(
        EnIpDataProcessInfo::new(&s("x"), &s("int8"), s("a"), vec![]).err(),
        Some(EnIpProcessError::Offset(OffsetError::Number))
    );
}

#[test]
fn places_in_a_tag() {
    let at = |offset: usize, bit: Option<u8>| DataOffset { offset, bit };
    assert_eq!(read_offset(&at(0, None), GenDataType::Uint8), Ok(0));
    assert_eq!(read_offset(&at(i32::MAX as usize, None), GenDataType::Int64), Ok(i32::MAX));
    assert_eq!(
        read_offset(&at(i32::MAX as usize + 1, None), GenDataType::Int64),
        Err(EnIpError::Offset)
    );
    assert_eq!(read_offset(&at(8, Some(7)), GenDataType::Real32), Ok(8));
    assert_eq!(read_offset(&at(8, Some(7)), GenDataType::Bit), Ok(15));
    assert_eq!(read_offset(&at(8, None), GenDataType::Bit), Err(EnIpError::MissingBit));
    assert_eq!(
        read_offset(&at(i32::MAX as usize - 3, Some(3)), GenDataType::Bit),
        Ok(i32::MAX)
    );
    assert_eq!(
        read_offset(&at(i32::MAX as usize - 3, Some(4)), GenDataType::Bit),
        Err(EnIpError::Offset)
    );
    assert_eq!(read_offset(&at(usize::MAX, Some(4)), GenDataType::Bit), Err(EnIpError::Offset));
    assert_eq!(safe_get_bit(0), Ok(0));
    assert_eq!(safe_get_bit(1), Ok(1));
    assert_eq!(safe_get_bit(-1), Err(EnIpError::Code(-1)));
    assert_eq!(safe_get_bit(-32), Err(EnIpError::Code(-32)));
    assert_eq!(safe_get_bit(257), Ok(1));
}

#[test]
fn hosts_and_ports() {
    let hp = |host: &str, port: u16| Ok(HostPort { host: s(host), port });
    assert_eq!(s("10.0.0.1:1502").parse_host_port(502), hp("10.0.0.1", 1502));
    assert_eq!(s("plc").parse_host_port(502), hp("plc", 502));
    assert_eq!(s("plc:0").parse_host_port(502), hp("plc", 0));
    assert_eq!(s("plc:65535").parse_host_port(502), hp("plc", 65535));
    assert_eq!(s("plc:+7").parse_host_port(502), hp("plc", 7));
    assert_eq!(s("plc:7:8").parse_host_port(502), hp("plc", 7));
    assert_eq!(s(":7").parse_host_port(502), hp("", 7));
    assert_eq!(s("").parse_host_port(161), hp("", 161));
    assert_eq!(s("plc:").parse_host_port(502), Err(PortError));
    assert_eq!(s("plc:65536").parse_host_port(502), Err(PortError));
    assert_eq!(s("plc:http").parse_host_port(502), Err(PortError));
    assert_eq!(s("plc: 7").parse_host_port(502), Err(PortError));
    assert_eq!(HostPort::default(), HostPort { host: s(""), port: 0 });
}

#[test]
fn bits_of_a_word() {
    assert_eq!(0xAAAAu16.get_bit(0), 0);
    assert_eq!(0xAAAAu16.get_bit(1), 1);
    assert_eq!(0x8000u16.get_bit(15), 1);
    assert_eq!(0x7FFFu16.get_bit(15), 0);
    for b in 0..16u8 {
        assert_eq!(0xFFFFu16.get_bit(b), 1);
        assert_eq!(0u16.get_bit(b), 0);
        assert_eq!((1u16 << b).get_bit(b), 1);
    }
}

#[test]
fn configurations_and_protocols() {
    assert!(!version_supported(1));
    assert!(version_supported(2));
    assert!(!version_supported(3));
    assert!(!version_supported(0));
    assert_eq!((CFG_VERSION_MIN, CFG_VERSION_MAX), (2, 2));
    assert_eq!(protocol_family("modbus/tcp"), Ok(ProtocolFamily::Modbus));
    assert_eq!(protocol_family("modbus/udp"), Ok(ProtocolFamily::Modbus));
    assert_eq!(protocol_family("modbus"), Ok(ProtocolFamily::Modbus));
    assert_eq!(protocol_family("enip/ab_eip"), Ok(ProtocolFamily::EnIp));
    assert_eq!(protocol_family("snmp"), Ok(ProtocolFamily::Snmp));
    assert_eq!(protocol_family("snmp/2/c"), Ok(ProtocolFamily::Snmp));
    assert_eq!(protocol_family("Modbus/tcp"), Err(ProtocolError));
    assert_eq!(protocol_family("/modbus"), Err(ProtocolError));
    assert_eq!(protocol_family(""), Err(ProtocolError));
    assert_eq!(protocol_family("opcua"), Err(ProtocolError));
}

#[test]
fn messages_to_the_processor() {
    let t = EventTime::new(TimeFormat::Raw, 1, 2, 3);
    let data = TaskResult::process(vec![1u16, 2], 4, t);
    assert_eq!(data.action(), WorkerAction::Decode { work_id: 4 });
    assert_eq!(data.t, t);
    assert_eq!(data.cmd, TaskCmd::Process);
    assert_eq!(data.data, Some(vec![1, 2]));
    let clear = TaskResult::<Vec<u16>>::clear_cache();
    assert_eq!(clear.action(), WorkerAction::ClearCache);
    assert_eq!(clear.t, EventTime::new(TimeFormat::Omit, 0, 0, 0));
    let end = TaskResult::<i32>::terminate();
    assert_eq!(end.action(), WorkerAction::Terminate);
    assert!(end.data.is_none() && end.work_id.is_none());
    let odd = TaskResult { data: Some(5i32), work_id: Some(0), t, cmd: TaskCmd::Terminate };
    assert_eq!(odd.action(), WorkerAction::Decode { work_id: 0 });
    let idle = TaskResult::<i32> { data: None, work_id: Some(1), t, cmd: TaskCmd::Process };
    assert_eq!(idle.action(), WorkerAction::Skip);
}
