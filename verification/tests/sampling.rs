use pulr::datatypes::{EventTime, TimeFormat};
use pulr::ppmodbus::{
    build_request, frame_rest, parse_response, ModbusError, ModbusPullData, ModbusRegisterType,
};
use pulr::text::{push_decimal, push_signed};

/// A plain generator of numbers, the same on every run.
struct Numbers(u64);

impl Numbers {
    fn next(&mut self) -> u64 {
        self.0 = self.0.wrapping_mul(6364136223846793005).wrapping_add(1442695040888963407);
        self.0 >> 16
    }

    fn below(&mut self, n: u64) -> u64 {
        self.next() % n
    }
}

const KINDS: [(ModbusRegisterType, u8); 4] = [
    (ModbusRegisterType::Coil, 1),
    (ModbusRegisterType::Discrete, 2),
    (ModbusRegisterType::Holding, 3),
    (ModbusRegisterType::Input, 4),
];

fn accepted(func: u8, unit: u8, tr_id: u16, r: &[u8]) -> bool {
    r.len() >= 9
        && u16::from_be_bytes([r[0], r[1]]) == tr_id
        && r[2] == 0
        && r[3] == 0
        && r[6] == unit
        && r[7] == func
        && r[8] as usize * 2 >= r.len() - 9
}

fn words(count: u16, r: &[u8]) -> Vec<u16> {
    r[9..]
        .chunks_exact(2)
        .take(count as usize)
        .map(|p| u16::from_be_bytes([p[0], p[1]]))
        .collect()
}

fn bits(count: u16, r: &[u8]) -> Vec<u16> {
    let mut out = Vec::new();
    for b in &r[9..] {
        for i in 0..8 {
            if out.len() < count as usize {
                out.push(((b >> i) & 1) as u16);
            }
        }
    }
    out
}

#[test]
fn sampled_requests_are_as_described() {
    let mut n = Numbers(1);
    for _ in 0..2000 {
        let (tp, func) = KINDS[n.below(4) as usize];
        let (unit, tr_id, reg, count) =
            (n.next() as u8, n.next() as u16, n.next() as u16, n.next() as u16);
        let pull = ModbusPullData::new(tp, reg as u32, count, unit);
        let frame = build_request(&pull, tr_id).unwrap();
        let mut expected = Vec::new();
        expected.extend(tr_id.to_be_bytes());
        expected.extend([0, 0, 0, 6, unit, func]);
        expected.extend(reg.to_be_bytes());
        expected.extend(count.to_be_bytes());
        assert_eq!(frame, expected);
        assert_eq!(frame_rest(&frame[..6].to_vec()), Ok(6));
    }
}

#[test]
fn sampled_responses_are_read_as_described() {
    let mut n = Numbers(2);
    let mut taken = 0;
    for round in 0..20000 {
        let (tp, func) = KINDS[n.below(4) as usize];
        let unit = n.below(3) as u8;
        let tr_id = n.below(3) as u16;
        let count = n.below(12) as u16;
        let len = n.below(40) as usize;
        let mut r: Vec<u8> = (0..len).map(|_| n.next() as u8).collect();
        if round % 4 != 0 && len >= 9 {
            r[0] = 0;
            r[1] = n.below(3) as u8;
            r[2] = 0;
            r[3] = (n.below(8) == 0) as u8;
            r[6] = n.below(3) as u8;
            r[7] = if n.below(8) == 0 { n.next() as u8 } else { func };
            r[8] = n.below(20) as u8;
        }
        let pull = ModbusPullData::new(tp, 0, count, unit);
        let got = parse_response(&pull, tr_id, &r);
        let is_bits = func < 3;
        if !is_bits && r.len() == 9 {
            assert_eq!(got, Err(ModbusError::Empty));
        } else if accepted(func, unit, tr_id, &r) {
            taken += 1;
            let expected = if is_bits { bits(count, &r) } else { words(count, &r) };
            assert_eq!(got, Ok(expected), "{:?} {:?}", pull, r);
        } else {
            assert!(matches!(got, Err(ModbusError::Protocol(_))), "{:?} {:?}", pull, r);
        }
    }
    assert!(taken > 500);
}

#[test]
fn sampled_headers_are_read_as_described() {
    let mut n = Numbers(3);
    for _ in 0..20000 {
        let len = n.below(9) as usize;
        let mut h: Vec<u8> = (0..len).map(|_| n.next() as u8).collect();
        if len >= 6 {
            if n.below(4) != 0 {
                h[2] = 0;
                h[3] = 0;
            }
            if n.below(2) == 0 {
                h[4] = 0;
            }
            if n.below(16) == 0 {
                h[4] = 0xFF;
                h[5] = 0xF0 + n.below(16) as u8;
            }
        }
        let got = frame_rest(&h);
        if len < 6 {
            assert_eq!(got, Err(ModbusError::Header));
            continue;
        }
        let counted = u16::from_be_bytes([h[4], h[5]]) as u32;
        if counted + 6 > 0xFFFF {
            assert_eq!(got, Err(ModbusError::Length));
        } else if h[2] == 0 && h[3] == 0 && counted + 6 <= 255 {
            assert_eq!(got, Ok(counted as usize));
        } else {
            assert!(matches!(got, Err(ModbusError::Protocol(_))), "{:?}", h);
        }
    }
}

#[test]
fn sampled_numbers_are_written_as_the_standard_library_writes_them() {
    let mut n = Numbers(4);
    for _ in 0..5000 {
        let v = n.next() >> n.below(48);
        let i = (n.next() as i64) >> n.below(48);
        let j = -i.max(i64::MIN + 1);
        let mut s = String::new();
        push_decimal(&mut s, v);
        push_signed(&mut s, i);
        push_signed(&mut s, j);
        assert_eq!(s, format!("{}{}{}", v, i, j));
    }
}

#[test]
fn sampled_raw_times_read_as_seconds() {
    let mut n = Numbers(5);
    for _ in 0..5000 {
        let secs = n.below(4_000_000_000);
        let nanos = n.below(1_000_000_000) as u32;
        let t = EventTime::new(TimeFormat::Raw, secs, nanos, 0);
        let text = t.text().unwrap();
        let millis = secs as u128 * 1000 + (nanos / 1_000_000) as u128;
        let seconds = millis as f64 / 1000.0;
        assert_eq!(text.plain, seconds.to_string());
        assert_eq!(text.json, Some(serde_json::to_string(&seconds).unwrap()));
    }
}
