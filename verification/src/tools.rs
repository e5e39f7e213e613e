//! Small tools: host and port of a device, the bits of a word, and the wait
//! for a moment.

use crate::text::{bounded_value, chars_of, find_char, head, parse_bounded, tail, text_of};
use vstd::prelude::*;

verus! {

/// The host and the port of a device.
#[derive(Clone, Debug, PartialEq, Eq)]
pub struct HostPort {
    pub host: String,
    pub port: u16,
}

impl View for HostPort {
    type V = (Seq<char>, u16);

    open spec fn view(&self) -> (Seq<char>, u16) {
        (self.host@, self.port)
    }
}

impl Default for HostPort {
    fn default() -> (r: Self)
        ensures
            r@ == (Seq::<char>::empty(), 0u16),
    {
        HostPort { host: String::new(), port: 0 }
    }
}

/// What follows the `:` is no port number.
#[derive(PartialEq, Eq, Clone, Copy, Debug, Structural)]
pub struct PortError;

/// The text of the port in `host[:port]`: what stands between the first `:`
/// and the next one, if there is a `:`.
pub open spec fn port_text(s: Seq<char>) -> Option<Seq<char>> {
    match tail(s, ':') {
        Some(t) => Some(head(t, ':')),
        None => None,
    }
}

/// The host and port that `s` names: the host is what stands before the
/// first `:`, the port what follows it, or `default_port` without a `:`.
pub open spec fn host_port_of(s: Seq<char>, default_port: u16) -> Result<
    (Seq<char>, u16),
    PortError,
> {
    match port_text(s) {
        None => Ok((head(s, ':'), default_port)),
        Some(p) => match bounded_value(p, u16::MAX as nat) {
            Some(n) => Ok((head(s, ':'), n as u16)),
            None => Err(PortError),
        },
    }
}

/// Reading `host[:port]`.
pub trait ParseHostPort {
    spec fn host_port_spec(&self, default_port: u16) -> Result<(Seq<char>, u16), PortError>;

    fn parse_host_port(&self, default_port: u16) -> (r: Result<HostPort, PortError>)
        ensures
            r is Ok <==> self.host_port_spec(default_port) is Ok,
            r matches Ok(hp) ==> self.host_port_spec(default_port) == Ok::<_, PortError>(hp@),
    ;
}

impl ParseHostPort for String {
    open spec fn host_port_spec(&self, default_port: u16) -> Result<(Seq<char>, u16), PortError> {
        host_port_of(self@, default_port)
    }

    fn parse_host_port(&self, default_port: u16) -> (r: Result<HostPort, PortError>) {
        let v = chars_of(self.as_str());
        let n = v.len();
        let colon = find_char(&v, 0, n, ':');
        assert(v@.subrange(0, n as int) == v@);
        let mut port: u16 = default_port;
        if colon < n {
            let ghost t = v@.skip(colon + 1);
            let end = find_char(&v, colon + 1, n, ':');
            assert(head(t, ':') == v@.subrange(colon + 1, end as int));
            match parse_bounded(&v, colon + 1, end, 0xffff) {
                None => {
                    return Err(PortError);
                },
                Some(p) => {
                    port = p as u16;
                },
            }
        }
        Ok(HostPort { host: text_of(&v, 0, colon), port })
    }
}

/// Reading one bit of a 16-bit word, bit 0 being the least significant.
pub trait GetBit {
    spec fn bit_spec(&self, bit: u8) -> u8;

    fn get_bit(&self, bit: u8) -> (r: u8)
        requires
            bit < 16,
        ensures
            r == self.bit_spec(bit),
            r <= 1,
    ;
}

impl GetBit for u16 {
    open spec fn bit_spec(&self, bit: u8) -> u8 {
        ((*self >> (bit as u16)) & 1u16) as u8
    }

    fn get_bit(&self, bit: u8) -> (r: u8) {
        let shifted: u16 = *self >> (bit as u16);
        let masked: u16 = shifted & 1u16;
        assert(masked <= 1) by (bit_vector)
            requires
                masked == shifted & 1u16,
        ;
        masked as u8
    }
}

/// Waiting for a moment of the monotonic clock, in nanoseconds.
pub trait SleepTricks {
    spec fn wait_spec(&self, now: u64) -> Option<u64>;

    /// How long to sleep at time `now` to wake up at the moment `self`: none
    /// where the moment has come or gone.
    fn sleep_until(&self, now: u64) -> (r: Option<u64>)
        ensures
            r == self.wait_spec(now),
    ;
}

impl SleepTricks for u64 {
    open spec fn wait_spec(&self, now: u64) -> Option<u64> {
        if now >= *self {
            None
        } else {
            Some((*self - now) as u64)
        }
    }

    fn sleep_until(&self, now: u64) -> (r: Option<u64>) {
        if now >= *self {
            None
        } else {
            Some(*self - now)
        }
    }
}

} // verus!
