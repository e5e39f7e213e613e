//! What a configuration may say before any device is asked.

use crate::text::{chars_of, find_char, head, text_eq, text_of};
use vstd::prelude::*;

verus! {

/// The oldest version of the configuration that is read.
pub const CFG_VERSION_MIN: u16 = 2;

/// The newest version of the configuration that is read.
pub const CFG_VERSION_MAX: u16 = 2;

/// Whether a configuration of this version is read.
pub fn version_supported(version: u16) -> (r: bool)
    ensures
        r == (CFG_VERSION_MIN <= version <= CFG_VERSION_MAX),
{
    CFG_VERSION_MIN <= version && version <= CFG_VERSION_MAX
}

/// The family of protocols that a device speaks.
#[derive(PartialEq, Eq, Clone, Copy, Debug, Structural)]
pub enum ProtocolFamily {
    Modbus,
    EnIp,
    Snmp,
}

/// A protocol name of no known family.
#[derive(PartialEq, Eq, Clone, Copy, Debug, Structural)]
pub struct ProtocolError;

/// The family that a protocol name belongs to: what stands before its first
/// `/` says so.
pub open spec fn family_of(name: Seq<char>) -> Result<ProtocolFamily, ProtocolError> {
    let family = head(name, '/');
    if family == "modbus"@ {
        Ok(ProtocolFamily::Modbus)
    } else if family == "enip"@ {
        Ok(ProtocolFamily::EnIp)
    } else if family == "snmp"@ {
        Ok(ProtocolFamily::Snmp)
    } else {
        Err(ProtocolError)
    }
}

/// Reads the family of protocols from the name of a protocol.
pub fn protocol_family(name: &str) -> (r: Result<ProtocolFamily, ProtocolError>)
    ensures
        r == family_of(name@),
{
    let v = chars_of(name);
    let k = find_char(&v, 0, v.len(), '/');
    assert(v@.subrange(0, v@.len() as int) == v@);
    let family = text_of(&v, 0, k);
    if text_eq(family.as_str(), "modbus") {
        Ok(ProtocolFamily::Modbus)
    } else if text_eq(family.as_str(), "enip") {
        Ok(ProtocolFamily::EnIp)
    } else if text_eq(family.as_str(), "snmp") {
        Ok(ProtocolFamily::Snmp)
    } else {
        Err(ProtocolError)
    }
}

} // verus!
