//! Verified core of a periodic industrial-protocol poller.

pub mod config;
pub mod datatypes;
pub mod engine;
pub mod pacing;
pub mod ppenip;
pub mod ppmodbus;
pub mod ppsnmp;
pub mod sink;
pub mod text;
pub mod tools;
pub mod transform;
pub mod worker;
