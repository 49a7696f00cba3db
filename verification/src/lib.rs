//! A WAN-IP-change monitor's alert engine.
//!
//! The library decides, once per poll cycle, whether the public address a
//! router reports and the address published in DNS for a hostname agree, and
//! whether a chat notification must be sent, suppressed or cleared.  The
//! decision logic, the durable alert state and the message framing are all
//! verified; network and file traffic stay with the caller, which hands in
//! plain values (the fetched addresses, the state file's contents, the HTTP
//! response bodies) and carries the computed values back out.

pub mod api;
pub mod dns;
pub mod json;
pub mod notify;
pub mod reconcile;
pub mod state;
pub mod timefmt;
