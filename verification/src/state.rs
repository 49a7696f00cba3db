//! The durable alert state and its on-disk record.
//!
//! One record per process: whether an alert is currently active, and when it
//! was raised.  On disk the record is a single RFC 2822 timestamp string; no
//! record means no active alert, and a record that does not parse is read as
//! inactive, so that a damaged file re-arms notification rather than
//! silencing it for good.  An alert's age never re-arms notification by
//! itself: the engine reacts to transitions only, and an active alert stays
//! active until the addresses converge again.

use vstd::prelude::*;

use crate::timefmt::{
    format_rfc2822, parse_rfc2822, rfc2822_timestamp, valid_timestamp, MAX_TIMESTAMP,
};

verus! {

/// Whether an alert has been sent and not yet cleared.  An inactive state
/// carries no timestamp at all, so "active implies a raise time" holds by
/// construction.
#[derive(Clone, Copy, Debug, PartialEq, Eq, Structural)]
pub enum AlertState {
    /// No alert is outstanding.
    Inactive,
    /// An alert went out at `raised_at` (seconds since the Unix epoch) and
    /// has not been cleared.
    Active { raised_at: i64 },
}

impl AlertState {
    /// True iff an alert notification has been sent and not yet cleared.
    pub open spec fn is_active(self) -> bool {
        self is Active
    }

    /// A raise time the record format can carry.
    pub open spec fn wf(self) -> bool {
        match self {
            AlertState::Inactive => true,
            AlertState::Active { raised_at } => valid_timestamp(raised_at),
        }
    }

    /// True iff an alert notification has been sent and not yet cleared.
    pub fn active(&self) -> (b: bool)
        ensures
            b == self.is_active(),
    {
        matches!(self, AlertState::Active { .. })
    }
}

/// The sequence of characters under an optional string, absence kept apart
/// from every string value.
pub open spec fn opt_text(o: Option<String>) -> Option<Seq<char>> {
    match o {
        Some(s) => Some(s@),
        None => None,
    }
}

/// The state that a record with the given contents denotes: active with the
/// parsed raise time where the contents are a well-formed in-range RFC 2822
/// timestamp, inactive where there is no record or it does not parse.
pub open spec fn spec_read_state(contents: Option<Seq<char>>) -> AlertState {
    match contents {
        None => AlertState::Inactive,
        Some(text) => match rfc2822_timestamp(text) {
            Some(t) => if valid_timestamp(t) {
                AlertState::Active { raised_at: t }
            } else {
                AlertState::Inactive
            },
            None => AlertState::Inactive,
        },
    }
}

/// Read the alert state out of the record's contents, `None` standing for a
/// record that does not exist.  Corruption is never a hard failure: whatever
/// does not parse reads as inactive.
pub fn read_state(contents: &Option<String>) -> (st: AlertState)
    ensures
        st == spec_read_state(opt_text(*contents)),
        st.wf(),
{
    match contents {
        None => AlertState::Inactive,
        Some(text) => match parse_rfc2822(text.as_str()) {
            Some(t) => if 0 <= t && t <= MAX_TIMESTAMP {
                AlertState::Active { raised_at: t }
            } else {
                AlertState::Inactive
            },
            None => AlertState::Inactive,
        },
    }
}

/// Render the record's contents for an alert raised at `raised_at`.  Writing
/// these contents and reading them back yields the active state with the
/// same raise time, to the second: the round trip loses nothing.
pub fn render_state(raised_at: i64) -> (s: String)
    requires
        valid_timestamp(raised_at),
    ensures
        rfc2822_timestamp(s@) == Some(raised_at),
        spec_read_state(Some(s@)) == (AlertState::Active { raised_at }),
{
    format_rfc2822(raised_at)
}

} // verus!
