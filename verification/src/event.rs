//! Edge events: the fixed-size record the kernel writes for each signal
//! transition, and the event it stands for.
//!
//! The integers of a record are read lowest byte first.

use crate::error::Error;
use crate::lines::{position_spec, ValuesInfo};
use crate::options::Edge;
use crate::values::{BitId, LineId};
use crate::wire::{le_u32, le_u32_spec, le_u64, le_u64_spec};
use vstd::prelude::*;

verus! {

/// Offset of the timestamp in a record.
pub const RECORD_TIMESTAMP_AT: usize = 0;

/// Offset of the edge identifier in a record.
pub const RECORD_ID_AT: usize = 8;

/// Offset of the line offset in a record.
pub const RECORD_OFFSET_AT: usize = 12;

/// Offset of the sequence number over all lines in a record.
pub const RECORD_SEQNO_AT: usize = 16;

/// Offset of the sequence number of the line in a record.
pub const RECORD_LINE_SEQNO_AT: usize = 20;

/// The fields of one event record.
#[derive(Clone, Copy, Debug, PartialEq, Eq, Structural)]
pub struct RawEvent {
    /// The time of the transition on the monotonic clock, in nanoseconds.
    pub timestamp_ns: u64,
    /// The edge identifier.
    pub id: u32,
    /// The offset of the line on its chip.
    pub offset: LineId,
    /// The number of the event among all events of the request.
    pub seqno: u32,
    /// The number of the event among the events of its line.
    pub line_seqno: u32,
}

/// One signal transition on a line of a request.
#[derive(Clone, Copy, Debug, PartialEq, Eq, Structural)]
pub struct Event {
    /// The position of the line in the request.
    pub line: BitId,
    /// The kind of the transition.
    pub edge: Edge,
    /// The time of the transition on the monotonic clock, in nanoseconds.
    pub time_ns: u64,
}

/// The fields that a record of the right size holds.
pub open spec fn raw_event_spec(record: Seq<u8>) -> RawEvent {
    RawEvent {
        timestamp_ns: le_u64_spec(record, 0),
        id: le_u32_spec(record, 8),
        offset: le_u32_spec(record, 12),
        seqno: le_u32_spec(record, 16),
        line_seqno: le_u32_spec(record, 20),
    }
}

/// `gpiod_core::check_size`, asked about an event record of that crate: it
/// accepts a length exactly when it is the size of the record structure,
/// which is 48 bytes.
#[verifier::external_body]
fn event_size_matches(len: usize) -> (matches: bool)
    ensures
        matches == (len == 48),
{
    gpiod_core::check_size(len, &gpiod_core::RawEvent::default()).is_ok()
}

/// Reads the fields of an event record.
///
/// Fails with [`Error::UnexpectedSize`] exactly when `record` does not have
/// the size of one record.
pub fn parse_event(record: &[u8]) -> (r: Result<RawEvent, Error>)
    ensures
        record@.len() != 48 <==> r is Err,
        r matches Err(e) ==> e == Error::UnexpectedSize,
        r matches Ok(raw) ==> raw == raw_event_spec(record@),
{
    if !event_size_matches(record.len()) {
        return Err(Error::UnexpectedSize);
    }
    Ok(
        RawEvent {
            timestamp_ns: le_u64(record, RECORD_TIMESTAMP_AT),
            id: le_u32(record, RECORD_ID_AT),
            offset: le_u32(record, RECORD_OFFSET_AT),
            seqno: le_u32(record, RECORD_SEQNO_AT),
            line_seqno: le_u32(record, RECORD_LINE_SEQNO_AT),
        },
    )
}

/// The edge that an identifier stands for.
pub open spec fn edge_spec(id: u32) -> Option<Edge> {
    if id == 1 {
        Some(Edge::Rising)
    } else if id == 2 {
        Some(Edge::Falling)
    } else {
        None
    }
}

/// The event that a record stands for in a request for `lines`.
pub open spec fn as_event_spec(raw: RawEvent, lines: Seq<LineId>) -> Result<Event, Error> {
    match position_spec(lines, raw.offset) {
        None => Err(Error::UnknownLine),
        Some(position) => match edge_spec(raw.id) {
            None => Err(Error::UnknownEdge),
            Some(edge) => Ok(Event { line: position as BitId, edge, time_ns: raw.timestamp_ns }),
        },
    }
}

impl RawEvent {
    /// The event that this record stands for in the request `info`.
    ///
    /// Fails with [`Error::UnknownLine`] when the line of the record is not
    /// part of the request, else with [`Error::UnknownEdge`] when the edge
    /// identifier is neither rising nor falling.
    pub fn as_event(&self, info: &ValuesInfo) -> (r: Result<Event, Error>)
        ensures
            r == as_event_spec(*self, info@.lines),
    {
        let line: BitId = match info.index(self.offset) {
            Some(position) => position,
            None => {
                return Err(Error::UnknownLine);
            },
        };
        let edge: Edge = if self.id == 1 {
            Edge::Rising
        } else if self.id == 2 {
            Edge::Falling
        } else {
            return Err(Error::UnknownEdge);
        };
        Ok(Event { line, edge, time_ns: self.timestamp_ns })
    }
}

} // verus!
