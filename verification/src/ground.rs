//! Ground-side command construction: the small command records a ground
//! station uplinks, with their fixed identifiers and priorities.

use vstd::prelude::*;
use crate::messaging::MessagePriority;
use crate::types::BandType;

verus! {

/// A command a ground station sends to the satellite.
#[derive(Debug, Clone, PartialEq, Eq)]
pub struct Command {
    /// Command identifier.
    pub command_id: u32,
    /// Processing priority.
    pub priority: MessagePriority,
    /// Binary-encoded parameters.
    pub parameters: Vec<u8>,
}

impl Command {
    /// Create a command with the given identifier, priority and
    /// parameters.
    pub fn new(command_id: u32, priority: MessagePriority, parameters: Vec<u8>) -> (r: Self)
        ensures
            r.command_id == command_id,
            r.priority == priority,
            r.parameters == parameters,
    {
        Self { command_id, priority, parameters }
    }

    /// A system status request, identifier 0x1001 at medium priority.
    pub fn system_status_request() -> (r: Self)
        ensures
            r.command_id == 0x1001,
            r.priority == MessagePriority::Medium,
            r.parameters@ == Seq::<u8>::empty(),
    {
        Self::new(0x1001, MessagePriority::Medium, Vec::new())
    }

    /// A telemetry request, identifier 0x1002 at low priority.
    pub fn telemetry_request() -> (r: Self)
        ensures
            r.command_id == 0x1002,
            r.priority == MessagePriority::Low,
            r.parameters@ == Seq::<u8>::empty(),
    {
        Self::new(0x1002, MessagePriority::Low, Vec::new())
    }

    /// An emergency stop, identifier 0x9999 at emergency priority with
    /// one parameter byte.
    pub fn emergency_stop() -> (r: Self)
        ensures
            r.command_id == 0x9999,
            r.priority == MessagePriority::Emergency,
            r.parameters@ =~= seq![0x01u8],
    {
        let mut parameters: Vec<u8> = Vec::new();
        parameters.push(0x01);
        Self::new(0x9999, MessagePriority::Emergency, parameters)
    }

    /// A band switch, identifier 0x2001 at high priority, carrying the
    /// wire code of the band to switch to.
    pub fn switch_band(band: BandType) -> (r: Self)
        ensures
            r.command_id == 0x2001,
            r.priority == MessagePriority::High,
            r.parameters@ =~= seq![band.code()],
    {
        let mut parameters: Vec<u8> = Vec::new();
        parameters.push(band.code_value());
        Self::new(0x2001, MessagePriority::High, parameters)
    }
}

} // verus!
