//! Model of the decoded telemetry stream.
//!
//! Frames are decoded by the external telemetry codec before they reach
//! this crate; here every message is a plain value.  The session cares
//! about four message kinds and routes every other kind through a default
//! "log and ignore" arm, so the model keeps those four as typed variants
//! and everything else as an opaque message identifier.

use vstd::prelude::*;

verus! {

/// Sender header of a received frame.
#[derive(Clone, Copy, PartialEq, Debug)]
pub struct MessageHeader {
    pub system_id: u8,
    pub component_id: u8,
    pub sequence: u8,
}

/// Bit of the heartbeat mode-flags field that carries the arm state.
pub const SAFETY_ARMED_FLAG: u8 = 128;

/// Periodic status message carrying arm state and sender identity.
#[derive(Clone, Copy, PartialEq, Debug)]
pub struct HeartbeatData {
    pub custom_mode: u32,
    pub mavtype: u8,
    pub autopilot: u8,
    /// Mode-flags bitfield; bit [`SAFETY_ARMED_FLAG`] is the arm state.
    pub base_mode: u8,
    pub system_status: u8,
    pub mavlink_version: u8,
}

impl HeartbeatData {
    /// Whether the mode-flags field carries the safety-armed bit.
    pub open spec fn spec_armed(self) -> bool {
        self.base_mode & SAFETY_ARMED_FLAG != 0
    }

    /// Read the arm state out of the mode-flags bitfield.
    pub fn armed(&self) -> (armed: bool)
        ensures
            armed == self.spec_armed(),
    {
        self.base_mode & SAFETY_ARMED_FLAG != 0
    }
}

/// A named configuration value reported by the vehicle.
///
/// The identifier is a fixed 16-byte field, zero-padded; its decoded form
/// is the identifier with the zero bytes dropped.  The reported value is
/// carried as its raw bit pattern, opaque to this crate.
#[derive(Clone, Copy, PartialEq, Debug)]
pub struct ParamValue {
    /// Zero-padded identifier bytes.
    pub param_id: [u8; 16],
    /// Bit pattern of the reported value.
    pub param_value_bits: u32,
    /// Wire code of the value's type.
    pub param_type: u8,
    /// Total number of parameters on the vehicle.
    pub param_count: u16,
    /// Index of this parameter in the vehicle's enumeration.
    pub param_index: u16,
}

/// One waypoint or command of the vehicle's stored mission, identified by
/// its sequence number.  Coordinates are carried as raw values; the
/// altitude is kept as its bit pattern, opaque to this crate.
#[derive(Clone, Copy, PartialEq, Debug)]
pub struct MissionItem {
    /// Position of the item in the mission; at most one entry per number.
    pub seq: u16,
    /// Wire code of the command.
    pub command: u16,
    /// Wire code of the coordinate frame.
    pub frame: u8,
    pub x: i32,
    pub y: i32,
    /// Bit pattern of the altitude value.
    pub z_bits: u32,
}

/// A decoded, typed unit of data received from the vehicle link.
///
/// The variants are the message kinds the session model reacts to; every
/// other kind of the wire catalogue arrives as [`TelemetryMessage::Other`]
/// with its message identifier, is appended to the raw log, and is
/// otherwise ignored.
#[derive(Clone, Copy, PartialEq, Debug)]
pub enum TelemetryMessage {
    Heartbeat(HeartbeatData),
    ParamValue(ParamValue),
    MissionCount(u16),
    MissionItemInt(MissionItem),
    Other(u32),
}

/// System identifier the protocol drivers address their requests to.
pub const DEFAULT_TARGET_SYSTEM: u8 = 1;

/// Component identifier the protocol drivers address their requests to.
pub const DEFAULT_TARGET_COMPONENT: u8 = 1;

/// A request issued by a protocol driver over the transport.  The crate
/// decides which requests to send; the transport collaborator encodes and
/// sends them.
#[derive(Clone, Copy, PartialEq, Debug)]
pub enum RequestMessage {
    /// Ask the vehicle for its full parameter list.
    ParamRequestList { target_system: u8, target_component: u8 },
    /// Ask the vehicle for the number of stored mission items.
    MissionRequestList { target_system: u8, target_component: u8 },
    /// Ask the vehicle for the mission item with the given sequence number.
    MissionRequestInt { target_system: u8, target_component: u8, seq: u16 },
}

/// Severity class of a status-text message, as the wire protocol grades it.
#[derive(Clone, Copy, PartialEq, Eq, Structural, Debug)]
pub enum Severity {
    Emergency,
    Alert,
    Critical,
    Error,
    Warning,
    Notice,
    Info,
    Debug,
}

impl Severity {
    /// The display label of this severity class.
    pub open spec fn spec_label(self) -> Seq<char> {
        match self {
            Severity::Emergency => "EMERGENCY"@,
            Severity::Alert => "ALERT"@,
            Severity::Critical => "CRITICAL"@,
            Severity::Error => "ERROR"@,
            Severity::Warning => "WARNING"@,
            Severity::Notice => "NOTICE"@,
            Severity::Info => "INFO"@,
            Severity::Debug => "DEBUG"@,
        }
    }
}

/// The human-readable label of a severity class.
pub fn parse_severity(severity: Severity) -> (label: String)
    ensures
        label@ == severity.spec_label(),
{
    match severity {
        Severity::Emergency => String::from_str("EMERGENCY"),
        Severity::Alert => String::from_str("ALERT"),
        Severity::Critical => String::from_str("CRITICAL"),
        Severity::Error => String::from_str("ERROR"),
        Severity::Warning => String::from_str("WARNING"),
        Severity::Notice => String::from_str("NOTICE"),
        Severity::Info => String::from_str("INFO"),
        Severity::Debug => String::from_str("DEBUG"),
    }
}

} // verus!
