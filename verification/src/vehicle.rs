//! The authoritative in-memory model of the remote vehicle.
//!
//! The vehicle state has a single mutation entry point,
//! [`VehicleState::apply_telemetry`], which the session loop calls for one
//! telemetry event at a time, in arrival order.  Every message is appended
//! to the raw log; the four recognised message kinds additionally update
//! their part of the model, and a mission-count reply makes the mission
//! driver owe follow-up requests.

use vstd::prelude::*;

use crate::mission::MissionDetails;
use crate::mission::mission_upserted;
use crate::mission::spec_mission_requests;
use crate::mission::synchronise_mission_items;
use crate::mission::upsert_mission_item;
use crate::msg::MessageHeader;
use crate::msg::ParamValue;
use crate::msg::RequestMessage;
use crate::msg::TelemetryMessage;
use crate::params::param_upserted;
use crate::params::params_sorted;
use crate::params::upsert_parameter;

verus! {

/// Identity of the vehicle, learned from a heartbeat's sender header.
#[derive(Clone, Copy, PartialEq, Debug)]
pub struct TargetDetails {
    pub target_system_id: u8,
    pub target_component_id: u8,
}

/// Everything known about the remote vehicle this session.
///
/// The state is owned by the session loop and mutated only there; the
/// rendering collaborator reads a snapshot of it between events.
pub struct VehicleState {
    /// Append-only log of every decoded message received this session.
    pub messages: Vec<TelemetryMessage>,
    /// The parameters received so far, sorted by decoded identifier.
    pub parameter_messages: Vec<ParamValue>,
    /// Last known arm state, updated from each heartbeat.
    pub is_armed: bool,
    /// When the current parameter enumeration was started; `None` until
    /// the Parameters screen first asks, and again after a reset.
    pub last_parameters_request: Option<u64>,
    /// Whether the transport link was opened; when `false` the protocol
    /// drivers stay permanently inert.
    pub connected: bool,
    /// The vehicle's identity, set from the most recent heartbeat.
    pub target_details: Option<TargetDetails>,
    /// Everything known about the vehicle's stored mission.
    pub mission_details: MissionDetails,
}

impl VehicleState {
    /// Both keyed collections are strictly sorted by their key.
    pub open spec fn wf(self) -> bool {
        &&& params_sorted(self.parameter_messages@)
        &&& self.mission_details.wf()
    }

    /// A fresh vehicle model: nothing received yet.  `connected` records
    /// whether the transport link could be opened.
    pub fn new(connected: bool) -> (vehicle: VehicleState)
        ensures
            vehicle.wf(),
            vehicle.messages@.len() == 0,
            vehicle.parameter_messages@.len() == 0,
            !vehicle.is_armed,
            vehicle.last_parameters_request is None,
            vehicle.connected == connected,
            vehicle.target_details is None,
            vehicle.mission_details.mission_messages@.len() == 0,
            vehicle.mission_details.last_mission_request is None,
            vehicle.mission_details.mission_items_to_load_num is None,
    {
        VehicleState {
            messages: Vec::new(),
            parameter_messages: Vec::new(),
            is_armed: false,
            last_parameters_request: None,
            connected,
            target_details: None,
            mission_details: MissionDetails::new(),
        }
    }

    /// Consume one telemetry event.  The returned requests are owed to the
    /// transport; they are non-empty only for a mission-count reply on a
    /// live link.
    pub fn apply_telemetry(
        &mut self,
        header: MessageHeader,
        msg: TelemetryMessage,
    ) -> (requests: Vec<RequestMessage>)
        requires
            old(self).wf(),
        ensures
            final(self).wf(),
            telemetry_transition(*old(self), *final(self), header, msg, requests@),
    {
        self.messages.push(msg);
        match msg {
            TelemetryMessage::Heartbeat(heartbeat) => {
                self.is_armed = heartbeat.armed();
                self.target_details = Some(
                    TargetDetails {
                        target_system_id: header.system_id,
                        target_component_id: header.component_id,
                    },
                );
                Vec::new()
            },
            TelemetryMessage::ParamValue(param) => {
                upsert_parameter(&mut self.parameter_messages, param);
                Vec::new()
            },
            TelemetryMessage::MissionCount(count) => {
                self.mission_details.mission_items_to_load_num = Some(count);
                if self.connected {
                    synchronise_mission_items(&self.mission_details)
                } else {
                    Vec::new()
                }
            },
            TelemetryMessage::MissionItemInt(item) => {
                upsert_mission_item(&mut self.mission_details.mission_messages, item);
                Vec::new()
            },
            TelemetryMessage::Other(_) => Vec::new(),
        }
    }
}

/// How the vehicle model answers one telemetry event: the message is
/// appended to the raw log; a heartbeat refreshes arm state and identity;
/// a parameter or mission-item reply is merged into its collection; a
/// mission-count reply records the expected total and, on a live link,
/// owes the outstanding item requests; every other message is only
/// logged.  Fields not named by a case keep their value.
pub open spec fn telemetry_transition(
    pre: VehicleState,
    post: VehicleState,
    header: MessageHeader,
    msg: TelemetryMessage,
    requests: Seq<RequestMessage>,
) -> bool {
    &&& post.messages@ == pre.messages@.push(msg)
    &&& post.connected == pre.connected
    &&& post.last_parameters_request == pre.last_parameters_request
    &&& post.mission_details.last_mission_request == pre.mission_details.last_mission_request
    &&& match msg {
        TelemetryMessage::Heartbeat(heartbeat) => {
            &&& post.is_armed == heartbeat.spec_armed()
            &&& post.target_details == Some(
                TargetDetails {
                    target_system_id: header.system_id,
                    target_component_id: header.component_id,
                },
            )
            &&& post.parameter_messages == pre.parameter_messages
            &&& post.mission_details == pre.mission_details
            &&& requests.len() == 0
        },
        TelemetryMessage::ParamValue(param) => {
            &&& post.is_armed == pre.is_armed
            &&& post.target_details == pre.target_details
            &&& param_upserted(pre.parameter_messages@, post.parameter_messages@, param)
            &&& post.mission_details == pre.mission_details
            &&& requests.len() == 0
        },
        TelemetryMessage::MissionCount(count) => {
            &&& post.is_armed == pre.is_armed
            &&& post.target_details == pre.target_details
            &&& post.parameter_messages == pre.parameter_messages
            &&& post.mission_details.mission_messages == pre.mission_details.mission_messages
            &&& post.mission_details.mission_items_to_load_num == Some(count)
            &&& pre.connected ==> requests == spec_mission_requests(
                Some(count),
                pre.mission_details.mission_messages@.len(),
            )
            &&& !pre.connected ==> requests.len() == 0
        },
        TelemetryMessage::MissionItemInt(item) => {
            &&& post.is_armed == pre.is_armed
            &&& post.target_details == pre.target_details
            &&& post.parameter_messages == pre.parameter_messages
            &&& mission_upserted(
                pre.mission_details.mission_messages@,
                post.mission_details.mission_messages@,
                item,
            )
            &&& post.mission_details.mission_items_to_load_num
                == pre.mission_details.mission_items_to_load_num
            &&& requests.len() == 0
        },
        TelemetryMessage::Other(_) => {
            &&& post.is_armed == pre.is_armed
            &&& post.target_details == pre.target_details
            &&& post.parameter_messages == pre.parameter_messages
            &&& post.mission_details == pre.mission_details
            &&& requests.len() == 0
        },
    }
}

} // verus!
