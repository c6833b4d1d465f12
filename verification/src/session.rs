//! The session loop's decisions.
//!
//! The loop itself lives with the terminal collaborator: it blocks on the
//! merged event channel, hands each event to one of the functions here,
//! then performs what they decided — sending the owed requests and, when
//! permitted, asking the renderer for a redraw.  Input events always earn
//! a redraw; telemetry events earn one only when the rate limiter permits
//! it.

use vstd::prelude::*;

use crate::limiter::FPSLimiter;
use crate::mission::MissionDetails;
use crate::mission::request_mission_count;
use crate::msg::DEFAULT_TARGET_COMPONENT;
use crate::msg::DEFAULT_TARGET_SYSTEM;
use crate::msg::MessageHeader;
use crate::msg::RequestMessage;
use crate::msg::TelemetryMessage;
use crate::params::request_parameters;
use crate::screen::Screen;
use crate::state::AppState;
use crate::vehicle::VehicleState;
use crate::vehicle::telemetry_transition;

verus! {

/// What entering the active screen owes: the first visit of the
/// Parameters or Mission screen in an enumeration cycle starts that
/// screen's sync — it records the request time and owes the opening
/// request — provided the link is live.  Later visits, the other screens,
/// and a dead link owe nothing and change nothing.
pub open spec fn entry_transition(
    pre: AppState,
    post: AppState,
    now: u64,
    request: Option<RequestMessage>,
) -> bool {
    if pre.screen == Screen::Parameters && pre.vehicle.last_parameters_request is None
        && pre.vehicle.connected {
        &&& post == AppState {
            vehicle: VehicleState { last_parameters_request: Some(now), ..pre.vehicle },
            ..pre
        }
        &&& request == Some(
            RequestMessage::ParamRequestList {
                target_system: DEFAULT_TARGET_SYSTEM,
                target_component: DEFAULT_TARGET_COMPONENT,
            },
        )
    } else if pre.screen == Screen::Mission && pre.vehicle.mission_details.last_mission_request
        is None && pre.vehicle.connected {
        &&& post == AppState {
            vehicle: VehicleState {
                mission_details: MissionDetails {
                    last_mission_request: Some(now),
                    ..pre.vehicle.mission_details
                },
                ..pre.vehicle
            },
            ..pre
        }
        &&& request == Some(
            RequestMessage::MissionRequestList {
                target_system: DEFAULT_TARGET_SYSTEM,
                target_component: DEFAULT_TARGET_COMPONENT,
            },
        )
    } else {
        &&& post == pre
        &&& request is None
    }
}

/// The refresh-on-entry check that follows every input event: start the
/// active screen's sync if it has none running yet.  The request sentinel
/// guards re-triggering — visiting the screen again without a reset owes
/// nothing.
pub fn screen_entry_request(state: &mut AppState, now: u64) -> (request: Option<RequestMessage>)
    requires
        old(state).wf(),
    ensures
        final(state).wf(),
        entry_transition(*old(state), *final(state), now, request),
{
    match state.screen {
        Screen::Parameters => {
            if state.vehicle.last_parameters_request.is_none() && state.vehicle.connected {
                state.vehicle.last_parameters_request = Some(now);
                Some(request_parameters())
            } else {
                None
            }
        },
        Screen::Mission => {
            if state.vehicle.mission_details.last_mission_request.is_none()
                && state.vehicle.connected {
                state.vehicle.mission_details.last_mission_request = Some(now);
                Some(request_mission_count())
            } else {
                None
            }
        },
        _ => None,
    }
}

/// Consume one telemetry event: apply it to the vehicle model, collect
/// the requests it owes, and ask the rate limiter whether this event may
/// trigger a redraw.  Selections, the active screen and the exit flag are
/// untouched by telemetry.
pub fn handle_telemetry_event(
    state: &mut AppState,
    limiter: &mut FPSLimiter,
    header: MessageHeader,
    msg: TelemetryMessage,
    now: u64,
) -> (r: (Vec<RequestMessage>, bool))
    requires
        old(state).wf(),
        old(limiter).wf(),
        now + old(limiter).refresh_rate <= u64::MAX,
    ensures
        final(state).wf(),
        final(limiter).wf(),
        telemetry_transition(old(state).vehicle, final(state).vehicle, header, msg, r.0@),
        final(state).args == old(state).args,
        final(state).messages_selected == old(state).messages_selected,
        final(state).parameters_selected == old(state).parameters_selected,
        final(state).mission_selected == old(state).mission_selected,
        final(state).is_exit == old(state).is_exit,
        final(state).screen == old(state).screen,
        r.1 == old(limiter).permits(now),
        r.1 ==> *final(limiter) == old(limiter).rescheduled(now),
        !r.1 ==> *final(limiter) == *old(limiter),
{
    let requests = state.vehicle.apply_telemetry(header, msg);
    let redraw = limiter.check_allowed(now);
    (requests, redraw)
}

} // verus!
