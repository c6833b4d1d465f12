//! The session's whole state: vehicle model, active screen, and the
//! selected row of each list-bearing screen.
//!
//! Selections are clamped, never wrapped: stepping moves within the list's
//! index range, paging by [`PAGE_STEP`] rows may rest one past the last
//! index (at the list's length) but never beyond it, and a reset snaps the
//! affected screen's selection back to the first row.  The Status screen
//! has no list; every list operation leaves the state unchanged there.

use vstd::prelude::*;

use crate::Args;
use crate::msg::ParamValue;
use crate::msg::TelemetryMessage;
use crate::screen::Screen;
use crate::vehicle::VehicleState;

verus! {

/// Number of rows one page jump moves the selection.
pub const PAGE_STEP: usize = 20;

/// The dashboard's session state.
pub struct AppState {
    /// The connection address the session was started with.
    pub args: Args,
    /// Everything known about the remote vehicle.
    pub vehicle: VehicleState,
    /// Selected row of the Messages screen.
    pub messages_selected: usize,
    /// Selected row of the Parameters screen.
    pub parameters_selected: usize,
    /// Selected row of the Mission screen.
    pub mission_selected: usize,
    /// Set by a quit request; the session loop drains no further events.
    pub is_exit: bool,
    /// The active screen.
    pub screen: Screen,
}

/// Moving one row forward, staying within the index range.
pub open spec fn spec_forward_one(sel: nat, len: nat) -> nat {
    if len == 0 {
        0
    } else if sel + 1 < len {
        sel + 1
    } else {
        (len - 1) as nat
    }
}

/// Moving one row backward, stopping at the first row.
pub open spec fn spec_backward_one(sel: nat) -> nat {
    if sel == 0 {
        0
    } else {
        (sel - 1) as nat
    }
}

/// The last selectable row of a list.
pub open spec fn spec_last_row(len: nat) -> nat {
    if len == 0 {
        0
    } else {
        (len - 1) as nat
    }
}

/// Paging forward, with the list's length as the ceiling.
pub open spec fn spec_page_forward(sel: nat, len: nat) -> nat {
    if sel + PAGE_STEP <= len {
        (sel + PAGE_STEP) as nat
    } else {
        len
    }
}

/// Paging backward, with the first row as the floor.
pub open spec fn spec_page_backward(sel: nat) -> nat {
    if sel >= PAGE_STEP {
        (sel - PAGE_STEP) as nat
    } else {
        0
    }
}

impl AppState {
    /// The vehicle model is well formed and every selection lies within
    /// its screen's list, at most one past the last index.
    pub open spec fn wf(self) -> bool {
        &&& self.vehicle.wf()
        &&& self.messages_selected <= self.vehicle.messages@.len()
        &&& self.parameters_selected <= self.vehicle.parameter_messages@.len()
        &&& self.mission_selected <= self.vehicle.mission_details.mission_messages@.len()
    }

    /// The length of the active screen's list; the Status screen has none.
    pub open spec fn active_len(self) -> nat {
        match self.screen {
            Screen::Status => 0,
            Screen::Messages => self.vehicle.messages@.len(),
            Screen::Parameters => self.vehicle.parameter_messages@.len(),
            Screen::Mission => self.vehicle.mission_details.mission_messages@.len(),
        }
    }

    /// The selected row of the active screen's list.
    pub open spec fn active_selection(self) -> nat {
        match self.screen {
            Screen::Status => 0,
            Screen::Messages => self.messages_selected as nat,
            Screen::Parameters => self.parameters_selected as nat,
            Screen::Mission => self.mission_selected as nat,
        }
    }

    /// The state with the active screen's selection moved to `sel`; the
    /// Status screen has no list, so nothing changes there.
    pub open spec fn with_active_selection(self, sel: usize) -> AppState {
        match self.screen {
            Screen::Status => self,
            Screen::Messages => AppState { messages_selected: sel, ..self },
            Screen::Parameters => AppState { parameters_selected: sel, ..self },
            Screen::Mission => AppState { mission_selected: sel, ..self },
        }
    }

    /// The session state at startup: the given vehicle model, the Status
    /// screen active, every selection on the first row, not exiting.
    pub fn default(args: Args, vehicle: VehicleState) -> (state: AppState)
        requires
            vehicle.wf(),
        ensures
            state.wf(),
            state.args == args,
            state.vehicle == vehicle,
            state.messages_selected == 0,
            state.parameters_selected == 0,
            state.mission_selected == 0,
            !state.is_exit,
            state.screen == Screen::Status,
    {
        AppState {
            args,
            vehicle,
            messages_selected: 0,
            parameters_selected: 0,
            mission_selected: 0,
            is_exit: false,
            screen: Screen::Status,
        }
    }

    /// The message under the Messages screen's selection, if the selection
    /// rests on one.
    pub fn get_selected_message(&self) -> (message: Option<TelemetryMessage>)
        ensures
            message == if self.messages_selected < self.vehicle.messages@.len() {
                Some(self.vehicle.messages@[self.messages_selected as int])
            } else {
                Option::<TelemetryMessage>::None
            },
    {
        if self.messages_selected < self.vehicle.messages.len() {
            Some(self.vehicle.messages[self.messages_selected])
        } else {
            None
        }
    }

    /// The parameter under the Parameters screen's selection, if the
    /// selection rests on one.
    pub fn get_selected_parameter(&self) -> (parameter: Option<ParamValue>)
        ensures
            parameter == if self.parameters_selected < self.vehicle.parameter_messages@.len() {
                Some(self.vehicle.parameter_messages@[self.parameters_selected as int])
            } else {
                Option::<ParamValue>::None
            },
    {
        if self.parameters_selected < self.vehicle.parameter_messages.len() {
            Some(self.vehicle.parameter_messages[self.parameters_selected])
        } else {
            None
        }
    }

    /// Operator reset of the Parameters screen: drop the collected
    /// parameters, clear the enumeration sentinel so the next screen visit
    /// requests again, and snap the selection to the first row.
    pub fn clear_parameters(&mut self)
        requires
            old(self).wf(),
        ensures
            final(self).wf(),
            params_reset(*old(self), *final(self)),
    {
        self.vehicle.parameter_messages.clear();
        self.vehicle.last_parameters_request = None;
        self.parameters_selected = 0;
    }

    /// Operator reset of the Mission screen: drop the collected items and
    /// the announced count, clear the request sentinel so the next screen
    /// visit requests again, and snap the selection to the first row.
    pub fn clear_mission(&mut self)
        requires
            old(self).wf(),
        ensures
            final(self).wf(),
            mission_reset(*old(self), *final(self)),
    {
        self.vehicle.mission_details.mission_messages.clear();
        self.vehicle.mission_details.last_mission_request = None;
        self.vehicle.mission_details.mission_items_to_load_num = None;
        self.mission_selected = 0;
    }
}

/// How a Parameters reset changes the state: the parameter collection is
/// emptied, its request sentinel cleared and its selection snapped to the
/// first row; everything else keeps its value.
pub open spec fn params_reset(pre: AppState, post: AppState) -> bool {
    &&& post.vehicle.parameter_messages@.len() == 0
    &&& post.vehicle.last_parameters_request is None
    &&& post.parameters_selected == 0
    &&& post.args == pre.args
    &&& post.vehicle.messages == pre.vehicle.messages
    &&& post.vehicle.is_armed == pre.vehicle.is_armed
    &&& post.vehicle.connected == pre.vehicle.connected
    &&& post.vehicle.target_details == pre.vehicle.target_details
    &&& post.vehicle.mission_details == pre.vehicle.mission_details
    &&& post.messages_selected == pre.messages_selected
    &&& post.mission_selected == pre.mission_selected
    &&& post.is_exit == pre.is_exit
    &&& post.screen == pre.screen
}

/// How a Mission reset changes the state: the mission collection and the
/// announced count are dropped, the request sentinel cleared and the
/// selection snapped to the first row; everything else keeps its value.
pub open spec fn mission_reset(pre: AppState, post: AppState) -> bool {
    &&& post.vehicle.mission_details.mission_messages@.len() == 0
    &&& post.vehicle.mission_details.last_mission_request is None
    &&& post.vehicle.mission_details.mission_items_to_load_num is None
    &&& post.mission_selected == 0
    &&& post.args == pre.args
    &&& post.vehicle.messages == pre.vehicle.messages
    &&& post.vehicle.parameter_messages == pre.vehicle.parameter_messages
    &&& post.vehicle.is_armed == pre.vehicle.is_armed
    &&& post.vehicle.connected == pre.vehicle.connected
    &&& post.vehicle.target_details == pre.vehicle.target_details
    &&& post.vehicle.last_parameters_request == pre.vehicle.last_parameters_request
    &&& post.messages_selected == pre.messages_selected
    &&& post.parameters_selected == pre.parameters_selected
    &&& post.is_exit == pre.is_exit
    &&& post.screen == pre.screen
}

} // verus!
