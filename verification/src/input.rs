//! Operator input and the key bindings.
//!
//! The terminal collaborator reads raw input events and hands them in as
//! plain values of [`InputEvent`]; this module applies the dashboard's key
//! bindings to the session state.  Input-triggered work never blocks and
//! is never throttled.

use vstd::prelude::*;

use crate::screen::Screen;
use crate::state::AppState;
use crate::state::PAGE_STEP;
use crate::state::mission_reset;
use crate::state::params_reset;
use crate::state::spec_backward_one;
use crate::state::spec_forward_one;
use crate::state::spec_last_row;
use crate::state::spec_page_backward;
use crate::state::spec_page_forward;

verus! {

/// The keys the dashboard reacts to; everything else arrives as
/// [`Key::Other`] and is ignored.
#[derive(Clone, Copy, PartialEq, Eq, Structural, Debug)]
pub enum Key {
    Char(char),
    Esc,
    Up,
    Down,
    Home,
    End,
    PageUp,
    PageDown,
    Tab,
    Other,
}

/// One key press, with the state of the control modifier.
#[derive(Clone, Copy, PartialEq, Eq, Structural, Debug)]
pub struct KeyPress {
    pub code: Key,
    pub ctrl: bool,
}

/// One operator input event.  Non-key terminal events (such as a resize)
/// arrive as [`InputEvent::Other`]: they change nothing but still earn the
/// unconditional redraw that follows every input event.
#[derive(Clone, Copy, PartialEq, Eq, Structural, Debug)]
pub enum InputEvent {
    Key(KeyPress),
    Other,
}

/// How the session state answers one input event:
/// `q`, `Escape` and control-`c` request quitting; `j`/`k` and the arrow
/// keys move the active selection by one row; `Home`/`End` jump to the
/// first and last row; the page keys move by [`PAGE_STEP`] rows, floored
/// at the first row and ceiled at the list's length; `Tab` cycles the
/// active screen; `r` resets the Parameters or Mission screen's collected
/// data and is a no-op elsewhere.  Every other event leaves the state
/// unchanged.
pub open spec fn input_transition(pre: AppState, post: AppState, event: InputEvent) -> bool {
    match event {
        InputEvent::Key(key) => match key.code {
            Key::Char(c) => {
                if c == 'q' {
                    post == AppState { is_exit: true, ..pre }
                } else if c == 'c' {
                    if key.ctrl {
                        post == AppState { is_exit: true, ..pre }
                    } else {
                        post == pre
                    }
                } else if c == 'j' {
                    post == pre.with_active_selection(
                        spec_forward_one(pre.active_selection(), pre.active_len()) as usize,
                    )
                } else if c == 'k' {
                    post == pre.with_active_selection(
                        spec_backward_one(pre.active_selection()) as usize,
                    )
                } else if c == 'r' {
                    match pre.screen {
                        Screen::Parameters => params_reset(pre, post),
                        Screen::Mission => mission_reset(pre, post),
                        _ => post == pre,
                    }
                } else {
                    post == pre
                }
            },
            Key::Esc => post == AppState { is_exit: true, ..pre },
            Key::Up => post == pre.with_active_selection(
                spec_backward_one(pre.active_selection()) as usize,
            ),
            Key::Down => post == pre.with_active_selection(
                spec_forward_one(pre.active_selection(), pre.active_len()) as usize,
            ),
            Key::Home => post == pre.with_active_selection(0),
            Key::End => post == pre.with_active_selection(spec_last_row(pre.active_len()) as usize),
            Key::PageUp => post == pre.with_active_selection(
                spec_page_backward(pre.active_selection()) as usize,
            ),
            Key::PageDown => post == pre.with_active_selection(
                spec_page_forward(pre.active_selection(), pre.active_len()) as usize,
            ),
            Key::Tab => post == AppState { screen: pre.screen.spec_next(), ..pre },
            Key::Other => post == pre,
        },
        InputEvent::Other => post == pre,
    }
}

/// The length of the active screen's list.
fn active_len(state: &AppState) -> (len: usize)
    ensures
        len == state.active_len(),
{
    match state.screen {
        Screen::Status => 0,
        Screen::Messages => state.vehicle.messages.len(),
        Screen::Parameters => state.vehicle.parameter_messages.len(),
        Screen::Mission => state.vehicle.mission_details.mission_messages.len(),
    }
}

/// The selected row of the active screen's list.
fn active_selection(state: &AppState) -> (sel: usize)
    ensures
        sel == state.active_selection(),
{
    match state.screen {
        Screen::Status => 0,
        Screen::Messages => state.messages_selected,
        Screen::Parameters => state.parameters_selected,
        Screen::Mission => state.mission_selected,
    }
}

/// Move the active screen's selection to `sel`; a no-op on the Status
/// screen, which has no list.
fn set_active_selection(state: &mut AppState, sel: usize)
    requires
        old(state).wf(),
        sel <= old(state).active_len(),
    ensures
        final(state).wf(),
        *final(state) == old(state).with_active_selection(sel),
{
    match state.screen {
        Screen::Status => {},
        Screen::Messages => {
            state.messages_selected = sel;
        },
        Screen::Parameters => {
            state.parameters_selected = sel;
        },
        Screen::Mission => {
            state.mission_selected = sel;
        },
    }
}

/// Moving one row forward, staying within the index range.
fn forward_one(sel: usize, len: usize) -> (r: usize)
    requires
        sel <= len,
    ensures
        r == spec_forward_one(sel as nat, len as nat),
        r <= len,
{
    if len == 0 {
        0
    } else if sel < len - 1 {
        sel + 1
    } else {
        len - 1
    }
}

/// Moving one row backward, stopping at the first row.
fn backward_one(sel: usize) -> (r: usize)
    ensures
        r == spec_backward_one(sel as nat),
        r <= sel,
{
    if sel == 0 {
        0
    } else {
        sel - 1
    }
}

/// The last selectable row of a list.
fn last_row(len: usize) -> (r: usize)
    ensures
        r == spec_last_row(len as nat),
        r <= len,
{
    if len == 0 {
        0
    } else {
        len - 1
    }
}

/// Paging forward, with the list's length as the ceiling.
fn page_forward(sel: usize, len: usize) -> (r: usize)
    requires
        sel <= len,
    ensures
        r == spec_page_forward(sel as nat, len as nat),
        r <= len,
{
    if len - sel >= PAGE_STEP {
        sel + PAGE_STEP
    } else {
        len
    }
}

/// Paging backward, with the first row as the floor.
fn page_backward(sel: usize) -> (r: usize)
    ensures
        r == spec_page_backward(sel as nat),
        r <= sel,
{
    if sel >= PAGE_STEP {
        sel - PAGE_STEP
    } else {
        0
    }
}

/// Apply one input event to the session state, per the dashboard's key
/// bindings.
pub fn handle_input_event(state: &mut AppState, event: InputEvent)
    requires
        old(state).wf(),
    ensures
        final(state).wf(),
        input_transition(*old(state), *final(state), event),
{
    match event {
        InputEvent::Key(key) => {
            match key.code {
                Key::Char(c) => {
                    match c {
                        'q' => {
                            state.is_exit = true;
                        },
                        'c' => {
                            if key.ctrl {
                                state.is_exit = true;
                            }
                        },
                        'j' => {
                            let len = active_len(state);
                            let sel = active_selection(state);
                            let next = forward_one(sel, len);
                            set_active_selection(state, next);
                        },
                        'k' => {
                            let sel = active_selection(state);
                            let next = backward_one(sel);
                            set_active_selection(state, next);
                        },
                        'r' => {
                            match state.screen {
                                Screen::Parameters => {
                                    state.clear_parameters();
                                },
                                Screen::Mission => {
                                    state.clear_mission();
                                },
                                _ => {},
                            }
                        },
                        _ => {},
                    }
                },
                Key::Esc => {
                    state.is_exit = true;
                },
                Key::Up => {
                    let sel = active_selection(state);
                    let next = backward_one(sel);
                    set_active_selection(state, next);
                },
                Key::Down => {
                    let len = active_len(state);
                    let sel = active_selection(state);
                    let next = forward_one(sel, len);
                    set_active_selection(state, next);
                },
                Key::Home => {
                    set_active_selection(state, 0);
                },
                Key::End => {
                    let len = active_len(state);
                    let last = last_row(len);
                    set_active_selection(state, last);
                },
                Key::PageUp => {
                    let sel = active_selection(state);
                    let next = page_backward(sel);
                    set_active_selection(state, next);
                },
                Key::PageDown => {
                    let len = active_len(state);
                    let sel = active_selection(state);
                    let next = page_forward(sel, len);
                    set_active_selection(state, next);
                },
                Key::Tab => {
                    state.screen = state.screen.next();
                },
                Key::Other => {},
            }
        },
        InputEvent::Other => {},
    }
}

} // verus!
