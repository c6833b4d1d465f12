use mavlink_debugger::Args;
use mavlink_debugger::input::InputEvent;
use mavlink_debugger::input::Key;
use mavlink_debugger::input::KeyPress;
use mavlink_debugger::input::handle_input_event;
use mavlink_debugger::limiter::FPSLimiter;
use mavlink_debugger::msg::HeartbeatData;
use mavlink_debugger::msg::MessageHeader;
use mavlink_debugger::msg::MissionItem;
use mavlink_debugger::msg::ParamValue;
use mavlink_debugger::msg::RequestMessage;
use mavlink_debugger::msg::SAFETY_ARMED_FLAG;
use mavlink_debugger::msg::TelemetryMessage;
use mavlink_debugger::screen::Screen;
use mavlink_debugger::session::handle_telemetry_event;
use mavlink_debugger::session::screen_entry_request;
use mavlink_debugger::state::AppState;
use mavlink_debugger::vehicle::VehicleState;

fn fresh_state(connected: bool) -> AppState {
    let args = Args { address: "udpin:0.0.0.0:14550".to_string() };
    AppState::default(args, VehicleState::new(connected))
}

fn key(code: Key) -> InputEvent {
    InputEvent::Key(KeyPress { code, ctrl: false })
}

fn header() -> MessageHeader {
    MessageHeader { system_id: 1, component_id: 1, sequence: 0 }
}

fn heartbeat(base_mode: u8) -> TelemetryMessage {
    TelemetryMessage::Heartbeat(HeartbeatData {
        custom_mode: 0,
        mavtype: 2,
        autopilot: 3,
        base_mode,
        system_status: 4,
        mavlink_version: 3,
    })
}

fn other_messages(state: &mut AppState, limiter: &mut FPSLimiter, n: usize) {
    for k in 0..n {
        handle_telemetry_event(state, limiter, header(), TelemetryMessage::Other(k as u32), 0);
    }
}

#[test]
fn four_tabs_return_to_status() {
    let mut state = fresh_state(false);
    assert_eq!(state.screen, Screen::Status);
    for _ in 0..4 {
        handle_input_event(&mut state, key(Key::Tab));
    }
    assert_eq!(state.screen, Screen::Status);
}

#[test]
fn tab_cycles_in_order() {
    let mut state = fresh_state(false);
    handle_input_event(&mut state, key(Key::Tab));
    assert_eq!(state.screen, Screen::Messages);
    handle_input_event(&mut state, key(Key::Tab));
    assert_eq!(state.screen, Screen::Parameters);
    handle_input_event(&mut state, key(Key::Tab));
    assert_eq!(state.screen, Screen::Mission);
    handle_input_event(&mut state, key(Key::Tab));
    assert_eq!(state.screen, Screen::Status);
}

#[test]
fn page_keys_clamp_at_both_ends() {
    // a 10-item list with the selection at index 9: PageDown clamps to 10
    // (the length) and never past it; PageUp from 5 clamps to 0
    let mut state = fresh_state(false);
    let mut limiter = FPSLimiter::default(100);
    other_messages(&mut state, &mut limiter, 10);
    state.screen = Screen::Messages;
    state.messages_selected = 9;
    handle_input_event(&mut state, key(Key::PageDown));
    assert_eq!(state.messages_selected, 10);
    handle_input_event(&mut state, key(Key::PageDown));
    assert_eq!(state.messages_selected, 10);
    state.messages_selected = 5;
    handle_input_event(&mut state, key(Key::PageUp));
    assert_eq!(state.messages_selected, 0);
}

#[test]
fn step_keys_clamp_at_bounds() {
    let mut state = fresh_state(false);
    let mut limiter = FPSLimiter::default(100);
    other_messages(&mut state, &mut limiter, 3);
    state.screen = Screen::Messages;
    handle_input_event(&mut state, key(Key::Up));
    assert_eq!(state.messages_selected, 0);
    handle_input_event(&mut state, key(Key::Down));
    assert_eq!(state.messages_selected, 1);
    handle_input_event(&mut state, key(Key::End));
    assert_eq!(state.messages_selected, 2);
    handle_input_event(&mut state, key(Key::Down));
    assert_eq!(state.messages_selected, 2);
    handle_input_event(&mut state, key(Key::Home));
    assert_eq!(state.messages_selected, 0);
}

#[test]
fn list_keys_are_no_ops_on_status_screen() {
    let mut state = fresh_state(false);
    let mut limiter = FPSLimiter::default(100);
    other_messages(&mut state, &mut limiter, 5);
    assert_eq!(state.screen, Screen::Status);
    handle_input_event(&mut state, key(Key::Down));
    handle_input_event(&mut state, key(Key::PageDown));
    handle_input_event(&mut state, key(Key::End));
    assert_eq!(state.messages_selected, 0);
    assert_eq!(state.parameters_selected, 0);
    assert_eq!(state.mission_selected, 0);
}

#[test]
fn quit_keys_set_exit() {
    let mut state = fresh_state(false);
    handle_input_event(&mut state, key(Key::Char('q')));
    assert!(state.is_exit);

    let mut state = fresh_state(false);
    handle_input_event(&mut state, key(Key::Esc));
    assert!(state.is_exit);

    let mut state = fresh_state(false);
    handle_input_event(&mut state, InputEvent::Key(KeyPress { code: Key::Char('c'), ctrl: true }));
    assert!(state.is_exit);

    let mut state = fresh_state(false);
    handle_input_event(&mut state, key(Key::Char('c')));
    assert!(!state.is_exit);
}

#[test]
fn heartbeat_updates_arm_state_and_identity() {
    let mut state = fresh_state(true);
    let mut limiter = FPSLimiter::default(100);
    let sender = MessageHeader { system_id: 7, component_id: 9, sequence: 1 };
    let (requests, _) =
        handle_telemetry_event(&mut state, &mut limiter, sender, heartbeat(SAFETY_ARMED_FLAG), 0);
    assert!(requests.is_empty());
    assert!(state.vehicle.is_armed);
    let target = state.vehicle.target_details.unwrap();
    assert_eq!(target.target_system_id, 7);
    assert_eq!(target.target_component_id, 9);

    handle_telemetry_event(&mut state, &mut limiter, sender, heartbeat(0), 1);
    assert!(!state.vehicle.is_armed);
    assert_eq!(state.vehicle.messages.len(), 2);
}

#[test]
fn every_message_lands_in_the_log() {
    let mut state = fresh_state(true);
    let mut limiter = FPSLimiter::default(100);
    handle_telemetry_event(&mut state, &mut limiter, header(), TelemetryMessage::Other(331), 0);
    handle_telemetry_event(&mut state, &mut limiter, header(), heartbeat(0), 1);
    handle_telemetry_event(&mut state, &mut limiter, header(), TelemetryMessage::MissionCount(0), 2);
    assert_eq!(state.vehicle.messages.len(), 3);
    assert_eq!(state.vehicle.messages[0], TelemetryMessage::Other(331));
}

#[test]
fn mission_count_triggers_item_requests() {
    let mut state = fresh_state(true);
    let mut limiter = FPSLimiter::default(100);
    let (requests, _) =
        handle_telemetry_event(&mut state, &mut limiter, header(), TelemetryMessage::MissionCount(2), 0);
    assert_eq!(state.vehicle.mission_details.mission_items_to_load_num, Some(2));
    assert_eq!(requests.len(), 2);
    assert!(matches!(requests[0], RequestMessage::MissionRequestInt { seq: 0, .. }));
    assert!(matches!(requests[1], RequestMessage::MissionRequestInt { seq: 1, .. }));
}

#[test]
fn mission_count_is_quiet_without_connection() {
    let mut state = fresh_state(false);
    let mut limiter = FPSLimiter::default(100);
    let (requests, _) =
        handle_telemetry_event(&mut state, &mut limiter, header(), TelemetryMessage::MissionCount(2), 0);
    assert!(requests.is_empty());
    assert_eq!(state.vehicle.mission_details.mission_items_to_load_num, Some(2));
}

#[test]
fn telemetry_redraws_are_throttled() {
    let mut state = fresh_state(true);
    let mut limiter = FPSLimiter::default(100);
    let (_, first) =
        handle_telemetry_event(&mut state, &mut limiter, header(), TelemetryMessage::Other(0), 1_000_000);
    let (_, second) =
        handle_telemetry_event(&mut state, &mut limiter, header(), TelemetryMessage::Other(0), 1_000_001);
    let (_, third) =
        handle_telemetry_event(&mut state, &mut limiter, header(), TelemetryMessage::Other(0), 1_011_000);
    assert!(first);
    assert!(!second);
    assert!(third);
}

#[test]
fn entering_parameters_requests_once() {
    let mut state = fresh_state(true);
    state.screen = Screen::Parameters;
    let request = screen_entry_request(&mut state, 50);
    assert!(matches!(request, Some(RequestMessage::ParamRequestList { .. })));
    assert_eq!(state.vehicle.last_parameters_request, Some(50));
    // the sentinel guards re-triggering: a second visit owes nothing
    let request = screen_entry_request(&mut state, 60);
    assert!(request.is_none());
    assert_eq!(state.vehicle.last_parameters_request, Some(50));
}

#[test]
fn entering_mission_requests_count_once() {
    let mut state = fresh_state(true);
    state.screen = Screen::Mission;
    let request = screen_entry_request(&mut state, 70);
    assert!(matches!(request, Some(RequestMessage::MissionRequestList { .. })));
    assert_eq!(state.vehicle.mission_details.last_mission_request, Some(70));
    let request = screen_entry_request(&mut state, 80);
    assert!(request.is_none());
}

#[test]
fn drivers_are_inert_without_connection() {
    let mut state = fresh_state(false);
    state.screen = Screen::Parameters;
    assert!(screen_entry_request(&mut state, 50).is_none());
    assert_eq!(state.vehicle.last_parameters_request, None);
    state.screen = Screen::Mission;
    assert!(screen_entry_request(&mut state, 50).is_none());
    assert_eq!(state.vehicle.mission_details.last_mission_request, None);
}

#[test]
fn reset_restores_mission_to_unknown() {
    // expected 5 with 3 items received; the reset restores "0 of unknown"
    // and clears all 3 items
    let mut state = fresh_state(true);
    let mut limiter = FPSLimiter::default(100);
    handle_telemetry_event(&mut state, &mut limiter, header(), TelemetryMessage::MissionCount(5), 0);
    for seq in 0..3u16 {
        let item = MissionItem { seq, command: 16, frame: 6, x: 1, y: 2, z_bits: 3 };
        handle_telemetry_event(
            &mut state,
            &mut limiter,
            header(),
            TelemetryMessage::MissionItemInt(item),
            0,
        );
    }
    assert_eq!(state.vehicle.mission_details.progress(), (3, Some(5)));
    state.screen = Screen::Mission;
    state.mission_selected = 2;
    handle_input_event(&mut state, key(Key::Char('r')));
    assert_eq!(state.vehicle.mission_details.progress(), (0, None));
    assert_eq!(state.vehicle.mission_details.last_mission_request, None);
    assert_eq!(state.mission_selected, 0);
}

#[test]
fn reset_clears_parameters_and_selection() {
    let mut state = fresh_state(true);
    let mut limiter = FPSLimiter::default(100);
    let param = ParamValue {
        param_id: [65u8; 16],
        param_value_bits: 1,
        param_type: 9,
        param_count: 1,
        param_index: 0,
    };
    handle_telemetry_event(
        &mut state,
        &mut limiter,
        header(),
        TelemetryMessage::ParamValue(param),
        0,
    );
    state.vehicle.last_parameters_request = Some(10);
    state.screen = Screen::Parameters;
    state.parameters_selected = 1;
    handle_input_event(&mut state, key(Key::Char('r')));
    assert!(state.vehicle.parameter_messages.is_empty());
    assert_eq!(state.vehicle.last_parameters_request, None);
    assert_eq!(state.parameters_selected, 0);
    // elsewhere the reset key is a no-op
    state.screen = Screen::Status;
    handle_input_event(&mut state, key(Key::Char('r')));
    assert_eq!(state.vehicle.messages.len(), 1);
}

#[test]
fn selected_entries_follow_the_selection() {
    let mut state = fresh_state(true);
    let mut limiter = FPSLimiter::default(100);
    assert_eq!(state.get_selected_message(), None);
    assert_eq!(state.get_selected_parameter(), None);
    handle_telemetry_event(&mut state, &mut limiter, header(), TelemetryMessage::Other(17), 0);
    assert_eq!(state.get_selected_message(), Some(TelemetryMessage::Other(17)));
    state.messages_selected = 1;
    assert_eq!(state.get_selected_message(), None);
}
