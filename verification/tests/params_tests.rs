use mavlink_debugger::msg::DEFAULT_TARGET_COMPONENT;
use mavlink_debugger::msg::DEFAULT_TARGET_SYSTEM;
use mavlink_debugger::msg::ParamValue;
use mavlink_debugger::msg::RequestMessage;
use mavlink_debugger::params::decode_param_id;
use mavlink_debugger::params::request_parameters;
use mavlink_debugger::params::upsert_parameter;

fn param_id(name: &str) -> [u8; 16] {
    let mut array = [0u8; 16];
    for (i, ch) in name.chars().enumerate() {
        array[i] = ch as u8;
    }
    array
}

fn param(name: &str, value_bits: u32) -> ParamValue {
    ParamValue {
        param_id: param_id(name),
        param_value_bits: value_bits,
        param_type: 9,
        param_count: 0,
        param_index: 0,
    }
}

#[test]
fn test_decode_param_id() {
    let mut array = [0u8; 16];
    for (i, ch) in "TEST_PARAM".chars().enumerate() {
        array[i] = ch as u8;
    }
    assert_eq!(decode_param_id(&array), "TEST_PARAM".to_string());
}

#[test]
fn decode_param_id_skips_interior_padding() {
    let mut array = [0u8; 16];
    array[0] = b'A';
    array[2] = b'B';
    assert_eq!(decode_param_id(&array), "AB".to_string());
    assert_eq!(decode_param_id(&[0u8; 16]), String::new());
}

#[test]
fn upsert_overwrites_by_name_and_sorts() {
    // names ["B", "A", "A"], the last "A" carrying a new value:
    // the set has size 2, is ordered ["A", "B"], and "A" holds the value
    // of the most recent insertion
    let mut params: Vec<ParamValue> = Vec::new();
    upsert_parameter(&mut params, param("B", 1));
    upsert_parameter(&mut params, param("A", 2));
    upsert_parameter(&mut params, param("A", 3));
    assert_eq!(params.len(), 2);
    assert_eq!(decode_param_id(&params[0].param_id), "A".to_string());
    assert_eq!(decode_param_id(&params[1].param_id), "B".to_string());
    assert_eq!(params[0].param_value_bits, 3);
    assert_eq!(params[1].param_value_bits, 1);
}

#[test]
fn upsert_keeps_longer_names_after_prefixes() {
    let mut params: Vec<ParamValue> = Vec::new();
    upsert_parameter(&mut params, param("RATE_X", 1));
    upsert_parameter(&mut params, param("RATE", 2));
    upsert_parameter(&mut params, param("ALT", 3));
    assert_eq!(params.len(), 3);
    assert_eq!(decode_param_id(&params[0].param_id), "ALT".to_string());
    assert_eq!(decode_param_id(&params[1].param_id), "RATE".to_string());
    assert_eq!(decode_param_id(&params[2].param_id), "RATE_X".to_string());
}

#[test]
fn request_parameters_addresses_the_vehicle() {
    assert_eq!(
        request_parameters(),
        RequestMessage::ParamRequestList {
            target_system: DEFAULT_TARGET_SYSTEM,
            target_component: DEFAULT_TARGET_COMPONENT,
        }
    );
}
