use iq_peripheral::frame::{
    deserialize_controller_data, get_button_value, serialize_controller_data, ButtonState,
    ControllerData, FrameError,
};

fn buttons_from_bits(bits: u8) -> ButtonState {
    ButtonState {
        right_trigger_upper: bits & 0x80 != 0,
        right_trigger_lower: bits & 0x40 != 0,
        left_trigger_upper: bits & 0x20 != 0,
        left_trigger_lower: bits & 0x10 != 0,
        left_button_upper: bits & 0x08 != 0,
        right_button_upper: bits & 0x04 != 0,
        left_button_lower: bits & 0x02 != 0,
        right_button_lower: bits & 0x01 != 0,
    }
}

#[test]
fn default_frame_serializes_to_rest_bytes() {
    let bytes = serialize_controller_data(ControllerData::default());
    assert_eq!(bytes, vec![127, 127, 127, 127, 0, 127, 255, 0, 0, 0, 0, 0, 0, 0]);
}

#[test]
fn serialize_keeps_field_order() {
    let d = ControllerData {
        j1_y: 1,
        j1_x: 2,
        j2_y: 3,
        j2_x: 4,
        buttons: 5,
        battery: 6,
        main_pwr: 7,
        idle_time: 8,
        pwr_off_delay: 9,
        cont_count: 10,
        unused: 11,
        unused1: 12,
        unused2: 13,
        unused3: 14,
    };
    let bytes = serialize_controller_data(d);
    assert_eq!(bytes.len(), 14);
    assert_eq!(bytes, (1u8..=14).collect::<Vec<u8>>());
    assert_eq!(deserialize_controller_data(&bytes), Ok(d));
}

#[test]
fn zero_frame_emits_every_field() {
    let d = ControllerData {
        j1_y: 0,
        j1_x: 0,
        j2_y: 0,
        j2_x: 0,
        buttons: 0,
        battery: 0,
        main_pwr: 0,
        idle_time: 0,
        pwr_off_delay: 0,
        cont_count: 0,
        unused: 0,
        unused1: 0,
        unused2: 0,
        unused3: 0,
    };
    assert_eq!(serialize_controller_data(d), vec![0u8; 14]);
}

#[test]
fn deserialize_round_trips_bytes() {
    let bytes: Vec<u8> = vec![255, 0, 17, 200, 0xA5, 1, 2, 3, 4, 254, 9, 8, 7, 6];
    let d = deserialize_controller_data(&bytes).unwrap();
    assert_eq!(d.j1_y, 255);
    assert_eq!(d.buttons, 0xA5);
    assert_eq!(d.cont_count, 254);
    assert_eq!(d.unused3, 6);
    assert_eq!(serialize_controller_data(d), bytes);
}

#[test]
fn deserialize_rejects_wrong_lengths() {
    assert_eq!(deserialize_controller_data(&[]), Err(FrameError::WrongLength(0)));
    assert_eq!(deserialize_controller_data(&[0u8; 13]), Err(FrameError::WrongLength(13)));
    assert_eq!(deserialize_controller_data(&[0u8; 15]), Err(FrameError::WrongLength(15)));
}

#[test]
fn no_buttons_pack_to_zero() {
    assert_eq!(get_button_value(ButtonState::default()), 0);
}

#[test]
fn each_button_has_its_bit() {
    let mut s = ButtonState::default();
    s.right_trigger_upper = true;
    assert_eq!(get_button_value(s), 0x80);
    let mut s = ButtonState::default();
    s.right_trigger_lower = true;
    assert_eq!(get_button_value(s), 0x40);
    let mut s = ButtonState::default();
    s.left_trigger_upper = true;
    assert_eq!(get_button_value(s), 0x20);
    let mut s = ButtonState::default();
    s.left_trigger_lower = true;
    assert_eq!(get_button_value(s), 0x10);
    let mut s = ButtonState::default();
    s.left_button_upper = true;
    assert_eq!(get_button_value(s), 0x08);
    let mut s = ButtonState::default();
    s.right_button_upper = true;
    assert_eq!(get_button_value(s), 0x04);
    let mut s = ButtonState::default();
    s.left_button_lower = true;
    assert_eq!(get_button_value(s), 0x02);
    let mut s = ButtonState::default();
    s.right_button_lower = true;
    assert_eq!(get_button_value(s), 0x01);
}

#[test]
fn all_button_combinations_are_distinct() {
    let mut seen = [false; 256];
    for bits in 0u16..256 {
        let v = get_button_value(buttons_from_bits(bits as u8));
        assert_eq!(v, bits as u8);
        assert!(!seen[v as usize]);
        seen[v as usize] = true;
    }
}
