use freven_vanilla::control::{digital_axis_i8, humanoid_input_from_keys};
use freven_vanilla::humanoid_input::button_bits;
use freven_vanilla::humanoid_input::{
    decode_humanoid_input_v1, decode_move_input, encode_humanoid_input_v1, HumanoidInputError,
    HumanoidInputV1, HumanoidMoveInput,
};

#[test]
fn humanoid_input_roundtrip() {
    let src = HumanoidInputV1 {
        move_x: -127,
        move_z: 64,
        buttons: button_bits::JUMP | button_bits::SPRINT,
    };
    let encoded = encode_humanoid_input_v1(src);
    let decoded = decode_humanoid_input_v1(&encoded).expect("decode");
    assert_eq!(decoded, src);
}

#[test]
fn humanoid_input_encoding_is_axis_bytes_then_little_endian_buttons() {
    let src = HumanoidInputV1 { move_x: -1, move_z: 2, buttons: 0x0102 };
    assert_eq!(encode_humanoid_input_v1(src), [0xFF, 0x02, 0x02, 0x01]);
}

#[test]
fn humanoid_input_rejects_wrong_length() {
    assert_eq!(
        decode_humanoid_input_v1(&[1, 2, 3]),
        Err(HumanoidInputError::InvalidLength { got: 3 })
    );
    assert_eq!(
        decode_humanoid_input_v1(&[1, 2, 3, 4, 5]),
        Err(HumanoidInputError::InvalidLength { got: 5 })
    );
}

#[test]
fn digital_axis_cancels_opposite_keys() {
    assert_eq!(digital_axis_i8(true, false), -127);
    assert_eq!(digital_axis_i8(false, true), 127);
    assert_eq!(digital_axis_i8(true, true), 0);
    assert_eq!(digital_axis_i8(false, false), 0);
}

#[test]
fn keys_map_to_movement_and_buttons() {
    let input = humanoid_input_from_keys(false, true, false, true, true, false, true);
    assert_eq!(input.move_x, 127);
    assert_eq!(input.move_z, 127);
    assert_eq!(input.buttons, button_bits::JUMP | button_bits::CROUCH);
}

#[test]
fn move_input_reads_axes_and_jump_sprint_buttons() {
    let encoded = encode_humanoid_input_v1(HumanoidInputV1 {
        move_x: -127,
        move_z: 64,
        buttons: button_bits::SPRINT | button_bits::CROUCH,
    });
    assert_eq!(
        decode_move_input(&encoded),
        HumanoidMoveInput { move_x: -127, move_z: 64, jump: false, sprint: true }
    );
    assert_eq!(
        decode_move_input(&[1, 2, 3]),
        HumanoidMoveInput { move_x: 0, move_z: 0, jump: false, sprint: false }
    );
}
