//! Fixed four-byte humanoid movement input payload (v1).
//!
//! Layout: `move_x` (i8 as byte), `move_z` (i8 as byte), `buttons` (u16, little endian).

use vstd::prelude::*;

pub mod button_bits;

verus! {

/// Length of an encoded humanoid input payload.
pub const HUMANOID_INPUT_V1_LEN: usize = 4;

#[derive(Debug, Clone, Copy, PartialEq, Eq, Default)]
pub struct HumanoidInputV1 {
    pub move_x: i8,
    pub move_z: i8,
    pub buttons: u16,
}

#[derive(Debug, Clone, PartialEq, Eq)]
pub enum HumanoidInputError {
    InvalidLength { got: usize },
}

/// The byte of a signed axis value: its two's-complement representation.
pub open spec fn axis_byte(v: i8) -> u8 {
    if v >= 0 {
        v as u8
    } else {
        (v + 256) as u8
    }
}

/// The signed axis value that a byte represents.
pub open spec fn byte_axis(b: u8) -> i8 {
    if b < 128 {
        b as i8
    } else {
        (b - 256) as i8
    }
}

/// The four wire bytes of an input.
pub open spec fn spec_encode_humanoid_input_v1(input: HumanoidInputV1) -> Seq<u8> {
    seq![
        axis_byte(input.move_x),
        axis_byte(input.move_z),
        (input.buttons % 256) as u8,
        (input.buttons / 256) as u8,
    ]
}

/// What decoding a payload gives: an input for exactly four bytes, else a length error.
pub open spec fn spec_decode_humanoid_input_v1(payload: Seq<u8>) -> Result<
    HumanoidInputV1,
    HumanoidInputError,
> {
    if payload.len() != 4 {
        Err(HumanoidInputError::InvalidLength { got: payload.len() as usize })
    } else {
        Ok(
            HumanoidInputV1 {
                move_x: byte_axis(payload[0]),
                move_z: byte_axis(payload[1]),
                buttons: (payload[2] + 256 * payload[3]) as u16,
            },
        )
    }
}

fn i8_to_wire(v: i8) -> (b: u8)
    ensures
        b == axis_byte(v),
{
    if v >= 0 {
        v as u8
    } else {
        (v as i16 + 256) as u8
    }
}

fn wire_to_i8(b: u8) -> (v: i8)
    ensures
        v == byte_axis(b),
{
    if b < 128 {
        b as i8
    } else {
        (b as i16 - 256) as i8
    }
}

pub fn encode_humanoid_input_v1(input: HumanoidInputV1) -> (bytes: [u8; 4])
    ensures
        bytes@ == spec_encode_humanoid_input_v1(input),
{
    let bytes = [
        i8_to_wire(input.move_x),
        i8_to_wire(input.move_z),
        (input.buttons % 256) as u8,
        (input.buttons / 256) as u8,
    ];
    assert(bytes@ =~= spec_encode_humanoid_input_v1(input));
    bytes
}

pub fn decode_humanoid_input_v1(payload: &[u8]) -> (decoded: Result<
    HumanoidInputV1,
    HumanoidInputError,
>)
    ensures
        decoded == spec_decode_humanoid_input_v1(payload@),
{
    if payload.len() != 4 {
        return Err(HumanoidInputError::InvalidLength { got: payload.len() });
    }
    let lo = payload[2] as u16;
    let hi = payload[3] as u16;
    Ok(
        HumanoidInputV1 {
            move_x: wire_to_i8(payload[0]),
            move_z: wire_to_i8(payload[1]),
            buttons: lo + 256 * hi,
        },
    )
}

/// What a character controller reads from one input payload: the two
/// movement axes and whether jump and sprint are held. A payload that does
/// not decode counts as no input at all.
#[derive(Debug, Clone, Copy, PartialEq, Eq)]
pub struct HumanoidMoveInput {
    pub move_x: i8,
    pub move_z: i8,
    pub jump: bool,
    pub sprint: bool,
}

pub open spec fn spec_move_input(payload: Seq<u8>) -> HumanoidMoveInput {
    match spec_decode_humanoid_input_v1(payload) {
        Ok(input) => HumanoidMoveInput {
            move_x: input.move_x,
            move_z: input.move_z,
            jump: (input.buttons & button_bits::JUMP) != 0,
            sprint: (input.buttons & button_bits::SPRINT) != 0,
        },
        Err(_) => HumanoidMoveInput { move_x: 0, move_z: 0, jump: false, sprint: false },
    }
}

pub fn decode_move_input(payload: &[u8]) -> (input: HumanoidMoveInput)
    ensures
        input == spec_move_input(payload@),
{
    let raw = match decode_humanoid_input_v1(payload) {
        Ok(raw) => raw,
        Err(_) => {
            return HumanoidMoveInput { move_x: 0, move_z: 0, jump: false, sprint: false };
        },
    };
    HumanoidMoveInput {
        move_x: raw.move_x,
        move_z: raw.move_z,
        jump: (raw.buttons & button_bits::JUMP) != 0,
        sprint: (raw.buttons & button_bits::SPRINT) != 0,
    }
}

/// Of a payload that decodes, jump is held exactly when bit 0 of its button
/// bits (the low bit of its third byte) is set, and sprint exactly when bit 1
/// is, whatever the other bits; the axes are its first two bytes read as
/// signed values. A payload that does not decode holds nothing.
pub proof fn lemma_move_input_reads_button_bits(payload: Seq<u8>)
    ensures
        payload.len() == 4 ==> {
            let m = spec_move_input(payload);
            &&& m.jump == (payload[2] % 2 == 1)
            &&& m.sprint == ((payload[2] / 2) % 2 == 1)
            &&& m.move_x == byte_axis(payload[0])
            &&& m.move_z == byte_axis(payload[1])
        },
        payload.len() != 4 ==> spec_move_input(payload) == (HumanoidMoveInput {
            move_x: 0,
            move_z: 0,
            jump: false,
            sprint: false,
        }),
{
    if payload.len() == 4 {
        let lo: u8 = payload[2];
        let hi: u8 = payload[3];
        let b: u16 = (lo + 256 * hi) as u16;
        assert(((b & 1u16) != 0) == (lo % 2 == 1) && ((b & 2u16) != 0) == ((lo / 2) % 2 == 1))
            by (bit_vector)
            requires
                b == lo + 256 * hi,
        ;
        assert(spec_decode_humanoid_input_v1(payload) == Ok::<HumanoidInputV1, HumanoidInputError>(
            HumanoidInputV1 { move_x: byte_axis(payload[0]), move_z: byte_axis(payload[1]), buttons: b },
        ));
    }
}

/// Decoding the encoding of any input gives that input back.
pub proof fn lemma_humanoid_input_roundtrip(input: HumanoidInputV1)
    ensures
        spec_decode_humanoid_input_v1(spec_encode_humanoid_input_v1(input)) == Ok::<
            HumanoidInputV1,
            HumanoidInputError,
        >(input),
{
}

/// A payload that decodes is exactly the encoding of what it decodes to.
pub proof fn lemma_humanoid_input_decode_is_canonical(payload: Seq<u8>)
    requires
        spec_decode_humanoid_input_v1(payload) is Ok,
    ensures
        spec_encode_humanoid_input_v1(spec_decode_humanoid_input_v1(payload)->Ok_0) =~= payload,
{
}

} // verus!
