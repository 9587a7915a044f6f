//! Decisions of the humanoid control provider: which movement input the
//! current key state stands for.

use vstd::prelude::*;
use crate::humanoid_input::HumanoidInputV1;
use crate::humanoid_input::button_bits;

verus! {

/// Key under which the humanoid control provider is registered.
pub const HUMANOID_CONTROL_KEY: &'static str = "freven.vanilla:humanoid_controls";

/// Input owner name used when binding keys.
pub const CONTROL_OWNER: &'static str = "freven.vanilla.essentials:movement";

#[derive(Debug, Clone, Default)]
pub struct HumanoidControlProvider;

impl HumanoidControlProvider {
    pub fn new() -> (provider: Self)
        ensures
            provider == (HumanoidControlProvider {}),
    {
        HumanoidControlProvider
    }
}

/// Axis value of two opposed digital keys: full negative, full positive, or
/// centered when neither or both are held.
pub open spec fn spec_digital_axis(neg: bool, pos: bool) -> i8 {
    if neg && !pos {
        -127i8
    } else if pos && !neg {
        127i8
    } else {
        0i8
    }
}

pub fn digital_axis_i8(neg: bool, pos: bool) -> (axis: i8)
    ensures
        axis == spec_digital_axis(neg, pos),
{
    match (neg, pos) {
        (true, false) => -127,
        (false, true) => 127,
        _ => 0,
    }
}

/// Button bits of the held jump, sprint and crouch keys.
pub open spec fn spec_buttons(jump: bool, sprint: bool, crouch: bool) -> u16 {
    ((if jump { button_bits::JUMP } else { 0u16 }) + (if sprint { button_bits::SPRINT } else { 0u16 })
        + (if crouch { button_bits::CROUCH } else { 0u16 })) as u16
}

/// The button bits of held keys: bit 0 (1) is set exactly when jump is held,
/// bit 1 (2) exactly when sprint is, bit 2 (4) exactly when crouch is, and
/// no other bit is set.
pub proof fn lemma_buttons_have_one_bit_per_key(jump: bool, sprint: bool, crouch: bool)
    ensures
        spec_buttons(jump, sprint, crouch) % 2 == 1 <==> jump,
        (spec_buttons(jump, sprint, crouch) / 2) % 2 == 1 <==> sprint,
        (spec_buttons(jump, sprint, crouch) / 4) % 2 == 1 <==> crouch,
        spec_buttons(jump, sprint, crouch) < 8,
{
}

/// The movement input for one sample of the keyboard: A/D drive `move_x`,
/// S/W drive `move_z`, Space/Shift/Ctrl set the jump/sprint/crouch bits.
pub fn humanoid_input_from_keys(
    key_a: bool,
    key_d: bool,
    key_s: bool,
    key_w: bool,
    space: bool,
    shift: bool,
    ctrl: bool,
) -> (input: HumanoidInputV1)
    ensures
        input.move_x == spec_digital_axis(key_a, key_d),
        input.move_z == spec_digital_axis(key_s, key_w),
        input.buttons == spec_buttons(space, shift, ctrl),
        input.buttons % 2 == 1 <==> space,
        (input.buttons / 2) % 2 == 1 <==> shift,
        (input.buttons / 4) % 2 == 1 <==> ctrl,
        input.buttons < 8,
{
    proof {
        lemma_buttons_have_one_bit_per_key(space, shift, ctrl);
    }
    let move_x = digital_axis_i8(key_a, key_d);
    let move_z = digital_axis_i8(key_s, key_w);
    let mut buttons: u16 = 0;
    if space {
        buttons = buttons + button_bits::JUMP;
    }
    if shift {
        buttons = buttons + button_bits::SPRINT;
    }
    if ctrl {
        buttons = buttons + button_bits::CROUCH;
    }
    HumanoidInputV1 { move_x, move_z, buttons }
}

} // verus!
