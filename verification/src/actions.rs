//! Decisions of the server-side break and place action handlers.
//!
//! A handler decodes the action payload and checks its sequence number, then
//! asks the world, one step at a time, to validate the intent, to read the
//! target block, and to apply the mutation; each answer decides the next
//! step. The world's own work (validation against the authoritative terrain,
//! reading and writing blocks) happens where the handler runs.

use vstd::prelude::*;
use crate::action_payloads::{
    decode_break_payload_v2, decode_place_payload_v2, spec_decode_break_payload_v2,
    spec_decode_place_payload_v2, BlockRuntimeId, TerrainInteractionIntentV2,
    TerrainIntentModel,
};

verus! {

/// How a handled action ended.
#[derive(Debug, Clone, Copy, PartialEq, Eq, Structural)]
pub enum ActionOutcome {
    Applied,
    Rejected,
}

/// A block mutation a handler asks the world to apply.
#[derive(Debug, Clone, Copy, PartialEq, Eq)]
pub enum BlockMutation {
    /// Clear the block at `pos` if it still holds `expected_old`.
    ClearBlock { pos: (i32, i32, i32), expected_old: BlockRuntimeId },
    /// Set the block at `pos` to `block_id` if it still holds `expected_old`.
    SetBlock { pos: (i32, i32, i32), block_id: BlockRuntimeId, expected_old: BlockRuntimeId },
}

/// What a handler asks of the world next.
#[derive(Debug, PartialEq, Eq)]
pub enum ActionRequest {
    /// Validate the intent against the authoritative world and answer with
    /// [`ActionEvent::Validated`].
    Validate(TerrainInteractionIntentV2, ValidationBinding),
    /// Read the block at this position and answer with [`ActionEvent::BlockRead`].
    ReadBlock((i32, i32, i32)),
    /// Apply the mutation and answer with [`ActionEvent::MutationApplied`].
    Apply(BlockMutation),
    /// The action is finished.
    Finish(ActionOutcome),
}

/// The world's answer to a request.
#[derive(Debug, Clone, Copy, PartialEq, Eq)]
pub enum ActionEvent {
    /// Whether the intent passed validation.
    Validated(bool),
    /// The block at the requested position, if any.
    BlockRead(Option<BlockRuntimeId>),
    /// Whether the mutation was applied.
    MutationApplied(bool),
}

/// Where a handled action stands.
#[derive(Debug, Clone, Copy, PartialEq, Eq)]
pub enum ActionState {
    /// Waiting for the validation of an intent; `target` is the block to
    /// change and `block_id` the block to place there (none for a break).
    Validating { target: (i32, i32, i32), block_id: Option<BlockRuntimeId> },
    /// Waiting for the block at `target`.
    Reading { target: (i32, i32, i32), block_id: Option<BlockRuntimeId> },
    /// Waiting for the mutation.
    Applying,
    /// Finished.
    Done(ActionOutcome),
}

/// The command an action arrived in: its action sequence number, and the
/// level, stream epoch and input sequence number it was issued at.
#[derive(Debug, Clone, Copy, PartialEq, Eq)]
pub struct ActionCommand {
    pub seq: u32,
    pub level_id: u32,
    pub stream_epoch: u32,
    pub at_input_seq: u32,
}

/// What a terrain validation is bound to besides its reach: the active level
/// and stream epoch, and the range of input sequence numbers it accepts.
#[derive(Debug, Clone, Copy, PartialEq, Eq)]
pub struct ValidationBinding {
    pub active_level_id: Option<u32>,
    pub active_stream_epoch: Option<u32>,
    pub min_input_seq: Option<u32>,
    pub max_input_seq: Option<u32>,
}

/// A validation is bound to the command's level and stream epoch, and
/// accepts exactly the command's input sequence number.
pub open spec fn spec_validation_binding(cmd: ActionCommand) -> ValidationBinding {
    ValidationBinding {
        active_level_id: Some(cmd.level_id),
        active_stream_epoch: Some(cmd.stream_epoch),
        min_input_seq: Some(cmd.at_input_seq),
        max_input_seq: Some(cmd.at_input_seq),
    }
}

pub fn terrain_validation_binding(cmd: &ActionCommand) -> (binding: ValidationBinding)
    ensures
        binding == spec_validation_binding(*cmd),
{
    ValidationBinding {
        active_level_id: Some(cmd.level_id),
        active_stream_epoch: Some(cmd.stream_epoch),
        min_input_seq: Some(cmd.at_input_seq),
        max_input_seq: Some(cmd.at_input_seq),
    }
}

/// The intent's action sequence number, when it has one, is the command's.
pub open spec fn sequence_matches(m: TerrainIntentModel, cmd_seq: u32) -> bool {
    match m.identity.action_seq {
        Some(seq) => seq == cmd_seq,
        None => true,
    }
}

pub open spec fn rejected() -> (ActionState, ActionRequest) {
    (ActionState::Done(ActionOutcome::Rejected), ActionRequest::Finish(ActionOutcome::Rejected))
}

/// The next state and request after `event`: a validated intent has its
/// target read, a target that holds a block is changed expecting that block,
/// an applied mutation finishes the action; every other answer rejects it.
pub open spec fn spec_advance(state: ActionState, event: ActionEvent) -> (ActionState, ActionRequest) {
    match (state, event) {
        (ActionState::Validating { target, block_id }, ActionEvent::Validated(ok)) => if ok {
            (ActionState::Reading { target, block_id }, ActionRequest::ReadBlock(target))
        } else {
            rejected()
        },
        (ActionState::Reading { target, block_id }, ActionEvent::BlockRead(read)) => match read {
            Some(current) => (
                ActionState::Applying,
                ActionRequest::Apply(
                    match block_id {
                        Some(id) => BlockMutation::SetBlock {
                            pos: target,
                            block_id: id,
                            expected_old: current,
                        },
                        None => BlockMutation::ClearBlock { pos: target, expected_old: current },
                    },
                ),
            ),
            None => rejected(),
        },
        (ActionState::Applying, ActionEvent::MutationApplied(applied)) => if applied {
            (ActionState::Done(ActionOutcome::Applied), ActionRequest::Finish(ActionOutcome::Applied))
        } else {
            rejected()
        },
        (ActionState::Done(outcome), _) => (ActionState::Done(outcome), ActionRequest::Finish(outcome)),
        _ => rejected(),
    }
}

/// Takes a handled action one step further.
pub fn advance(state: ActionState, event: ActionEvent) -> (next: (ActionState, ActionRequest))
    ensures
        next == spec_advance(state, event),
{
    match (state, event) {
        (ActionState::Validating { target, block_id }, ActionEvent::Validated(ok)) => if ok {
            (ActionState::Reading { target, block_id }, ActionRequest::ReadBlock(target))
        } else {
            (ActionState::Done(ActionOutcome::Rejected), ActionRequest::Finish(ActionOutcome::Rejected))
        },
        (ActionState::Reading { target, block_id }, ActionEvent::BlockRead(read)) => match read {
            Some(current) => (
                ActionState::Applying,
                ActionRequest::Apply(
                    match block_id {
                        Some(id) => BlockMutation::SetBlock {
                            pos: target,
                            block_id: id,
                            expected_old: current,
                        },
                        None => BlockMutation::ClearBlock { pos: target, expected_old: current },
                    },
                ),
            ),
            None => (ActionState::Done(ActionOutcome::Rejected), ActionRequest::Finish(ActionOutcome::Rejected)),
        },
        (ActionState::Applying, ActionEvent::MutationApplied(applied)) => if applied {
            (ActionState::Done(ActionOutcome::Applied), ActionRequest::Finish(ActionOutcome::Applied))
        } else {
            (ActionState::Done(ActionOutcome::Rejected), ActionRequest::Finish(ActionOutcome::Rejected))
        },
        (ActionState::Done(outcome), _) => (ActionState::Done(outcome), ActionRequest::Finish(outcome)),
        _ => (ActionState::Done(ActionOutcome::Rejected), ActionRequest::Finish(ActionOutcome::Rejected)),
    }
}

/// Handler of `freven.vanilla:break` actions.
#[derive(Debug, Default)]
pub struct BreakActionHandler;

impl BreakActionHandler {
    /// Starts handling a break: the payload must decode as a break intent
    /// whose action sequence number, if any, is the command's; the intent is
    /// then validated, bound to the command's level, stream epoch and input
    /// sequence number, and its hit block is the one to clear.
    pub fn begin(&self, payload: &[u8], cmd: &ActionCommand) -> (next: (ActionState, ActionRequest))
        ensures
            match spec_decode_break_payload_v2(payload@) {
                Err(_) => next == rejected(),
                Ok(m) => if !sequence_matches(m, cmd.seq) {
                    next == rejected()
                } else {
                    next.0 == (ActionState::Validating { target: m.hit.hit_block_pos, block_id: None })
                        && next.1 is Validate && next.1->Validate_0@ == m
                        && next.1->Validate_1 == spec_validation_binding(*cmd)
                },
            },
    {
        let intent = match decode_break_payload_v2(payload) {
            Ok(intent) => intent,
            Err(_) => {
                return (ActionState::Done(ActionOutcome::Rejected), ActionRequest::Finish(ActionOutcome::Rejected));
            },
        };
        if let Some(seq) = intent.identity.action_seq {
            if seq != cmd.seq {
                return (ActionState::Done(ActionOutcome::Rejected), ActionRequest::Finish(ActionOutcome::Rejected));
            }
        }
        let target = intent.hit.hit_block_pos;
        (
            ActionState::Validating { target, block_id: None },
            ActionRequest::Validate(intent, terrain_validation_binding(cmd)),
        )
    }
}

/// Handler of `freven.vanilla:place` actions.
#[derive(Debug, Default)]
pub struct PlaceActionHandler;

impl PlaceActionHandler {
    /// Starts handling a place: the payload must decode as a place intent
    /// whose action sequence number, if any, is the command's; the intent is
    /// then validated, bound to the command's level, stream epoch and input
    /// sequence number, and its placement position receives its block.
    pub fn begin(&self, payload: &[u8], cmd: &ActionCommand) -> (next: (ActionState, ActionRequest))
        ensures
            match spec_decode_place_payload_v2(payload@) {
                Err(_) => next == rejected(),
                Ok(m) => if !sequence_matches(m, cmd.seq) || m.place is None {
                    next == rejected()
                } else {
                    next.0 == (ActionState::Validating {
                        target: m.place->Some_0.placement_pos,
                        block_id: Some(m.place->Some_0.block_id),
                    }) && next.1 is Validate && next.1->Validate_0@ == m
                        && next.1->Validate_1 == spec_validation_binding(*cmd)
                },
            },
    {
        let intent = match decode_place_payload_v2(payload) {
            Ok(intent) => intent,
            Err(_) => {
                return (ActionState::Done(ActionOutcome::Rejected), ActionRequest::Finish(ActionOutcome::Rejected));
            },
        };
        if let Some(seq) = intent.identity.action_seq {
            if seq != cmd.seq {
                return (ActionState::Done(ActionOutcome::Rejected), ActionRequest::Finish(ActionOutcome::Rejected));
            }
        }
        let Some(place) = intent.place else {
            return (ActionState::Done(ActionOutcome::Rejected), ActionRequest::Finish(ActionOutcome::Rejected));
        };
        (
            ActionState::Validating { target: place.placement_pos, block_id: Some(place.block_id) },
            ActionRequest::Validate(intent, terrain_validation_binding(cmd)),
        )
    }
}

/// The placement rule of Vanilla: only the allowed block (stone) may be placed.
pub fn can_place_block(block_id: BlockRuntimeId, allowed_block_id: BlockRuntimeId) -> (allowed: bool)
    ensures
        allowed == (block_id == allowed_block_id),
{
    block_id.0 == allowed_block_id.0
}

/// The position a mutation changes and the block it expects there.
pub open spec fn mutation_target(m: BlockMutation) -> ((i32, i32, i32), BlockRuntimeId) {
    match m {
        BlockMutation::ClearBlock { pos, expected_old } => (pos, expected_old),
        BlockMutation::SetBlock { pos, expected_old, .. } => (pos, expected_old),
    }
}

/// The world is the only authority a handler acts on: a target is read only
/// once the world validated the intent, and a mutation is asked for only
/// right after the world reported the block at the target, changes that
/// target, and expects exactly the block the world reported.
pub proof fn lemma_handlers_act_on_world_answers(state: ActionState, event: ActionEvent)
    ensures
        spec_advance(state, event).0 is Reading ==> state is Validating && event
            == ActionEvent::Validated(true),
        spec_advance(state, event).1 is Apply ==> ({
            let m = spec_advance(state, event).1->Apply_0;
            &&& state is Reading
            &&& event is BlockRead
            &&& event->BlockRead_0 == Some(mutation_target(m).1)
            &&& mutation_target(m).0 == state->Reading_target
        }),
{
}

} // verus!
