use freven_vanilla::action_payloads::{
    encode_break_payload_v1, try_encode_break_payload_v2, try_encode_place_payload_v2,
    ActionTarget, BlockRuntimeId, ClientBlockFace, TerrainInteractionHitV2,
    TerrainInteractionIdentityV2, TerrainInteractionIntentV2, TerrainInteractionKindV2,
    TerrainInteractionRayV2, TerrainPlaceIntentV2, TerrainPredictionTransactionIdV2,
};
use freven_vanilla::actions::{
    advance, can_place_block, terrain_validation_binding, ActionCommand, ActionEvent,
    ActionOutcome, ActionRequest, ActionState, BlockMutation, BreakActionHandler,
    PlaceActionHandler, ValidationBinding,
};

fn cmd(seq: u32) -> ActionCommand {
    ActionCommand { seq, level_id: 1, stream_epoch: 2, at_input_seq: 9 }
}

fn intent(kind: TerrainInteractionKindV2, place: Option<TerrainPlaceIntentV2>) -> TerrainInteractionIntentV2 {
    TerrainInteractionIntentV2 {
        identity: TerrainInteractionIdentityV2 {
            level_id: 1,
            stream_epoch: 2,
            input_seq: 3,
            action_seq: Some(4),
            kind,
            prediction_tx: TerrainPredictionTransactionIdV2(5),
            depends_on: vec![],
        },
        ray: TerrainInteractionRayV2 {
            ray_origin_m: [0, 0, 0],
            ray_dir: [1.0f32.to_bits(), 0, 0],
            max_distance_m: 5.0f32.to_bits(),
            client_view_tick: None,
        },
        hit: TerrainInteractionHitV2 {
            hit_block_pos: (1, 2, 3),
            hit_face: ClientBlockFace::PosY,
            hit_point_m: None,
        },
        place,
    }
}

#[test]
fn break_runs_validate_read_clear_apply() {
    let payload = try_encode_break_payload_v2(&intent(TerrainInteractionKindV2::Break, None)).unwrap();
    let (state, request) = BreakActionHandler.begin(&payload, &cmd(4));
    assert!(matches!(request, ActionRequest::Validate(..)));
    let (state, request) = advance(state, ActionEvent::Validated(true));
    assert_eq!(request, ActionRequest::ReadBlock((1, 2, 3)));
    let (state, request) = advance(state, ActionEvent::BlockRead(Some(BlockRuntimeId(9))));
    assert_eq!(
        request,
        ActionRequest::Apply(BlockMutation::ClearBlock { pos: (1, 2, 3), expected_old: BlockRuntimeId(9) })
    );
    let (state, request) = advance(state, ActionEvent::MutationApplied(true));
    assert_eq!(request, ActionRequest::Finish(ActionOutcome::Applied));
    assert_eq!(state, ActionState::Done(ActionOutcome::Applied));
}

#[test]
fn break_with_other_sequence_is_rejected_before_validation() {
    let payload = try_encode_break_payload_v2(&intent(TerrainInteractionKindV2::Break, None)).unwrap();
    let (state, request) = BreakActionHandler.begin(&payload, &cmd(5));
    assert_eq!(request, ActionRequest::Finish(ActionOutcome::Rejected));
    assert_eq!(state, ActionState::Done(ActionOutcome::Rejected));
}

#[test]
fn undecodable_payload_is_rejected() {
    let payload = encode_break_payload_v1(0, ActionTarget { pos: (0, 0, 0), face: 0 });
    let (_, request) = BreakActionHandler.begin(&payload, &cmd(4));
    assert_eq!(request, ActionRequest::Finish(ActionOutcome::Rejected));
    let (_, request) = PlaceActionHandler.begin(&payload, &cmd(4));
    assert_eq!(request, ActionRequest::Finish(ActionOutcome::Rejected));
}

#[test]
fn place_sets_the_placement_block_expecting_the_read_block() {
    let place = TerrainPlaceIntentV2 {
        support_block_pos: (1, 2, 3),
        placement_pos: (1, 3, 3),
        block_id: BlockRuntimeId(7),
        expected_placement_empty: true,
        expected_support_solid: true,
    };
    let payload = try_encode_place_payload_v2(&intent(TerrainInteractionKindV2::Place, Some(place))).unwrap();
    let (state, request) = PlaceActionHandler.begin(&payload, &cmd(4));
    assert!(matches!(request, ActionRequest::Validate(..)));
    let (state, request) = advance(state, ActionEvent::Validated(true));
    assert_eq!(request, ActionRequest::ReadBlock((1, 3, 3)));
    let (state, request) = advance(state, ActionEvent::BlockRead(Some(BlockRuntimeId(0))));
    assert_eq!(
        request,
        ActionRequest::Apply(BlockMutation::SetBlock {
            pos: (1, 3, 3),
            block_id: BlockRuntimeId(7),
            expected_old: BlockRuntimeId(0)
        })
    );
    let (_, request) = advance(state, ActionEvent::MutationApplied(false));
    assert_eq!(request, ActionRequest::Finish(ActionOutcome::Rejected));
}

#[test]
fn failed_validation_or_missing_block_rejects() {
    let state = ActionState::Validating { target: (0, 0, 0), block_id: None };
    assert_eq!(advance(state, ActionEvent::Validated(false)).1, ActionRequest::Finish(ActionOutcome::Rejected));
    let state = ActionState::Reading { target: (0, 0, 0), block_id: None };
    assert_eq!(advance(state, ActionEvent::BlockRead(None)).1, ActionRequest::Finish(ActionOutcome::Rejected));
}

#[test]
fn only_the_allowed_block_may_be_placed() {
    assert!(can_place_block(BlockRuntimeId(1), BlockRuntimeId(1)));
    assert!(!can_place_block(BlockRuntimeId(2), BlockRuntimeId(1)));
}

#[test]
fn validation_is_bound_to_the_command_level_epoch_and_input_sequence() {
    let binding = ValidationBinding {
        active_level_id: Some(1),
        active_stream_epoch: Some(2),
        min_input_seq: Some(9),
        max_input_seq: Some(9),
    };
    assert_eq!(terrain_validation_binding(&cmd(4)), binding);
    let payload = try_encode_break_payload_v2(&intent(TerrainInteractionKindV2::Break, None))
        .expect("encodes");
    let (_, request) = BreakActionHandler.begin(&payload, &cmd(4));
    match request {
        ActionRequest::Validate(_, b) => assert_eq!(b, binding),
        other => panic!("unexpected request {other:?}"),
    }
}
