use freven_vanilla::action_payloads::{
    try_encode_break_payload_v2, BlockRuntimeId, ClientBlockFace, TerrainInteractionKindV2,
};
use freven_vanilla::interaction::{
    action_name, add_face_offset, begin_break_press, begin_place_press, finish_press,
    missing_target_reason, CursorTarget, PressAdmission, prediction_tx_for,
    presented_block_id_at, remove_batch_predicted_edit, ClickBatch, ClientMouseButton,
    ClientTerrainRules, PredictedEdit, PreparedBlockAction, PreparedBlockActionKind,
    PressOutcome,
};

const STONE: BlockRuntimeId = BlockRuntimeId(3);
const AIR: BlockRuntimeId = BlockRuntimeId(0);

fn place(seq: u32, pos: (i32, i32, i32)) -> PreparedBlockAction<u32> {
    PreparedBlockAction {
        kind: PreparedBlockActionKind::Place,
        at_input_seq: seq,
        predicted: vec![PredictedEdit { pos, predicted_block_id: STONE }],
        target_predicted_block: Some(AIR),
        target_authoritative_block: Some(AIR),
        submission: seq,
    }
}

fn break_of(
    seq: u32,
    pos: (i32, i32, i32),
    presented: BlockRuntimeId,
    authoritative: BlockRuntimeId,
) -> PreparedBlockAction<u32> {
    PreparedBlockAction {
        kind: PreparedBlockActionKind::Break,
        at_input_seq: seq,
        predicted: vec![PredictedEdit::clear_block(pos)],
        target_predicted_block: Some(presented),
        target_authoritative_block: Some(authoritative),
        submission: seq,
    }
}

fn seqs(actions: &[PreparedBlockAction<u32>]) -> Vec<u32> {
    actions.iter().map(|a| a.submission).collect()
}

#[test]
fn same_tick_place_then_break_predicted_only_block_coalesces_to_noop() {
    let mut batch = ClickBatch::begin(None);
    assert_eq!(batch.press(place(1, (0, 5, 0))), PressOutcome::Queued);
    assert_eq!(batch.batch_predicted_edits().len(), 1);
    assert_eq!(batch.press(break_of(2, (0, 5, 0), STONE, AIR)), PressOutcome::CoalescedSameFrame);
    assert!(batch.batch_predicted_edits().is_empty());
    let (submit, held) = batch.finish(true);
    assert!(submit.is_empty());
    assert!(held.is_none());
}

#[test]
fn near_frame_place_then_break_predicted_only_block_coalesces_to_noop() {
    let mut first = ClickBatch::begin(None);
    assert_eq!(first.press(place(1, (4, 8, -2))), PressOutcome::Queued);
    let (submit, held) = first.finish(true);
    assert!(submit.is_empty());
    let held = held.expect("isolated place is held back");
    assert_eq!(held.submission, 1);

    let mut second = ClickBatch::begin(Some(held));
    assert_eq!(second.batch_predicted_edits().len(), 1);
    assert_eq!(
        second.press(break_of(2, (4, 8, -2), STONE, AIR)),
        PressOutcome::CoalescedWithHeldPlace
    );
    let (submit, held) = second.finish(true);
    assert!(submit.is_empty());
    assert!(held.is_none());
}

#[test]
fn isolated_place_intent_flushes_after_bounded_cancel_window() {
    let mut first = ClickBatch::begin(None);
    first.press(place(7, (1, 1, 1)));
    let (_, held) = first.finish(true);
    let second = ClickBatch::begin(held);
    let (submit, held) = second.finish(true);
    assert_eq!(seqs(&submit), vec![7]);
    assert!(held.is_none());
}

#[test]
fn isolated_place_is_submitted_at_once_without_holding() {
    let mut batch = ClickBatch::begin(None);
    batch.press(place(7, (1, 1, 1)));
    let (submit, held) = batch.finish(false);
    assert_eq!(seqs(&submit), vec![7]);
    assert!(held.is_none());
}

#[test]
fn same_tick_left_then_right_is_not_net_neutral_place_break_coalesce() {
    let mut batch = ClickBatch::begin(None);
    assert_eq!(batch.press(break_of(1, (0, 4, 0), STONE, STONE)), PressOutcome::Queued);
    assert_eq!(batch.press(place(2, (0, 4, 0))), PressOutcome::Queued);
    let (submit, held) = batch.finish(true);
    assert_eq!(seqs(&submit), vec![1, 2]);
    assert!(held.is_none());
}

#[test]
fn ordered_same_tick_double_right_submits_two_place_actions() {
    let mut batch = ClickBatch::begin(None);
    batch.press(place(1, (0, 4, 0)));
    batch.press(place(2, (0, 5, 0)));
    assert_eq!(batch.batch_predicted_edits().len(), 2);
    let (submit, held) = batch.finish(true);
    assert_eq!(seqs(&submit), vec![1, 2]);
    assert!(held.is_none());
}

#[test]
fn break_of_authoritative_block_is_not_coalesced() {
    let mut batch = ClickBatch::begin(None);
    batch.press(place(1, (0, 4, 0)));
    assert_eq!(batch.press(break_of(2, (0, 4, 0), STONE, STONE)), PressOutcome::Queued);
    let (submit, _) = batch.finish(true);
    assert_eq!(seqs(&submit), vec![1, 2]);
}

#[test]
fn held_place_is_submitted_before_a_later_unrelated_press() {
    let mut first = ClickBatch::begin(None);
    first.press(place(1, (0, 4, 0)));
    let (_, held) = first.finish(true);
    let mut second = ClickBatch::begin(held);
    assert_eq!(second.press(break_of(2, (9, 9, 9), STONE, STONE)), PressOutcome::Queued);
    let (submit, held) = second.finish(true);
    assert_eq!(seqs(&submit), vec![1, 2]);
    assert!(held.is_none());
}

#[test]
fn latest_predicted_edit_wins_over_camera() {
    let edits = vec![
        PredictedEdit { pos: (1, 2, 3), predicted_block_id: STONE },
        PredictedEdit::clear_block((1, 2, 3)),
    ];
    assert_eq!(presented_block_id_at(&edits, (1, 2, 3), Some(BlockRuntimeId(9))), Some(AIR));
    assert_eq!(
        presented_block_id_at(&edits, (0, 0, 0), Some(BlockRuntimeId(9))),
        Some(BlockRuntimeId(9))
    );
    assert_eq!(presented_block_id_at(&edits, (0, 0, 0), None), None);
}

#[test]
fn removing_a_batch_edit_takes_its_last_occurrence() {
    let a = PredictedEdit { pos: (1, 2, 3), predicted_block_id: STONE };
    let b = PredictedEdit::clear_block((4, 5, 6));
    let mut edits = vec![a, b, a, b];
    assert!(remove_batch_predicted_edit(&mut edits, a));
    assert_eq!(edits, vec![a, b, b]);
    let c = PredictedEdit::clear_block((0, 0, 0));
    assert!(!remove_batch_predicted_edit(&mut edits, c));
    assert_eq!(edits, vec![a, b, b]);
}

#[test]
fn face_offsets_step_one_cell_and_stop_at_the_range_edge() {
    assert_eq!(add_face_offset((1, 2, 3), ClientBlockFace::PosX), Some((2, 2, 3)));
    assert_eq!(add_face_offset((1, 2, 3), ClientBlockFace::NegY), Some((1, 1, 3)));
    assert_eq!(add_face_offset((1, 2, 3), ClientBlockFace::PosZ), Some((1, 2, 4)));
    assert_eq!(add_face_offset((i32::MAX, 0, 0), ClientBlockFace::PosX), None);
    assert_eq!(add_face_offset((0, i32::MIN, 0), ClientBlockFace::NegY), None);
    assert_eq!(add_face_offset((0, 0, 0), ClientBlockFace::Unsupported), None);
}

#[test]
fn prediction_transaction_packs_sequence_and_kind() {
    assert_eq!(prediction_tx_for(5, TerrainInteractionKindV2::Break).0, 10);
    assert_eq!(prediction_tx_for(5, TerrainInteractionKindV2::Place).0, 11);
    assert_eq!(
        prediction_tx_for(u32::MAX, TerrainInteractionKindV2::Place).0,
        (u64::from(u32::MAX) << 1) | 1
    );
}

#[test]
fn client_rules_place_only_the_allowed_block() {
    let rules = ClientTerrainRules { allowed_place_block_id: Some(STONE) };
    assert!(rules.can_place_block(STONE));
    assert!(!rules.can_place_block(BlockRuntimeId(4)));
    assert!(rules.is_solid(STONE));
    assert!(!rules.is_supporting(AIR, ClientBlockFace::PosY));
    assert!(!ClientTerrainRules { allowed_place_block_id: None }.can_place_block(STONE));
}

#[test]
fn mouse_buttons_name_their_actions() {
    assert_eq!(action_name(ClientMouseButton::Left), "break");
    assert_eq!(action_name(ClientMouseButton::Right), "place");
    assert_eq!(
        missing_target_reason(ClientMouseButton::Left),
        "no presented solid block target under cursor"
    );
    assert_eq!(missing_target_reason(ClientMouseButton::Middle), "no block target under cursor");
    assert_eq!(place(1, (0, 0, 0)).action_name(), "place");
}

fn cursor() -> CursorTarget {
    CursorTarget {
        ray_origin_m: [1, 2, 3],
        ray_dir: [4, 5, 6],
        block_pos: (7, 8, 9),
        face: ClientBlockFace::PosY,
    }
}

#[test]
fn break_press_needs_a_stream_and_a_target() {
    assert!(begin_break_press(None, 5, 100, Some(cursor())).is_none());
    assert!(begin_break_press(Some((1, 2)), 5, 100, None).is_none());
    let intent = begin_break_press(Some((1, 2)), 5, 100, Some(cursor())).expect("intent");
    assert_eq!(intent.identity.level_id, 1);
    assert_eq!(intent.identity.stream_epoch, 2);
    assert_eq!(intent.identity.input_seq, 5);
    assert_eq!(intent.identity.action_seq, None);
    assert_eq!(intent.identity.prediction_tx.0, 10);
    assert!(intent.identity.depends_on.is_empty());
    assert_eq!(intent.ray.max_distance_m, 5.0f32.to_bits());
    assert_eq!(intent.ray.client_view_tick, Some(100));
    assert_eq!(intent.hit.hit_block_pos, (7, 8, 9));
    assert!(intent.place.is_none());
}

#[test]
fn place_press_needs_a_free_cell_and_a_block() {
    assert!(begin_place_press(Some((1, 2)), 5, 100, Some((cursor(), (7, 9, 9))), None).is_none());
    assert!(begin_place_press(Some((1, 2)), 5, 100, None, Some(STONE)).is_none());
    let intent = begin_place_press(Some((1, 2)), 5, 100, Some((cursor(), (7, 9, 9))), Some(STONE))
        .expect("intent");
    assert_eq!(intent.identity.prediction_tx.0, 11);
    let place = intent.place.expect("place part");
    assert_eq!(place.support_block_pos, (7, 8, 9));
    assert_eq!(place.placement_pos, (7, 9, 9));
    assert_eq!(place.block_id, STONE);
    assert!(place.expected_placement_empty && place.expected_support_solid);
}

#[test]
fn admitted_presses_become_actions_with_their_predicted_edit() {
    let admission = PressAdmission {
        target_predicted_block: Some(STONE),
        target_authoritative_block: Some(AIR),
    };
    let intent = begin_break_press(Some((1, 2)), 5, 100, Some(cursor())).expect("intent");
    assert!(finish_press(intent.clone(), None::<(PressAdmission, ())>).is_none());
    let prepared = finish_press(intent.clone(), Some((admission, ()))).expect("prepared");
    assert_eq!(prepared.kind, PreparedBlockActionKind::Break);
    assert_eq!(prepared.at_input_seq, 5);
    assert_eq!(prepared.predicted, vec![PredictedEdit::clear_block((7, 8, 9))]);
    assert_eq!(prepared.target_predicted_block, Some(STONE));
    assert_eq!(prepared.submission.intent, intent);
    assert_eq!(prepared.submission.payload, try_encode_break_payload_v2(&intent).unwrap());

    let place = begin_place_press(Some((1, 2)), 6, 100, Some((cursor(), (7, 9, 9))), Some(STONE))
        .expect("intent");
    let prepared = finish_press(place, Some((admission, ()))).expect("prepared");
    assert_eq!(prepared.kind, PreparedBlockActionKind::Place);
    assert_eq!(prepared.predicted, vec![PredictedEdit { pos: (7, 9, 9), predicted_block_id: STONE }]);
}
