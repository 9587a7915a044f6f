use freven_vanilla::action_payloads::{
    decode_break_payload_v1, decode_break_payload_v2, decode_place_payload_v1,
    decode_place_payload_v2, encode_break_payload_v1, encode_place_payload_v1, face_to_wire,
    read_kind, try_encode_break_payload_v2, try_encode_place_payload_v2, ActionPayloadError,
    ActionTarget, BlockRuntimeId, BreakPayloadV1, ClientBlockFace, PlacePayloadV1,
    TerrainInteractionHitV2, TerrainInteractionIdentityV2, TerrainInteractionIntentV2,
    TerrainInteractionKindV2, TerrainInteractionRayV2, TerrainPlaceIntentV2,
    TerrainPredictionTransactionIdV2, TERRAIN_INTERACTION_V2_MAGIC,
};
use freven_vanilla::wire::{
    read_optional_var_u32, read_optional_var_u64, read_pos, read_u32_le, read_var_u32,
    read_var_u64,
};

const ACTION_PAYLOAD_LIMIT_BYTES: usize = 64;
const COMPACT_BREAK_V2_BYTES: usize = 52;
const COMPACT_PLACE_V2_BYTES: usize = 63;

fn bits3(v: [f32; 3]) -> [u32; 3] {
    [v[0].to_bits(), v[1].to_bits(), v[2].to_bits()]
}

fn test_intent(
    kind: TerrainInteractionKindV2,
    place: Option<TerrainPlaceIntentV2>,
) -> TerrainInteractionIntentV2 {
    TerrainInteractionIntentV2 {
        identity: TerrainInteractionIdentityV2 {
            level_id: 7,
            stream_epoch: 9,
            input_seq: 42,
            action_seq: Some(11),
            kind,
            prediction_tx: TerrainPredictionTransactionIdV2(0xAA55),
            depends_on: vec![
                TerrainPredictionTransactionIdV2(1),
                TerrainPredictionTransactionIdV2(2),
            ],
        },
        ray: TerrainInteractionRayV2 {
            ray_origin_m: bits3([0.5, 1.5, 0.5]),
            ray_dir: bits3([1.0, 0.0, 0.0]),
            max_distance_m: 5.0f32.to_bits(),
            client_view_tick: Some(123),
        },
        hit: TerrainInteractionHitV2 {
            hit_block_pos: (10, 64, -5),
            hit_face: ClientBlockFace::NegX,
            hit_point_m: Some(bits3([10.0, 64.5, -4.5])),
        },
        place,
    }
}

fn test_place() -> TerrainPlaceIntentV2 {
    TerrainPlaceIntentV2 {
        support_block_pos: (10, 64, -5),
        placement_pos: (11, 64, -5),
        block_id: BlockRuntimeId(3),
        expected_placement_empty: true,
        expected_support_solid: true,
    }
}

#[test]
fn roundtrip_break_payload_v1() {
    let payload = encode_break_payload_v1(2, ActionTarget { pos: (10, 64, -5), face: 3 });
    let decoded = decode_break_payload_v1(&payload).expect("decode break");
    assert_eq!(
        decoded,
        BreakPayloadV1 { status: 2, target: ActionTarget { pos: (10, 64, -5), face: 3 } }
    );
}

#[test]
fn roundtrip_place_payload_v1() {
    let payload = encode_place_payload_v1(ActionTarget { pos: (10, 64, -5), face: 3 }, 1);
    let decoded = decode_place_payload_v1(&payload).expect("decode place");
    assert_eq!(
        decoded,
        PlacePayloadV1 { target: ActionTarget { pos: (10, 64, -5), face: 3 }, block_id: 1 }
    );
}

#[test]
fn roundtrip_break_payload_v2() {
    let intent = test_intent(TerrainInteractionKindV2::Break, None);
    let payload = try_encode_break_payload_v2(&intent).expect("encode break v2");
    let decoded = decode_break_payload_v2(&payload).expect("decode break v2");
    let mut expected = intent;
    expected.hit.hit_point_m = None;
    assert_eq!(decoded, expected);
}

#[test]
fn roundtrip_place_payload_v2() {
    let intent = test_intent(TerrainInteractionKindV2::Place, Some(test_place()));
    let payload = try_encode_place_payload_v2(&intent).expect("encode place v2");
    let decoded = decode_place_payload_v2(&payload).expect("decode place v2");
    let mut expected = intent;
    expected.hit.hit_point_m = None;
    assert_eq!(decoded, expected);
}

#[test]
fn encoded_break_payload_v2_fits_action_payload_limit() {
    let intent = test_intent(TerrainInteractionKindV2::Break, None);
    let payload = try_encode_break_payload_v2(&intent).expect("encode break v2");
    assert_eq!(payload.len(), COMPACT_BREAK_V2_BYTES);
    assert!(payload.len() <= ACTION_PAYLOAD_LIMIT_BYTES);
}

#[test]
fn encoded_place_payload_v2_fits_action_payload_limit() {
    let intent = test_intent(TerrainInteractionKindV2::Place, Some(test_place()));
    let payload = try_encode_place_payload_v2(&intent).expect("encode place v2");
    assert_eq!(payload.len(), COMPACT_PLACE_V2_BYTES);
    assert!(payload.len() <= ACTION_PAYLOAD_LIMIT_BYTES);
}

#[test]
fn v1_payload_is_not_valid_v2() {
    let payload = encode_break_payload_v1(2, ActionTarget { pos: (10, 64, -5), face: 3 });
    assert_eq!(decode_break_payload_v2(&payload), Err(ActionPayloadError::InvalidV2Header));
}

#[test]
fn decode_rejects_invalid_v2_face_deterministically() {
    let mut intent = test_intent(TerrainInteractionKindV2::Break, None);
    intent.hit.hit_face = ClientBlockFace::PosZ;
    let mut payload = try_encode_break_payload_v2(&intent).expect("encode break v2");
    let mut cursor = TERRAIN_INTERACTION_V2_MAGIC.len();
    let _ = read_kind(&payload, &mut cursor).expect("kind");
    let _ = read_var_u32(&payload, &mut cursor, "level_id").expect("level_id");
    let _ = read_var_u32(&payload, &mut cursor, "stream_epoch").expect("stream_epoch");
    let _ = read_var_u32(&payload, &mut cursor, "input_seq").expect("input_seq");
    let _ = read_optional_var_u32(&payload, &mut cursor, "action_seq").expect("action_seq");
    let _ = read_var_u64(&payload, &mut cursor, "prediction_tx").expect("prediction_tx");
    let dependency_count =
        read_var_u32(&payload, &mut cursor, "dependency_count").expect("dependency_count");
    for _ in 0..dependency_count {
        let _ = read_var_u64(&payload, &mut cursor, "dependency").expect("dependency");
    }
    for field in ["ray_origin_m", "ray_origin_m", "ray_origin_m", "ray_dir", "ray_dir", "ray_dir"] {
        let _ = read_u32_le(&payload, &mut cursor, field).expect("ray component");
    }
    let _ = read_u32_le(&payload, &mut cursor, "max_distance_m").expect("max_distance_m");
    let _ = read_optional_var_u64(&payload, &mut cursor, "client_view_tick")
        .expect("client_view_tick");
    let _ = read_pos(&payload, &mut cursor, "hit_block_pos").expect("hit_block_pos");
    assert_eq!(payload[cursor], face_to_wire(ClientBlockFace::PosZ).expect("wire face"));
    payload[cursor] = 9;

    assert_eq!(
        decode_break_payload_v2(&payload),
        Err(ActionPayloadError::InvalidEnumValue { field: "hit_face", value: 9 })
    );
}

#[test]
fn break_payload_v2_refuses_place_intent() {
    let intent = test_intent(TerrainInteractionKindV2::Place, Some(test_place()));
    let payload = try_encode_place_payload_v2(&intent).expect("encode place v2");
    assert_eq!(
        decode_break_payload_v2(&payload),
        Err(ActionPayloadError::InvalidEnumValue { field: "kind", value: 1 })
    );
}

#[test]
fn truncated_v1_payload_reports_eof() {
    let payload = encode_break_payload_v1(2, ActionTarget { pos: (10, 64, -5), face: 3 });
    assert!(matches!(
        decode_break_payload_v1(&payload[..payload.len() - 1]),
        Err(ActionPayloadError::UnexpectedEof { .. })
    ));
}

#[test]
fn unsupported_face_cannot_be_encoded() {
    let mut intent = test_intent(TerrainInteractionKindV2::Break, None);
    intent.hit.hit_face = ClientBlockFace::Unsupported;
    assert_eq!(
        try_encode_break_payload_v2(&intent),
        Err(ActionPayloadError::UnsupportedClientBlockFace)
    );
}

#[test]
fn trailing_bytes_are_refused() {
    let intent = test_intent(TerrainInteractionKindV2::Break, None);
    let mut payload = try_encode_break_payload_v2(&intent).expect("encode break v2");
    payload.push(0);
    assert_eq!(decode_break_payload_v2(&payload), Err(ActionPayloadError::TrailingBytes));
}
