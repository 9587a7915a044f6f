//! Vanilla action payload codecs.
//!
//! v1 payloads carry a block target as three zigzag varints and a face byte.
//! v2 payloads carry a full terrain interaction intent behind the `FVT2` magic.

use vstd::prelude::*;
use crate::wire::{
    bool_byte, holds_at, lemma_bool_roundtrip, lemma_holds_at_concat, lemma_opt_u32_roundtrip,
    lemma_opt_u64_roundtrip, lemma_pos_roundtrip, lemma_u32_le_roundtrip, lemma_u8_roundtrip,
    lemma_var_i32_roundtrip, lemma_var_u32_roundtrip, lemma_var_u64_roundtrip,
    lemma_var_uint_bytes_nonempty, opt_u32_bytes, opt_u64_bytes, pos_bytes, read_bool, read_optional_var_u32,
    read_optional_var_u64, read_pos, read_u32_le, read_u8, read_var_i32, read_var_u32,
    read_var_u64, spec_bool, spec_opt_u32, spec_opt_u64, spec_pos, spec_u32_le, spec_u8,
    spec_var_i32, spec_var_u32, spec_var_u64, u32_le_bytes, var_i32_bytes, var_uint_bytes,
    write_bool, write_optional_var_u32, write_optional_var_u64, write_pos, write_u32_le, write_var_i32,
    write_var_u32, write_var_u64,
};

verus! {

#[derive(Debug, Clone, Copy, PartialEq, Eq)]
pub struct ActionTarget {
    pub pos: (i32, i32, i32),
    pub face: u8,
}

#[derive(Debug, Clone, Copy, PartialEq, Eq)]
pub struct BreakPayloadV1 {
    pub status: u8,
    pub target: ActionTarget,
}

#[derive(Debug, Clone, Copy, PartialEq, Eq)]
pub struct PlacePayloadV1 {
    pub target: ActionTarget,
    pub block_id: u8,
}

#[derive(Debug, Clone, PartialEq, Eq)]
pub enum ActionPayloadError {
    UnexpectedEof { field: &'static str },
    VarintTooLong { field: &'static str },
    VarintU64TooLong { field: &'static str },
    InvalidV2Header,
    InvalidEnumValue { field: &'static str, value: u8 },
    UnsupportedClientBlockFace,
    DependencyCountTooLarge,
    TrailingBytes,
}

// ---------------------------------------------------------------------------
// v1
// ---------------------------------------------------------------------------

/// Wire bytes of a v1 break payload: status byte, position, face byte.
pub open spec fn spec_encode_break_payload_v1(status: u8, target: ActionTarget) -> Seq<u8> {
    seq![status] + pos_bytes(target.pos) + seq![target.face]
}

/// Wire bytes of a v1 place payload: position, face byte, block id byte.
pub open spec fn spec_encode_place_payload_v1(target: ActionTarget, block_id: u8) -> Seq<u8> {
    pos_bytes(target.pos) + seq![target.face] + seq![block_id]
}

/// What decoding a v1 break payload gives: each field read in order, the
/// first failure reported, and bytes left over rejected.
pub open spec fn spec_decode_break_payload_v1(p: Seq<u8>) -> Result<
    BreakPayloadV1,
    ActionPayloadError,
> {
    match spec_u8(p, 0, "status") {
        Err(e) => Err(e),
        Ok((status, c1)) => match spec_var_i32(p, c1, "pos_x") {
            Err(e) => Err(e),
            Ok((x, c2)) => match spec_var_i32(p, c2, "pos_y") {
                Err(e) => Err(e),
                Ok((y, c3)) => match spec_var_i32(p, c3, "pos_z") {
                    Err(e) => Err(e),
                    Ok((z, c4)) => match spec_u8(p, c4, "face") {
                        Err(e) => Err(e),
                        Ok((face, c5)) => if c5 != p.len() {
                            Err(ActionPayloadError::TrailingBytes)
                        } else {
                            Ok(
                                BreakPayloadV1 {
                                    status,
                                    target: ActionTarget { pos: (x, y, z), face },
                                },
                            )
                        },
                    },
                },
            },
        },
    }
}

/// What decoding a v1 place payload gives.
pub open spec fn spec_decode_place_payload_v1(p: Seq<u8>) -> Result<
    PlacePayloadV1,
    ActionPayloadError,
> {
    match spec_var_i32(p, 0, "hit_pos_x") {
        Err(e) => Err(e),
        Ok((x, c1)) => match spec_var_i32(p, c1, "hit_pos_y") {
            Err(e) => Err(e),
            Ok((y, c2)) => match spec_var_i32(p, c2, "hit_pos_z") {
                Err(e) => Err(e),
                Ok((z, c3)) => match spec_u8(p, c3, "face") {
                    Err(e) => Err(e),
                    Ok((face, c4)) => match spec_u8(p, c4, "block_id") {
                        Err(e) => Err(e),
                        Ok((block_id, c5)) => if c5 != p.len() {
                            Err(ActionPayloadError::TrailingBytes)
                        } else {
                            Ok(
                                PlacePayloadV1 {
                                    target: ActionTarget { pos: (x, y, z), face },
                                    block_id,
                                },
                            )
                        },
                    },
                },
            },
        },
    }
}

pub fn encode_break_payload_v1(status: u8, target: ActionTarget) -> (out: Vec<u8>)
    ensures
        out@ == spec_encode_break_payload_v1(status, target),
{
    let mut out = Vec::with_capacity(17);
    out.push(status);
    write_var_i32(&mut out, target.pos.0);
    write_var_i32(&mut out, target.pos.1);
    write_var_i32(&mut out, target.pos.2);
    out.push(target.face);
    assert(out@ =~= spec_encode_break_payload_v1(status, target));
    out
}

pub fn decode_break_payload_v1(payload: &[u8]) -> (decoded: Result<
    BreakPayloadV1,
    ActionPayloadError,
>)
    ensures
        decoded == spec_decode_break_payload_v1(payload@),
{
    let mut cursor: usize = 0;
    let status = read_u8(payload, &mut cursor, "status")?;
    let pos_x = read_var_i32(payload, &mut cursor, "pos_x")?;
    let pos_y = read_var_i32(payload, &mut cursor, "pos_y")?;
    let pos_z = read_var_i32(payload, &mut cursor, "pos_z")?;
    let face = read_u8(payload, &mut cursor, "face")?;
    if cursor != payload.len() {
        return Err(ActionPayloadError::TrailingBytes);
    }
    Ok(BreakPayloadV1 { status, target: ActionTarget { pos: (pos_x, pos_y, pos_z), face } })
}

pub fn encode_place_payload_v1(target: ActionTarget, block_id: u8) -> (out: Vec<u8>)
    ensures
        out@ == spec_encode_place_payload_v1(target, block_id),
{
    let mut out = Vec::with_capacity(17);
    write_var_i32(&mut out, target.pos.0);
    write_var_i32(&mut out, target.pos.1);
    write_var_i32(&mut out, target.pos.2);
    out.push(target.face);
    out.push(block_id);
    assert(out@ =~= spec_encode_place_payload_v1(target, block_id));
    out
}

pub fn decode_place_payload_v1(payload: &[u8]) -> (decoded: Result<
    PlacePayloadV1,
    ActionPayloadError,
>)
    ensures
        decoded == spec_decode_place_payload_v1(payload@),
{
    let mut cursor: usize = 0;
    let hit_x = read_var_i32(payload, &mut cursor, "hit_pos_x")?;
    let hit_y = read_var_i32(payload, &mut cursor, "hit_pos_y")?;
    let hit_z = read_var_i32(payload, &mut cursor, "hit_pos_z")?;
    let face = read_u8(payload, &mut cursor, "face")?;
    let block_id = read_u8(payload, &mut cursor, "block_id")?;
    if cursor != payload.len() {
        return Err(ActionPayloadError::TrailingBytes);
    }
    Ok(PlacePayloadV1 { target: ActionTarget { pos: (hit_x, hit_y, hit_z), face }, block_id })
}

/// Decoding an encoded v1 break payload gives back its status and target.
pub proof fn lemma_break_payload_v1_roundtrip(status: u8, target: ActionTarget)
    ensures
        spec_decode_break_payload_v1(spec_encode_break_payload_v1(status, target)) == Ok::<
            BreakPayloadV1,
            ActionPayloadError,
        >(BreakPayloadV1 { status, target }),
{
    let p = spec_encode_break_payload_v1(status, target);
    let bx = var_i32_bytes(target.pos.0);
    let by = var_i32_bytes(target.pos.1);
    let bz = var_i32_bytes(target.pos.2);
    assert(p =~= seq![status] + bx + by + bz + seq![target.face]);
    assert(p.subrange(0, p.len() as int) =~= p);
    lemma_holds_at_concat(p, 0, seq![status] + bx + by + bz, seq![target.face]);
    lemma_holds_at_concat(p, 0, seq![status] + bx + by, bz);
    lemma_holds_at_concat(p, 0, seq![status] + bx, by);
    lemma_holds_at_concat(p, 0, seq![status], bx);
    lemma_u8_roundtrip(p, 0, status, "status");
    lemma_var_i32_roundtrip(p, 1, target.pos.0, "pos_x");
    lemma_var_i32_roundtrip(p, (1 + bx.len()) as int, target.pos.1, "pos_y");
    lemma_var_i32_roundtrip(p, (1 + bx.len() + by.len()) as int, target.pos.2, "pos_z");
    lemma_u8_roundtrip(p, (1 + bx.len() + by.len() + bz.len()) as int, target.face, "face");
}

/// Decoding an encoded v1 place payload gives back its target and block id.
pub proof fn lemma_place_payload_v1_roundtrip(target: ActionTarget, block_id: u8)
    ensures
        spec_decode_place_payload_v1(spec_encode_place_payload_v1(target, block_id)) == Ok::<
            PlacePayloadV1,
            ActionPayloadError,
        >(PlacePayloadV1 { target, block_id }),
{
    let p = spec_encode_place_payload_v1(target, block_id);
    let bx = var_i32_bytes(target.pos.0);
    let by = var_i32_bytes(target.pos.1);
    let bz = var_i32_bytes(target.pos.2);
    assert(p =~= bx + by + bz + seq![target.face] + seq![block_id]);
    assert(p.subrange(0, p.len() as int) =~= p);
    lemma_holds_at_concat(p, 0, bx + by + bz + seq![target.face], seq![block_id]);
    lemma_holds_at_concat(p, 0, bx + by + bz, seq![target.face]);
    lemma_holds_at_concat(p, 0, bx + by, bz);
    lemma_holds_at_concat(p, 0, bx, by);
    lemma_var_i32_roundtrip(p, 0, target.pos.0, "hit_pos_x");
    lemma_var_i32_roundtrip(p, bx.len() as int, target.pos.1, "hit_pos_y");
    lemma_var_i32_roundtrip(p, (bx.len() + by.len()) as int, target.pos.2, "hit_pos_z");
    lemma_u8_roundtrip(p, (bx.len() + by.len() + bz.len()) as int, target.face, "face");
    lemma_u8_roundtrip(p, (bx.len() + by.len() + bz.len() + 1) as int, block_id, "block_id");
}


// ---------------------------------------------------------------------------
// v2: terrain interaction intents
// ---------------------------------------------------------------------------

/// Magic prefix of every v2 payload: `FVT2`.
pub const TERRAIN_INTERACTION_V2_MAGIC: [u8; 4] = [0x46, 0x56, 0x54, 0x32];

#[derive(Debug, Clone, Copy, PartialEq, Eq)]
pub enum TerrainInteractionKindV2 {
    Break,
    Place,
}

/// Face of a block hit by the client cursor. The six axis faces have a wire
/// code; `Unsupported` stands for any other face the engine may report,
/// which no v2 payload can carry.
#[derive(Debug, Clone, Copy, PartialEq, Eq)]
pub enum ClientBlockFace {
    NegX,
    PosX,
    NegY,
    PosY,
    NegZ,
    PosZ,
    Unsupported,
}

#[derive(Debug, Clone, Copy, PartialEq, Eq)]
pub struct TerrainPredictionTransactionIdV2(pub u64);

#[derive(Debug, Clone, Copy, PartialEq, Eq, Structural)]
pub struct BlockRuntimeId(pub u32);

#[derive(Debug, Clone, PartialEq, Eq)]
pub struct TerrainInteractionIdentityV2 {
    pub level_id: u32,
    pub stream_epoch: u32,
    pub input_seq: u32,
    pub action_seq: Option<u32>,
    pub kind: TerrainInteractionKindV2,
    pub prediction_tx: TerrainPredictionTransactionIdV2,
    pub depends_on: Vec<TerrainPredictionTransactionIdV2>,
}

/// The ray of an interaction. Each metre/direction component is held as the
/// IEEE-754 bit pattern of its `f32` value, which is what travels on the wire.
#[derive(Debug, Clone, Copy, PartialEq, Eq)]
pub struct TerrainInteractionRayV2 {
    pub ray_origin_m: [u32; 3],
    pub ray_dir: [u32; 3],
    pub max_distance_m: u32,
    pub client_view_tick: Option<u64>,
}

/// The block hit by an interaction; `hit_point_m` holds `f32` bit patterns
/// and never travels on the wire.
#[derive(Debug, Clone, Copy, PartialEq, Eq)]
pub struct TerrainInteractionHitV2 {
    pub hit_block_pos: (i32, i32, i32),
    pub hit_face: ClientBlockFace,
    pub hit_point_m: Option<[u32; 3]>,
}

#[derive(Debug, Clone, Copy, PartialEq, Eq)]
pub struct TerrainPlaceIntentV2 {
    pub support_block_pos: (i32, i32, i32),
    pub placement_pos: (i32, i32, i32),
    pub block_id: BlockRuntimeId,
    pub expected_placement_empty: bool,
    pub expected_support_solid: bool,
}

#[derive(Debug, Clone, PartialEq, Eq)]
pub struct TerrainInteractionIntentV2 {
    pub identity: TerrainInteractionIdentityV2,
    pub ray: TerrainInteractionRayV2,
    pub hit: TerrainInteractionHitV2,
    pub place: Option<TerrainPlaceIntentV2>,
}

/// Mathematical value of an identity: its dependencies as a sequence.
pub struct TerrainIdentityModel {
    pub level_id: u32,
    pub stream_epoch: u32,
    pub input_seq: u32,
    pub action_seq: Option<u32>,
    pub kind: TerrainInteractionKindV2,
    pub prediction_tx: TerrainPredictionTransactionIdV2,
    pub depends_on: Seq<TerrainPredictionTransactionIdV2>,
}

/// Mathematical value of an intent.
pub struct TerrainIntentModel {
    pub identity: TerrainIdentityModel,
    pub ray: TerrainInteractionRayV2,
    pub hit: TerrainInteractionHitV2,
    pub place: Option<TerrainPlaceIntentV2>,
}

impl View for TerrainInteractionIdentityV2 {
    type V = TerrainIdentityModel;

    open spec fn view(&self) -> TerrainIdentityModel {
        TerrainIdentityModel {
            level_id: self.level_id,
            stream_epoch: self.stream_epoch,
            input_seq: self.input_seq,
            action_seq: self.action_seq,
            kind: self.kind,
            prediction_tx: self.prediction_tx,
            depends_on: self.depends_on@,
        }
    }
}

impl View for TerrainInteractionIntentV2 {
    type V = TerrainIntentModel;

    open spec fn view(&self) -> TerrainIntentModel {
        TerrainIntentModel {
            identity: self.identity@,
            ray: self.ray,
            hit: self.hit,
            place: self.place,
        }
    }
}

/// Wire code of an interaction kind.
pub open spec fn spec_kind_to_wire(kind: TerrainInteractionKindV2) -> u8 {
    match kind {
        TerrainInteractionKindV2::Break => 0,
        TerrainInteractionKindV2::Place => 1,
    }
}

/// Wire code of an axis face; `Unsupported` has none.
pub open spec fn spec_face_to_wire(face: ClientBlockFace) -> u8
    recommends
        face != ClientBlockFace::Unsupported,
{
    match face {
        ClientBlockFace::NegX => 0,
        ClientBlockFace::PosX => 1,
        ClientBlockFace::NegY => 2,
        ClientBlockFace::PosY => 3,
        ClientBlockFace::NegZ => 4,
        ClientBlockFace::PosZ => 5,
        ClientBlockFace::Unsupported => 0,
    }
}

/// Wire bytes of a dependency list (the count is written separately).
pub open spec fn deps_bytes(deps: Seq<TerrainPredictionTransactionIdV2>) -> Seq<u8>
    decreases deps.len(),
{
    if deps.len() == 0 {
        Seq::empty()
    } else {
        deps_bytes(deps.drop_last()) + var_uint_bytes(deps.last().0 as nat)
    }
}

/// Wire bytes of an identity.
pub open spec fn identity_bytes(id: TerrainIdentityModel) -> Seq<u8> {
    seq![spec_kind_to_wire(id.kind)] + var_uint_bytes(id.level_id as nat) + var_uint_bytes(
        id.stream_epoch as nat,
    ) + var_uint_bytes(id.input_seq as nat) + opt_u32_bytes(id.action_seq) + var_uint_bytes(
        id.prediction_tx.0 as nat,
    ) + var_uint_bytes(id.depends_on.len()) + deps_bytes(id.depends_on)
}

/// Wire bytes of three `f32` bit patterns.
pub open spec fn vec3_bytes(v: [u32; 3]) -> Seq<u8> {
    u32_le_bytes(v[0]) + u32_le_bytes(v[1]) + u32_le_bytes(v[2])
}

/// Wire bytes of a ray.
pub open spec fn ray_bytes(ray: TerrainInteractionRayV2) -> Seq<u8> {
    vec3_bytes(ray.ray_origin_m) + vec3_bytes(ray.ray_dir) + u32_le_bytes(ray.max_distance_m)
        + opt_u64_bytes(ray.client_view_tick)
}

/// Wire bytes of a hit: position and face code (the hit point is not sent).
pub open spec fn hit_bytes(hit: TerrainInteractionHitV2) -> Seq<u8> {
    pos_bytes(hit.hit_block_pos) + seq![spec_face_to_wire(hit.hit_face)]
}

/// Wire bytes of the optional place section.
pub open spec fn place_bytes(place: Option<TerrainPlaceIntentV2>) -> Seq<u8> {
    match place {
        None => seq![0u8],
        Some(pl) => seq![1u8] + pos_bytes(pl.support_block_pos) + pos_bytes(pl.placement_pos)
            + var_uint_bytes(pl.block_id.0 as nat) + seq![bool_byte(pl.expected_placement_empty)]
            + seq![bool_byte(pl.expected_support_solid)],
    }
}

/// What encoding an intent gives: an error when its dependency count does not
/// fit a u32 or its face has no wire code, else the magic followed by the
/// identity, ray, hit and place sections.
pub open spec fn spec_encode_terrain_interaction_payload_v2(m: TerrainIntentModel) -> Result<
    Seq<u8>,
    ActionPayloadError,
> {
    if m.identity.depends_on.len() > u32::MAX {
        Err(ActionPayloadError::DependencyCountTooLarge)
    } else if m.hit.hit_face == ClientBlockFace::Unsupported {
        Err(ActionPayloadError::UnsupportedClientBlockFace)
    } else {
        Ok(
            TERRAIN_INTERACTION_V2_MAGIC@ + identity_bytes(m.identity) + ray_bytes(m.ray)
                + hit_bytes(m.hit) + place_bytes(m.place),
        )
    }
}

/// Reading an interaction kind byte.
pub open spec fn spec_kind(p: Seq<u8>, c: int) -> Result<
    (TerrainInteractionKindV2, int),
    ActionPayloadError,
> {
    match spec_u8(p, c, "kind") {
        Err(e) => Err(e),
        Ok((b, c1)) => if b == 0 {
            Ok((TerrainInteractionKindV2::Break, c1))
        } else if b == 1 {
            Ok((TerrainInteractionKindV2::Place, c1))
        } else {
            Err(ActionPayloadError::InvalidEnumValue { field: "kind", value: b })
        },
    }
}

/// The axis face of a wire code below six.
pub open spec fn spec_face_of_wire(b: u8) -> ClientBlockFace {
    if b == 0 {
        ClientBlockFace::NegX
    } else if b == 1 {
        ClientBlockFace::PosX
    } else if b == 2 {
        ClientBlockFace::NegY
    } else if b == 3 {
        ClientBlockFace::PosY
    } else if b == 4 {
        ClientBlockFace::NegZ
    } else {
        ClientBlockFace::PosZ
    }
}

/// Reading a face byte: codes `0..=5`, anything else is an invalid value.
pub open spec fn spec_face(p: Seq<u8>, c: int) -> Result<(ClientBlockFace, int), ActionPayloadError> {
    match spec_u8(p, c, "hit_face") {
        Err(e) => Err(e),
        Ok((b, c1)) => if b < 6 {
            Ok((spec_face_of_wire(b), c1))
        } else {
            Err(ActionPayloadError::InvalidEnumValue { field: "hit_face", value: b })
        },
    }
}

/// Reading `k` dependency varints in order.
pub open spec fn spec_read_deps(p: Seq<u8>, c: int, k: nat) -> Result<
    (Seq<TerrainPredictionTransactionIdV2>, int),
    ActionPayloadError,
>
    decreases k,
{
    if k == 0 {
        Ok((Seq::empty(), c))
    } else {
        match spec_read_deps(p, c, (k - 1) as nat) {
            Err(e) => Err(e),
            Ok((deps, c1)) => match spec_var_u64(p, c1, "dependency") {
                Err(e) => Err(e),
                Ok((d, c2)) => Ok((deps.push(TerrainPredictionTransactionIdV2(d)), c2)),
            },
        }
    }
}

/// Fixed-size head of an identity section, before its dependency list.
pub struct TerrainIdentityHeader {
    pub kind: TerrainInteractionKindV2,
    pub level_id: u32,
    pub stream_epoch: u32,
    pub input_seq: u32,
    pub action_seq: Option<u32>,
    pub prediction_tx: TerrainPredictionTransactionIdV2,
    pub dependency_count: u32,
}

/// Reading the head of an identity section.
pub open spec fn spec_read_identity_header(p: Seq<u8>, c: int) -> Result<
    (TerrainIdentityHeader, int),
    ActionPayloadError,
> {
    match spec_kind(p, c) {
        Err(e) => Err(e),
        Ok((kind, c1)) => match spec_var_u32(p, c1, "level_id") {
            Err(e) => Err(e),
            Ok((level_id, c2)) => match spec_var_u32(p, c2, "stream_epoch") {
                Err(e) => Err(e),
                Ok((stream_epoch, c3)) => match spec_var_u32(p, c3, "input_seq") {
                    Err(e) => Err(e),
                    Ok((input_seq, c4)) => match spec_opt_u32(p, c4, "action_seq") {
                        Err(e) => Err(e),
                        Ok((action_seq, c5)) => match spec_var_u64(p, c5, "prediction_tx") {
                            Err(e) => Err(e),
                            Ok((tx, c6)) => match spec_var_u32(p, c6, "dependency_count") {
                                Err(e) => Err(e),
                                Ok((count, c7)) => Ok(
                                    (
                                        TerrainIdentityHeader {
                                            kind,
                                            level_id,
                                            stream_epoch,
                                            input_seq,
                                            action_seq,
                                            prediction_tx: TerrainPredictionTransactionIdV2(tx),
                                            dependency_count: count,
                                        },
                                        c7,
                                    ),
                                ),
                            },
                        },
                    },
                },
            },
        },
    }
}

/// Reading an identity section: its head, then as many dependencies as it counts.
pub open spec fn spec_read_identity(p: Seq<u8>, c: int) -> Result<
    (TerrainIdentityModel, int),
    ActionPayloadError,
> {
    match spec_read_identity_header(p, c) {
        Err(e) => Err(e),
        Ok((h, c7)) => match spec_read_deps(p, c7, h.dependency_count as nat) {
            Err(e) => Err(e),
            Ok((depends_on, c8)) => Ok(
                (
                    TerrainIdentityModel {
                        level_id: h.level_id,
                        stream_epoch: h.stream_epoch,
                        input_seq: h.input_seq,
                        action_seq: h.action_seq,
                        kind: h.kind,
                        prediction_tx: h.prediction_tx,
                        depends_on,
                    },
                    c8,
                ),
            ),
        },
    }
}

/// Reading three `f32` bit patterns, all reported under one field name.
pub open spec fn spec_vec3(p: Seq<u8>, c: int, field: &'static str) -> Result<
    ([u32; 3], int),
    ActionPayloadError,
> {
    match spec_u32_le(p, c, field) {
        Err(e) => Err(e),
        Ok((x, c1)) => match spec_u32_le(p, c1, field) {
            Err(e) => Err(e),
            Ok((y, c2)) => match spec_u32_le(p, c2, field) {
                Err(e) => Err(e),
                Ok((z, c3)) => Ok(([x, y, z], c3)),
            },
        },
    }
}

/// Reading a ray section.
pub open spec fn spec_read_ray(p: Seq<u8>, c: int) -> Result<
    (TerrainInteractionRayV2, int),
    ActionPayloadError,
> {
    match spec_vec3(p, c, "ray_origin_m") {
        Err(e) => Err(e),
        Ok((origin, c1)) => match spec_vec3(p, c1, "ray_dir") {
            Err(e) => Err(e),
            Ok((dir, c2)) => match spec_u32_le(p, c2, "max_distance_m") {
                Err(e) => Err(e),
                Ok((max_distance, c3)) => match spec_opt_u64(p, c3, "client_view_tick") {
                    Err(e) => Err(e),
                    Ok((tick, c4)) => Ok(
                        (
                            TerrainInteractionRayV2 {
                                ray_origin_m: origin,
                                ray_dir: dir,
                                max_distance_m: max_distance,
                                client_view_tick: tick,
                            },
                            c4,
                        ),
                    ),
                },
            },
        },
    }
}

/// Reading a hit section; the decoded hit carries no hit point.
pub open spec fn spec_read_hit(p: Seq<u8>, c: int) -> Result<
    (TerrainInteractionHitV2, int),
    ActionPayloadError,
> {
    match spec_pos(p, c, "hit_block_pos") {
        Err(e) => Err(e),
        Ok((pos, c1)) => match spec_face(p, c1) {
            Err(e) => Err(e),
            Ok((face, c2)) => Ok(
                (TerrainInteractionHitV2 { hit_block_pos: pos, hit_face: face, hit_point_m: None }, c2),
            ),
        },
    }
}

/// Reading the place section: `0` for none, `1` followed by the place fields.
pub open spec fn spec_read_place(p: Seq<u8>, c: int) -> Result<
    (Option<TerrainPlaceIntentV2>, int),
    ActionPayloadError,
> {
    match spec_u8(p, c, "has_place") {
        Err(e) => Err(e),
        Ok((tag, c1)) => if tag == 0 {
            Ok((None, c1))
        } else if tag == 1 {
            match spec_pos(p, c1, "support_block_pos") {
                Err(e) => Err(e),
                Ok((support, c2)) => match spec_pos(p, c2, "placement_pos") {
                    Err(e) => Err(e),
                    Ok((placement, c3)) => match spec_var_u32(p, c3, "block_id") {
                        Err(e) => Err(e),
                        Ok((block_id, c4)) => match spec_bool(p, c4, "expected_placement_empty") {
                            Err(e) => Err(e),
                            Ok((empty, c5)) => match spec_bool(p, c5, "expected_support_solid") {
                                Err(e) => Err(e),
                                Ok((solid, c6)) => Ok(
                                    (
                                        Some(
                                            TerrainPlaceIntentV2 {
                                                support_block_pos: support,
                                                placement_pos: placement,
                                                block_id: BlockRuntimeId(block_id),
                                                expected_placement_empty: empty,
                                                expected_support_solid: solid,
                                            },
                                        ),
                                        c6,
                                    ),
                                ),
                            },
                        },
                    },
                },
            }
        } else {
            Err(ActionPayloadError::InvalidEnumValue { field: "has_place", value: tag })
        },
    }
}

/// `p` begins with the v2 magic.
pub open spec fn has_v2_magic(p: Seq<u8>) -> bool {
    p.len() >= 4 && p.subrange(0, 4) == TERRAIN_INTERACTION_V2_MAGIC@
}

/// What decoding a v2 payload gives: a header error without the magic, the
/// first failing field otherwise, trailing bytes rejected.
pub open spec fn spec_decode_terrain_interaction_payload_v2(p: Seq<u8>) -> Result<
    TerrainIntentModel,
    ActionPayloadError,
> {
    if !has_v2_magic(p) {
        Err(ActionPayloadError::InvalidV2Header)
    } else {
        match spec_read_identity(p, 4) {
            Err(e) => Err(e),
            Ok((identity, c1)) => match spec_read_ray(p, c1) {
                Err(e) => Err(e),
                Ok((ray, c2)) => match spec_read_hit(p, c2) {
                    Err(e) => Err(e),
                    Ok((hit, c3)) => match spec_read_place(p, c3) {
                        Err(e) => Err(e),
                        Ok((place, c4)) => if c4 != p.len() {
                            Err(ActionPayloadError::TrailingBytes)
                        } else {
                            Ok(TerrainIntentModel { identity, ray, hit, place })
                        },
                    },
                },
            },
        }
    }
}


// --- v2 writers ---

fn kind_to_wire(kind: TerrainInteractionKindV2) -> (b: u8)
    ensures
        b == spec_kind_to_wire(kind),
{
    match kind {
        TerrainInteractionKindV2::Break => 0,
        TerrainInteractionKindV2::Place => 1,
    }
}

pub fn face_to_wire(face: ClientBlockFace) -> (r: Result<u8, ActionPayloadError>)
    ensures
        face == ClientBlockFace::Unsupported ==> r == Err::<u8, ActionPayloadError>(
            ActionPayloadError::UnsupportedClientBlockFace,
        ),
        face != ClientBlockFace::Unsupported ==> r == Ok::<u8, ActionPayloadError>(
            spec_face_to_wire(face),
        ),
{
    match face {
        ClientBlockFace::NegX => Ok(0),
        ClientBlockFace::PosX => Ok(1),
        ClientBlockFace::NegY => Ok(2),
        ClientBlockFace::PosY => Ok(3),
        ClientBlockFace::NegZ => Ok(4),
        ClientBlockFace::PosZ => Ok(5),
        ClientBlockFace::Unsupported => Err(ActionPayloadError::UnsupportedClientBlockFace),
    }
}

fn write_identity(out: &mut Vec<u8>, id: &TerrainInteractionIdentityV2)
    requires
        id.depends_on@.len() <= u32::MAX,
    ensures
        final(out)@ == old(out)@ + identity_bytes(id@),
{
    out.push(kind_to_wire(id.kind));
    write_var_u32(out, id.level_id);
    write_var_u32(out, id.stream_epoch);
    write_var_u32(out, id.input_seq);
    write_optional_var_u32(out, id.action_seq);
    write_var_u64(out, id.prediction_tx.0);
    let count = id.depends_on.len();
    write_var_u32(out, count as u32);
    let ghost head = out@;
    let mut i: usize = 0;
    while i < count
        invariant
            0 <= i <= count,
            count == id.depends_on@.len(),
            out@ == head + deps_bytes(id.depends_on@.take(i as int)),
        decreases count - i,
    {
        write_var_u64(out, id.depends_on[i].0);
        assert(id.depends_on@.take(i + 1).drop_last() =~= id.depends_on@.take(i as int));
        assert(out@ =~= head + deps_bytes(id.depends_on@.take(i + 1)));
        i = i + 1;
    }
    assert(id.depends_on@.take(count as int) =~= id.depends_on@);
    assert(out@ =~= old(out)@ + identity_bytes(id@));
}

fn write_vec3(out: &mut Vec<u8>, v: [u32; 3])
    ensures
        final(out)@ == old(out)@ + vec3_bytes(v),
{
    write_u32_le(out, v[0]);
    write_u32_le(out, v[1]);
    write_u32_le(out, v[2]);
    assert(out@ =~= old(out)@ + vec3_bytes(v));
}

fn write_ray(out: &mut Vec<u8>, ray: &TerrainInteractionRayV2)
    ensures
        final(out)@ == old(out)@ + ray_bytes(*ray),
{
    write_vec3(out, ray.ray_origin_m);
    write_vec3(out, ray.ray_dir);
    write_u32_le(out, ray.max_distance_m);
    write_optional_var_u64(out, ray.client_view_tick);
    assert(out@ =~= old(out)@ + ray_bytes(*ray));
}

fn write_place(out: &mut Vec<u8>, place: Option<TerrainPlaceIntentV2>)
    ensures
        final(out)@ == old(out)@ + place_bytes(place),
{
    match place {
        Some(pl) => {
            out.push(1);
            write_pos(out, pl.support_block_pos);
            write_pos(out, pl.placement_pos);
            write_var_u32(out, pl.block_id.0);
            write_bool(out, pl.expected_placement_empty);
            write_bool(out, pl.expected_support_solid);
            assert(out@ =~= old(out)@ + place_bytes(place));
        },
        None => {
            out.push(0);
            assert(out@ =~= old(out)@ + place_bytes(place));
        },
    }
}

/// Encodes an intent; fails when its dependency count does not fit a u32 or
/// its hit face has no wire code.
pub fn try_encode_terrain_interaction_payload_v2(intent: &TerrainInteractionIntentV2) -> (r:
    Result<Vec<u8>, ActionPayloadError>)
    ensures
        match spec_encode_terrain_interaction_payload_v2(intent@) {
            Ok(bytes) => r is Ok && r->Ok_0@ == bytes,
            Err(e) => r == Err::<Vec<u8>, ActionPayloadError>(e),
        },
{
    if intent.identity.depends_on.len() > 0xFFFF_FFFF {
        return Err(ActionPayloadError::DependencyCountTooLarge);
    }
    let face = face_to_wire(intent.hit.hit_face)?;
    let mut out = Vec::with_capacity(96);
    out.push(TERRAIN_INTERACTION_V2_MAGIC[0]);
    out.push(TERRAIN_INTERACTION_V2_MAGIC[1]);
    out.push(TERRAIN_INTERACTION_V2_MAGIC[2]);
    out.push(TERRAIN_INTERACTION_V2_MAGIC[3]);
    assert(out@ =~= TERRAIN_INTERACTION_V2_MAGIC@);
    write_identity(&mut out, &intent.identity);
    write_ray(&mut out, &intent.ray);
    write_pos(&mut out, intent.hit.hit_block_pos);
    out.push(face);
    write_place(&mut out, intent.place);
    assert(out@ =~= TERRAIN_INTERACTION_V2_MAGIC@ + identity_bytes(intent.identity@) + ray_bytes(
        intent.ray,
    ) + hit_bytes(intent.hit) + place_bytes(intent.place));
    Ok(out)
}

// --- v2 readers ---

pub fn read_kind(payload: &[u8], cursor: &mut usize) -> (r: Result<
    TerrainInteractionKindV2,
    ActionPayloadError,
>)
    ensures
        match spec_kind(payload@, *old(cursor) as int) {
            Ok((v, c)) => r == Ok::<TerrainInteractionKindV2, ActionPayloadError>(v)
                && *final(cursor) == c,
            Err(e) => r == Err::<TerrainInteractionKindV2, ActionPayloadError>(e),
        },
{
    let b = read_u8(payload, cursor, "kind")?;
    if b == 0 {
        Ok(TerrainInteractionKindV2::Break)
    } else if b == 1 {
        Ok(TerrainInteractionKindV2::Place)
    } else {
        Err(ActionPayloadError::InvalidEnumValue { field: "kind", value: b })
    }
}

fn read_face(payload: &[u8], cursor: &mut usize) -> (r: Result<ClientBlockFace, ActionPayloadError>)
    ensures
        match spec_face(payload@, *old(cursor) as int) {
            Ok((v, c)) => r == Ok::<ClientBlockFace, ActionPayloadError>(v) && *final(cursor) == c,
            Err(e) => r == Err::<ClientBlockFace, ActionPayloadError>(e),
        },
{
    let b = read_u8(payload, cursor, "hit_face")?;
    match b {
        0 => Ok(ClientBlockFace::NegX),
        1 => Ok(ClientBlockFace::PosX),
        2 => Ok(ClientBlockFace::NegY),
        3 => Ok(ClientBlockFace::PosY),
        4 => Ok(ClientBlockFace::NegZ),
        5 => Ok(ClientBlockFace::PosZ),
        value => Err(ActionPayloadError::InvalidEnumValue { field: "hit_face", value }),
    }
}

/// The first failure within a dependency list is the failure of the whole list.
proof fn lemma_read_deps_error(p: Seq<u8>, c: int, i: nat, k: nat)
    requires
        i < k,
        spec_read_deps(p, c, i) is Ok,
        spec_var_u64(p, spec_read_deps(p, c, i)->Ok_0.1, "dependency") is Err,
    ensures
        spec_read_deps(p, c, k) == Err::<(Seq<TerrainPredictionTransactionIdV2>, int), ActionPayloadError>(
            spec_var_u64(p, spec_read_deps(p, c, i)->Ok_0.1, "dependency")->Err_0,
        ),
    decreases k - i,
{
    if k > i + 1 {
        lemma_read_deps_error(p, c, i, (k - 1) as nat);
    }
}

fn read_identity_header(payload: &[u8], cursor: &mut usize) -> (r: Result<
    (TerrainInteractionKindV2, u32, u32, u32, Option<u32>, TerrainPredictionTransactionIdV2, u32),
    ActionPayloadError,
>)
    ensures
        match spec_read_identity_header(payload@, *old(cursor) as int) {
            Ok((h, c)) => r == Ok::<
                (
                    TerrainInteractionKindV2,
                    u32,
                    u32,
                    u32,
                    Option<u32>,
                    TerrainPredictionTransactionIdV2,
                    u32,
                ),
                ActionPayloadError,
            >(
                (
                    h.kind,
                    h.level_id,
                    h.stream_epoch,
                    h.input_seq,
                    h.action_seq,
                    h.prediction_tx,
                    h.dependency_count,
                ),
            ) && *final(cursor) == c,
            Err(e) => r is Err && r->Err_0 == e,
        },
{
    let kind = read_kind(payload, cursor)?;
    let level_id = read_var_u32(payload, cursor, "level_id")?;
    let stream_epoch = read_var_u32(payload, cursor, "stream_epoch")?;
    let input_seq = read_var_u32(payload, cursor, "input_seq")?;
    let action_seq = read_optional_var_u32(payload, cursor, "action_seq")?;
    let prediction_tx = TerrainPredictionTransactionIdV2(
        read_var_u64(payload, cursor, "prediction_tx")?,
    );
    let dependency_count = read_var_u32(payload, cursor, "dependency_count")?;
    Ok((kind, level_id, stream_epoch, input_seq, action_seq, prediction_tx, dependency_count))
}

fn read_identity(payload: &[u8], cursor: &mut usize) -> (r: Result<
    TerrainInteractionIdentityV2,
    ActionPayloadError,
>)
    ensures
        match spec_read_identity(payload@, *old(cursor) as int) {
            Ok((v, c)) => r is Ok && r->Ok_0@ == v && *final(cursor) == c,
            Err(e) => r == Err::<TerrainInteractionIdentityV2, ActionPayloadError>(e),
        },
{
    let (kind, level_id, stream_epoch, input_seq, action_seq, prediction_tx, dependency_count) =
        read_identity_header(payload, cursor)?;
    let ghost c7 = *cursor as int;
    let mut depends_on: Vec<TerrainPredictionTransactionIdV2> = Vec::new();
    let mut i: u32 = 0;
    while i < dependency_count
        invariant
            0 <= i <= dependency_count,
            spec_read_identity_header(payload@, *old(cursor) as int) is Ok,
            spec_read_identity_header(payload@, *old(cursor) as int)->Ok_0.1 == c7,
            spec_read_identity_header(payload@, *old(cursor) as int)->Ok_0.0.dependency_count
                == dependency_count,
            spec_read_deps(payload@, c7, i as nat) == Ok::<
                (Seq<TerrainPredictionTransactionIdV2>, int),
                ActionPayloadError,
            >((depends_on@, *cursor as int)),
        decreases dependency_count - i,
    {
        match read_var_u64(payload, cursor, "dependency") {
            Ok(d) => {
                depends_on.push(TerrainPredictionTransactionIdV2(d));
                i = i + 1;
            },
            Err(e) => {
                proof {
                    lemma_read_deps_error(payload@, c7, i as nat, dependency_count as nat);
                }
                return Err(e);
            },
        }
    }
    Ok(
        TerrainInteractionIdentityV2 {
            level_id,
            stream_epoch,
            input_seq,
            action_seq,
            kind,
            prediction_tx,
            depends_on,
        },
    )
}


fn read_vec3(payload: &[u8], cursor: &mut usize, field: &'static str) -> (r: Result<
    [u32; 3],
    ActionPayloadError,
>)
    ensures
        match spec_vec3(payload@, *old(cursor) as int, field) {
            Ok((v, c)) => r == Ok::<[u32; 3], ActionPayloadError>(v) && *final(cursor) == c,
            Err(e) => r == Err::<[u32; 3], ActionPayloadError>(e),
        },
{
    let x = read_u32_le(payload, cursor, field)?;
    let y = read_u32_le(payload, cursor, field)?;
    let z = read_u32_le(payload, cursor, field)?;
    Ok([x, y, z])
}

fn read_ray(payload: &[u8], cursor: &mut usize) -> (r: Result<
    TerrainInteractionRayV2,
    ActionPayloadError,
>)
    ensures
        match spec_read_ray(payload@, *old(cursor) as int) {
            Ok((v, c)) => r == Ok::<TerrainInteractionRayV2, ActionPayloadError>(v)
                && *final(cursor) == c,
            Err(e) => r == Err::<TerrainInteractionRayV2, ActionPayloadError>(e),
        },
{
    let ray_origin_m = read_vec3(payload, cursor, "ray_origin_m")?;
    let ray_dir = read_vec3(payload, cursor, "ray_dir")?;
    let max_distance_m = read_u32_le(payload, cursor, "max_distance_m")?;
    let client_view_tick = read_optional_var_u64(payload, cursor, "client_view_tick")?;
    Ok(TerrainInteractionRayV2 { ray_origin_m, ray_dir, max_distance_m, client_view_tick })
}

fn read_hit(payload: &[u8], cursor: &mut usize) -> (r: Result<
    TerrainInteractionHitV2,
    ActionPayloadError,
>)
    ensures
        match spec_read_hit(payload@, *old(cursor) as int) {
            Ok((v, c)) => r == Ok::<TerrainInteractionHitV2, ActionPayloadError>(v)
                && *final(cursor) == c,
            Err(e) => r == Err::<TerrainInteractionHitV2, ActionPayloadError>(e),
        },
{
    let hit_block_pos = read_pos(payload, cursor, "hit_block_pos")?;
    let hit_face = read_face(payload, cursor)?;
    Ok(TerrainInteractionHitV2 { hit_block_pos, hit_face, hit_point_m: None })
}

fn read_place(payload: &[u8], cursor: &mut usize) -> (r: Result<
    Option<TerrainPlaceIntentV2>,
    ActionPayloadError,
>)
    ensures
        match spec_read_place(payload@, *old(cursor) as int) {
            Ok((v, c)) => r == Ok::<Option<TerrainPlaceIntentV2>, ActionPayloadError>(v)
                && *final(cursor) == c,
            Err(e) => r == Err::<Option<TerrainPlaceIntentV2>, ActionPayloadError>(e),
        },
{
    let tag = read_u8(payload, cursor, "has_place")?;
    if tag == 0 {
        Ok(None)
    } else if tag == 1 {
        let support_block_pos = read_pos(payload, cursor, "support_block_pos")?;
        let placement_pos = read_pos(payload, cursor, "placement_pos")?;
        let block_id = BlockRuntimeId(read_var_u32(payload, cursor, "block_id")?);
        let expected_placement_empty = read_bool(payload, cursor, "expected_placement_empty")?;
        let expected_support_solid = read_bool(payload, cursor, "expected_support_solid")?;
        Ok(
            Some(
                TerrainPlaceIntentV2 {
                    support_block_pos,
                    placement_pos,
                    block_id,
                    expected_placement_empty,
                    expected_support_solid,
                },
            ),
        )
    } else {
        Err(ActionPayloadError::InvalidEnumValue { field: "has_place", value: tag })
    }
}

/// Decodes a v2 payload of either kind.
pub fn decode_terrain_interaction_payload_v2(payload: &[u8]) -> (r: Result<
    TerrainInteractionIntentV2,
    ActionPayloadError,
>)
    ensures
        match spec_decode_terrain_interaction_payload_v2(payload@) {
            Ok(m) => r is Ok && r->Ok_0@ == m,
            Err(e) => r == Err::<TerrainInteractionIntentV2, ActionPayloadError>(e),
        },
{
    if payload.len() < 4 || payload[0] != TERRAIN_INTERACTION_V2_MAGIC[0] || payload[1]
        != TERRAIN_INTERACTION_V2_MAGIC[1] || payload[2] != TERRAIN_INTERACTION_V2_MAGIC[2]
        || payload[3] != TERRAIN_INTERACTION_V2_MAGIC[3] {
        proof {
            if payload@.len() >= 4 && payload@.subrange(0, 4) == TERRAIN_INTERACTION_V2_MAGIC@ {
                assert(payload@.subrange(0, 4)[0] == payload@[0]);
                assert(payload@.subrange(0, 4)[1] == payload@[1]);
                assert(payload@.subrange(0, 4)[2] == payload@[2]);
                assert(payload@.subrange(0, 4)[3] == payload@[3]);
            }
        }
        return Err(ActionPayloadError::InvalidV2Header);
    }
    assert(payload@.subrange(0, 4) =~= TERRAIN_INTERACTION_V2_MAGIC@);
    let mut cursor: usize = 4;
    let identity = read_identity(payload, &mut cursor)?;
    let ray = read_ray(payload, &mut cursor)?;
    let hit = read_hit(payload, &mut cursor)?;
    let place = read_place(payload, &mut cursor)?;
    if cursor != payload.len() {
        return Err(ActionPayloadError::TrailingBytes);
    }
    Ok(TerrainInteractionIntentV2 { identity, ray, hit, place })
}

/// A decoded intent is accepted as a break only if it is a break without a
/// place section; otherwise the error names its kind code.
pub open spec fn spec_decode_break_payload_v2(p: Seq<u8>) -> Result<
    TerrainIntentModel,
    ActionPayloadError,
> {
    match spec_decode_terrain_interaction_payload_v2(p) {
        Err(e) => Err(e),
        Ok(m) => if m.identity.kind != TerrainInteractionKindV2::Break || m.place is Some {
            Err(
                ActionPayloadError::InvalidEnumValue {
                    field: "kind",
                    value: spec_kind_to_wire(m.identity.kind),
                },
            )
        } else {
            Ok(m)
        },
    }
}

/// A decoded intent is accepted as a place only if it is a place with a
/// place section; otherwise the error names its kind code.
pub open spec fn spec_decode_place_payload_v2(p: Seq<u8>) -> Result<
    TerrainIntentModel,
    ActionPayloadError,
> {
    match spec_decode_terrain_interaction_payload_v2(p) {
        Err(e) => Err(e),
        Ok(m) => if m.identity.kind != TerrainInteractionKindV2::Place || m.place is None {
            Err(
                ActionPayloadError::InvalidEnumValue {
                    field: "kind",
                    value: spec_kind_to_wire(m.identity.kind),
                },
            )
        } else {
            Ok(m)
        },
    }
}

pub fn decode_break_payload_v2(payload: &[u8]) -> (r: Result<
    TerrainInteractionIntentV2,
    ActionPayloadError,
>)
    ensures
        match spec_decode_break_payload_v2(payload@) {
            Ok(m) => r is Ok && r->Ok_0@ == m,
            Err(e) => r == Err::<TerrainInteractionIntentV2, ActionPayloadError>(e),
        },
{
    let intent = decode_terrain_interaction_payload_v2(payload)?;
    let is_break = match intent.identity.kind {
        TerrainInteractionKindV2::Break => true,
        TerrainInteractionKindV2::Place => false,
    };
    if !is_break || intent.place.is_some() {
        return Err(
            ActionPayloadError::InvalidEnumValue {
                field: "kind",
                value: kind_to_wire(intent.identity.kind),
            },
        );
    }
    Ok(intent)
}

pub fn decode_place_payload_v2(payload: &[u8]) -> (r: Result<
    TerrainInteractionIntentV2,
    ActionPayloadError,
>)
    ensures
        match spec_decode_place_payload_v2(payload@) {
            Ok(m) => r is Ok && r->Ok_0@ == m,
            Err(e) => r == Err::<TerrainInteractionIntentV2, ActionPayloadError>(e),
        },
{
    let intent = decode_terrain_interaction_payload_v2(payload)?;
    let is_place = match intent.identity.kind {
        TerrainInteractionKindV2::Break => false,
        TerrainInteractionKindV2::Place => true,
    };
    if !is_place || intent.place.is_none() {
        return Err(
            ActionPayloadError::InvalidEnumValue {
                field: "kind",
                value: kind_to_wire(intent.identity.kind),
            },
        );
    }
    Ok(intent)
}

/// Encodes a break intent (a break without a place section).
pub fn try_encode_break_payload_v2(intent: &TerrainInteractionIntentV2) -> (r: Result<
    Vec<u8>,
    ActionPayloadError,
>)
    requires
        intent.identity.kind == TerrainInteractionKindV2::Break,
        intent.place is None,
    ensures
        match spec_encode_terrain_interaction_payload_v2(intent@) {
            Ok(bytes) => r is Ok && r->Ok_0@ == bytes,
            Err(e) => r == Err::<Vec<u8>, ActionPayloadError>(e),
        },
{
    try_encode_terrain_interaction_payload_v2(intent)
}

/// Encodes a place intent (a place with a place section).
pub fn try_encode_place_payload_v2(intent: &TerrainInteractionIntentV2) -> (r: Result<
    Vec<u8>,
    ActionPayloadError,
>)
    requires
        intent.identity.kind == TerrainInteractionKindV2::Place,
        intent.place is Some,
    ensures
        match spec_encode_terrain_interaction_payload_v2(intent@) {
            Ok(bytes) => r is Ok && r->Ok_0@ == bytes,
            Err(e) => r == Err::<Vec<u8>, ActionPayloadError>(e),
        },
{
    try_encode_terrain_interaction_payload_v2(intent)
}


// --- v2 laws ---

proof fn lemma_deps_roundtrip(p: Seq<u8>, c: int, deps: Seq<TerrainPredictionTransactionIdV2>)
    requires
        holds_at(p, c, deps_bytes(deps)),
    ensures
        spec_read_deps(p, c, deps.len()) == Ok::<
            (Seq<TerrainPredictionTransactionIdV2>, int),
            ActionPayloadError,
        >((deps, c + deps_bytes(deps).len())),
    decreases deps.len(),
{
    if deps.len() > 0 {
        let init = deps.drop_last();
        let last = deps.last();
        lemma_holds_at_concat(p, c, deps_bytes(init), var_uint_bytes(last.0 as nat));
        lemma_deps_roundtrip(p, c, init);
        lemma_var_u64_roundtrip(p, c + deps_bytes(init).len(), last.0, "dependency");
        assert(init.push(TerrainPredictionTransactionIdV2(last.0)) =~= deps);
    } else {
        assert(deps =~= Seq::<TerrainPredictionTransactionIdV2>::empty());
    }
}

proof fn lemma_identity_roundtrip(p: Seq<u8>, c: int, id: TerrainIdentityModel)
    requires
        holds_at(p, c, identity_bytes(id)),
        id.depends_on.len() <= u32::MAX,
    ensures
        spec_read_identity(p, c) == Ok::<(TerrainIdentityModel, int), ActionPayloadError>(
            (id, c + identity_bytes(id).len()),
        ),
{
    let b0 = seq![spec_kind_to_wire(id.kind)];
    let b1 = var_uint_bytes(id.level_id as nat);
    let b2 = var_uint_bytes(id.stream_epoch as nat);
    let b3 = var_uint_bytes(id.input_seq as nat);
    let b4 = opt_u32_bytes(id.action_seq);
    let b5 = var_uint_bytes(id.prediction_tx.0 as nat);
    let b6 = var_uint_bytes(id.depends_on.len());
    let b7 = deps_bytes(id.depends_on);
    lemma_holds_at_concat(p, c, b0 + b1 + b2 + b3 + b4 + b5 + b6, b7);
    lemma_holds_at_concat(p, c, b0 + b1 + b2 + b3 + b4 + b5, b6);
    lemma_holds_at_concat(p, c, b0 + b1 + b2 + b3 + b4, b5);
    lemma_holds_at_concat(p, c, b0 + b1 + b2 + b3, b4);
    lemma_holds_at_concat(p, c, b0 + b1 + b2, b3);
    lemma_holds_at_concat(p, c, b0 + b1, b2);
    lemma_holds_at_concat(p, c, b0, b1);
    let c1 = c + 1;
    let c2 = c1 + b1.len();
    let c3 = c2 + b2.len();
    let c4 = c3 + b3.len();
    let c5 = c4 + b4.len();
    let c6 = c5 + b5.len();
    let c7 = c6 + b6.len();
    lemma_u8_roundtrip(p, c, spec_kind_to_wire(id.kind), "kind");
    lemma_var_u32_roundtrip(p, c1, id.level_id, "level_id");
    lemma_var_u32_roundtrip(p, c2, id.stream_epoch, "stream_epoch");
    lemma_var_u32_roundtrip(p, c3, id.input_seq, "input_seq");
    lemma_opt_u32_roundtrip(p, c4, id.action_seq, "action_seq");
    lemma_var_u64_roundtrip(p, c5, id.prediction_tx.0, "prediction_tx");
    let count = id.depends_on.len() as u32;
    assert(count as nat == id.depends_on.len());
    lemma_var_u32_roundtrip(p, c6, count, "dependency_count");
    lemma_deps_roundtrip(p, c7, id.depends_on);
    assert(spec_read_identity_header(p, c) == Ok::<(TerrainIdentityHeader, int), ActionPayloadError>(
        (
            TerrainIdentityHeader {
                kind: id.kind,
                level_id: id.level_id,
                stream_epoch: id.stream_epoch,
                input_seq: id.input_seq,
                action_seq: id.action_seq,
                prediction_tx: TerrainPredictionTransactionIdV2(id.prediction_tx.0),
                dependency_count: count,
            },
            c7,
        ),
    ));
}

proof fn lemma_vec3_roundtrip(p: Seq<u8>, c: int, v: [u32; 3], field: &'static str)
    requires
        holds_at(p, c, vec3_bytes(v)),
    ensures
        spec_vec3(p, c, field) == Ok::<([u32; 3], int), ActionPayloadError>((v, c + 12)),
{
    lemma_holds_at_concat(p, c, u32_le_bytes(v[0]) + u32_le_bytes(v[1]), u32_le_bytes(v[2]));
    lemma_holds_at_concat(p, c, u32_le_bytes(v[0]), u32_le_bytes(v[1]));
    lemma_u32_le_roundtrip(p, c, v[0], field);
    lemma_u32_le_roundtrip(p, c + 4, v[1], field);
    lemma_u32_le_roundtrip(p, c + 8, v[2], field);
    assert([v[0], v[1], v[2]] =~= v);
}

proof fn lemma_ray_roundtrip(p: Seq<u8>, c: int, ray: TerrainInteractionRayV2)
    requires
        holds_at(p, c, ray_bytes(ray)),
    ensures
        spec_read_ray(p, c) == Ok::<(TerrainInteractionRayV2, int), ActionPayloadError>(
            (ray, c + ray_bytes(ray).len()),
        ),
{
    let a = vec3_bytes(ray.ray_origin_m);
    let b = vec3_bytes(ray.ray_dir);
    let d = u32_le_bytes(ray.max_distance_m);
    let t = opt_u64_bytes(ray.client_view_tick);
    lemma_holds_at_concat(p, c, a + b + d, t);
    lemma_holds_at_concat(p, c, a + b, d);
    lemma_holds_at_concat(p, c, a, b);
    lemma_vec3_roundtrip(p, c, ray.ray_origin_m, "ray_origin_m");
    lemma_vec3_roundtrip(p, c + 12, ray.ray_dir, "ray_dir");
    lemma_u32_le_roundtrip(p, c + 24, ray.max_distance_m, "max_distance_m");
    lemma_opt_u64_roundtrip(p, c + 28, ray.client_view_tick, "client_view_tick");
}

proof fn lemma_hit_roundtrip(p: Seq<u8>, c: int, hit: TerrainInteractionHitV2)
    requires
        holds_at(p, c, hit_bytes(hit)),
        hit.hit_face != ClientBlockFace::Unsupported,
    ensures
        spec_read_hit(p, c) == Ok::<(TerrainInteractionHitV2, int), ActionPayloadError>(
            (TerrainInteractionHitV2 { hit_point_m: None, ..hit }, c + hit_bytes(hit).len()),
        ),
{
    let a = pos_bytes(hit.hit_block_pos);
    lemma_holds_at_concat(p, c, a, seq![spec_face_to_wire(hit.hit_face)]);
    lemma_pos_roundtrip(p, c, hit.hit_block_pos, "hit_block_pos");
    lemma_u8_roundtrip(p, c + a.len(), spec_face_to_wire(hit.hit_face), "hit_face");
}

proof fn lemma_place_roundtrip(p: Seq<u8>, c: int, place: Option<TerrainPlaceIntentV2>)
    requires
        holds_at(p, c, place_bytes(place)),
    ensures
        spec_read_place(p, c) == Ok::<(Option<TerrainPlaceIntentV2>, int), ActionPayloadError>(
            (place, c + place_bytes(place).len()),
        ),
{
    match place {
        None => {
            lemma_u8_roundtrip(p, c, 0u8, "has_place");
        },
        Some(pl) => {
            let b0 = seq![1u8];
            let b1 = pos_bytes(pl.support_block_pos);
            let b2 = pos_bytes(pl.placement_pos);
            let b3 = var_uint_bytes(pl.block_id.0 as nat);
            let b4 = seq![bool_byte(pl.expected_placement_empty)];
            let b5 = seq![bool_byte(pl.expected_support_solid)];
            lemma_holds_at_concat(p, c, b0 + b1 + b2 + b3 + b4, b5);
            lemma_holds_at_concat(p, c, b0 + b1 + b2 + b3, b4);
            lemma_holds_at_concat(p, c, b0 + b1 + b2, b3);
            lemma_holds_at_concat(p, c, b0 + b1, b2);
            lemma_holds_at_concat(p, c, b0, b1);
            lemma_u8_roundtrip(p, c, 1u8, "has_place");
            lemma_pos_roundtrip(p, c + 1, pl.support_block_pos, "support_block_pos");
            lemma_pos_roundtrip(p, c + 1 + b1.len(), pl.placement_pos, "placement_pos");
            lemma_var_u32_roundtrip(p, c + 1 + b1.len() + b2.len(), pl.block_id.0, "block_id");
            lemma_bool_roundtrip(
                p,
                c + 1 + b1.len() + b2.len() + b3.len(),
                pl.expected_placement_empty,
                "expected_placement_empty",
            );
            lemma_bool_roundtrip(
                p,
                c + 1 + b1.len() + b2.len() + b3.len() + 1,
                pl.expected_support_solid,
                "expected_support_solid",
            );
        },
    }
}

/// What a decoder gives back for an encoded intent: the same intent, except
/// that the hit point, which is not sent, is absent.
pub open spec fn without_hit_point(m: TerrainIntentModel) -> TerrainIntentModel {
    TerrainIntentModel { hit: TerrainInteractionHitV2 { hit_point_m: None, ..m.hit }, ..m }
}

/// Decoding the encoding of any encodable intent gives that intent back,
/// without its hit point.
#[verifier::rlimit(40)]
pub proof fn lemma_terrain_interaction_payload_v2_roundtrip(m: TerrainIntentModel)
    requires
        spec_encode_terrain_interaction_payload_v2(m) is Ok,
    ensures
        spec_decode_terrain_interaction_payload_v2(
            spec_encode_terrain_interaction_payload_v2(m)->Ok_0,
        ) == Ok::<TerrainIntentModel, ActionPayloadError>(without_hit_point(m)),
{
    let magic = TERRAIN_INTERACTION_V2_MAGIC@;
    let bi = identity_bytes(m.identity);
    let br = ray_bytes(m.ray);
    let bh = hit_bytes(m.hit);
    let bp = place_bytes(m.place);
    let p = magic + bi + br + bh + bp;
    assert(spec_encode_terrain_interaction_payload_v2(m)->Ok_0 == p);
    let c1: int = 4 + bi.len() as int;
    let c2: int = c1 + br.len();
    let c3: int = c2 + bh.len();
    assert(magic.len() == 4);
    assert(holds_at(p, 4, bi) && holds_at(p, c1, br) && holds_at(p, c2, bh) && holds_at(p, c3, bp)
        && has_v2_magic(p) && c3 + bp.len() == p.len()) by {
        assert(p.subrange(0, p.len() as int) =~= p);
        lemma_holds_at_concat(p, 0, magic + bi + br + bh, bp);
        lemma_holds_at_concat(p, 0, magic + bi + br, bh);
        lemma_holds_at_concat(p, 0, magic + bi, br);
        lemma_holds_at_concat(p, 0, magic, bi);
    }
    lemma_identity_roundtrip(p, 4, m.identity);
    lemma_ray_roundtrip(p, c1, m.ray);
    lemma_hit_roundtrip(p, c2, m.hit);
    lemma_place_roundtrip(p, c3, m.place);
}

/// An encoded break intent decodes as a break.
pub proof fn lemma_break_payload_v2_roundtrip(m: TerrainIntentModel)
    requires
        spec_encode_terrain_interaction_payload_v2(m) is Ok,
        m.identity.kind == TerrainInteractionKindV2::Break,
        m.place is None,
    ensures
        spec_decode_break_payload_v2(spec_encode_terrain_interaction_payload_v2(m)->Ok_0) == Ok::<
            TerrainIntentModel,
            ActionPayloadError,
        >(without_hit_point(m)),
{
    lemma_terrain_interaction_payload_v2_roundtrip(m);
}

/// An encoded place intent decodes as a place.
pub proof fn lemma_place_payload_v2_roundtrip(m: TerrainIntentModel)
    requires
        spec_encode_terrain_interaction_payload_v2(m) is Ok,
        m.identity.kind == TerrainInteractionKindV2::Place,
        m.place is Some,
    ensures
        spec_decode_place_payload_v2(spec_encode_terrain_interaction_payload_v2(m)->Ok_0) == Ok::<
            TerrainIntentModel,
            ActionPayloadError,
        >(without_hit_point(m)),
{
    lemma_terrain_interaction_payload_v2_roundtrip(m);
}

/// A v1 payload never passes as v2: without the magic it is a header error.
pub proof fn lemma_v2_decode_requires_magic(p: Seq<u8>)
    requires
        !has_v2_magic(p),
    ensures
        spec_decode_break_payload_v2(p) == Err::<TerrainIntentModel, ActionPayloadError>(
            ActionPayloadError::InvalidV2Header,
        ),
        spec_decode_place_payload_v2(p) == Err::<TerrainIntentModel, ActionPayloadError>(
            ActionPayloadError::InvalidV2Header,
        ),
{
}

} // verus!
