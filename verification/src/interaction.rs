//! Decisions of the client-side block interaction.
//!
//! Each client tick drains a bounded batch of mouse presses. A press that
//! finds a target becomes a prepared break or place action carrying the
//! edits the client predicts. Within the batch, a break that removes a block
//! that a place of the same batch (or the place held back from the previous
//! tick) only predicted cancels both; a lone place is held back one tick so
//! that such a break can still cancel it. What the camera presents, the
//! runtime's validation and the submission happen where the tick runs; the
//! batch here decides what is submitted and what is held.

use vstd::prelude::*;
use crate::action_payloads::{
    spec_encode_terrain_interaction_payload_v2, try_encode_break_payload_v2,
    try_encode_place_payload_v2, BlockRuntimeId, ClientBlockFace, TerrainIdentityModel,
    TerrainInteractionHitV2, TerrainInteractionIdentityV2, TerrainInteractionIntentV2,
    TerrainInteractionKindV2, TerrainInteractionRayV2, TerrainIntentModel, TerrainPlaceIntentV2,
    TerrainPredictionTransactionIdV2,
};

verus! {

/// The block the client predicts at a position once its action is applied.
#[derive(Debug, Clone, Copy, PartialEq, Eq)]
pub struct PredictedEdit {
    pub pos: (i32, i32, i32),
    pub predicted_block_id: BlockRuntimeId,
}

impl PredictedEdit {
    /// The edit that predicts the block at `pos` cleared to air.
    pub fn clear_block(pos: (i32, i32, i32)) -> (edit: Self)
        ensures
            edit == (PredictedEdit { pos, predicted_block_id: BlockRuntimeId(0) }),
    {
        PredictedEdit { pos, predicted_block_id: BlockRuntimeId(0) }
    }
}

/// Whether two edits are the same.
pub fn same_edit(a: &PredictedEdit, b: &PredictedEdit) -> (same: bool)
    ensures
        same == (*a == *b),
{
    a.pos.0 == b.pos.0 && a.pos.1 == b.pos.1 && a.pos.2 == b.pos.2 && a.predicted_block_id.0
        == b.predicted_block_id.0
}

/// Index of the last edit at `pos` in `edits`, or -1.
pub open spec fn last_edit_index_at(edits: Seq<PredictedEdit>, pos: (i32, i32, i32)) -> int
    decreases edits.len(),
{
    if edits.len() == 0 {
        -1
    } else if edits.last().pos == pos {
        edits.len() - 1
    } else {
        last_edit_index_at(edits.drop_last(), pos)
    }
}

/// The block the batch's predicted edits present at `pos`: the latest edit
/// there, if any.
pub open spec fn predicted_block_at(edits: Seq<PredictedEdit>, pos: (i32, i32, i32)) -> Option<
    BlockRuntimeId,
> {
    if last_edit_index_at(edits, pos) >= 0 {
        Some(edits[last_edit_index_at(edits, pos)].predicted_block_id)
    } else {
        None
    }
}

/// The block presented at `pos`: the latest edit the batch predicts there,
/// and otherwise what the camera presents (`camera_block`).
pub fn presented_block_id_at(
    edits: &Vec<PredictedEdit>,
    pos: (i32, i32, i32),
    camera_block: Option<BlockRuntimeId>,
) -> (block: Option<BlockRuntimeId>)
    ensures
        block == match predicted_block_at(edits@, pos) {
            Some(b) => Some(b),
            None => camera_block,
        },
{
    let mut i: usize = edits.len();
    assert(edits@.take(edits@.len() as int) =~= edits@);
    while i > 0
        invariant
            0 <= i <= edits@.len(),
            last_edit_index_at(edits@, pos) == last_edit_index_at(edits@.take(i as int), pos),
        decreases i,
    {
        let e = &edits[i - 1];
        if e.pos.0 == pos.0 && e.pos.1 == pos.1 && e.pos.2 == pos.2 {
            proof {
                assert(edits@.take(i as int).last() == edits@[i - 1]);
            }
            return Some(e.predicted_block_id);
        }
        proof {
            assert(edits@.take(i as int).drop_last() =~= edits@.take(i - 1));
        }
        i = i - 1;
    }
    camera_block
}

/// Index of the last occurrence of `edit` in `edits`, or -1.
pub open spec fn last_index_of_edit(edits: Seq<PredictedEdit>, edit: PredictedEdit) -> int
    decreases edits.len(),
{
    if edits.len() == 0 {
        -1
    } else if edits.last() == edit {
        edits.len() - 1
    } else {
        last_index_of_edit(edits.drop_last(), edit)
    }
}

/// `edits` without the last occurrence of `edit` (unchanged when it does
/// not occur).
pub open spec fn without_last_edit(edits: Seq<PredictedEdit>, edit: PredictedEdit) -> Seq<
    PredictedEdit,
> {
    if last_index_of_edit(edits, edit) >= 0 {
        edits.remove(last_index_of_edit(edits, edit))
    } else {
        edits
    }
}

/// Removes the last occurrence of `edit` from the batch's edits; says
/// whether there was one.
pub fn remove_batch_predicted_edit(edits: &mut Vec<PredictedEdit>, edit: PredictedEdit) -> (removed:
    bool)
    ensures
        removed == (last_index_of_edit(old(edits)@, edit) >= 0),
        final(edits)@ == without_last_edit(old(edits)@, edit),
{
    let mut i: usize = edits.len();
    assert(edits@.take(edits@.len() as int) =~= edits@);
    while i > 0
        invariant
            0 <= i <= edits@.len(),
            edits@ == old(edits)@,
            last_index_of_edit(edits@, edit) == last_index_of_edit(edits@.take(i as int), edit),
        decreases i,
    {
        if same_edit(&edits[i - 1], &edit) {
            proof {
                assert(edits@.take(i as int).last() == edits@[i - 1]);
            }
            edits.remove(i - 1);
            return true;
        }
        proof {
            assert(edits@.take(i as int).drop_last() =~= edits@.take(i - 1));
        }
        i = i - 1;
    }
    false
}

/// The cell next to `pos` across `face`; none across a face without an axis,
/// or past the edge of the coordinate range.
pub fn add_face_offset(pos: (i32, i32, i32), face: ClientBlockFace) -> (next: Option<(i32, i32, i32)>)
    ensures
        next == match face {
            ClientBlockFace::PosX => if pos.0 < i32::MAX {
                Some(((pos.0 + 1) as i32, pos.1, pos.2))
            } else {
                None
            },
            ClientBlockFace::NegX => if pos.0 > i32::MIN {
                Some(((pos.0 - 1) as i32, pos.1, pos.2))
            } else {
                None
            },
            ClientBlockFace::PosY => if pos.1 < i32::MAX {
                Some((pos.0, (pos.1 + 1) as i32, pos.2))
            } else {
                None
            },
            ClientBlockFace::NegY => if pos.1 > i32::MIN {
                Some((pos.0, (pos.1 - 1) as i32, pos.2))
            } else {
                None
            },
            ClientBlockFace::PosZ => if pos.2 < i32::MAX {
                Some((pos.0, pos.1, (pos.2 + 1) as i32))
            } else {
                None
            },
            ClientBlockFace::NegZ => if pos.2 > i32::MIN {
                Some((pos.0, pos.1, (pos.2 - 1) as i32))
            } else {
                None
            },
            ClientBlockFace::Unsupported => None,
        },
{
    let (x, y, z) = pos;
    match face {
        ClientBlockFace::PosX => match x.checked_add(1) {
            Some(nx) => Some((nx, y, z)),
            None => None,
        },
        ClientBlockFace::NegX => match x.checked_sub(1) {
            Some(nx) => Some((nx, y, z)),
            None => None,
        },
        ClientBlockFace::PosY => match y.checked_add(1) {
            Some(ny) => Some((x, ny, z)),
            None => None,
        },
        ClientBlockFace::NegY => match y.checked_sub(1) {
            Some(ny) => Some((x, ny, z)),
            None => None,
        },
        ClientBlockFace::PosZ => match z.checked_add(1) {
            Some(nz) => Some((x, y, nz)),
            None => None,
        },
        ClientBlockFace::NegZ => match z.checked_sub(1) {
            Some(nz) => Some((x, y, nz)),
            None => None,
        },
        ClientBlockFace::Unsupported => None,
    }
}

/// The prediction transaction of an action: its input sequence number, then
/// one bit for its kind (0 for break, 1 for place).
pub fn prediction_tx_for(at_input_seq: u32, kind: TerrainInteractionKindV2) -> (tx:
    TerrainPredictionTransactionIdV2)
    ensures
        tx.0 == at_input_seq * 2 + match kind {
            TerrainInteractionKindV2::Break => 0int,
            TerrainInteractionKindV2::Place => 1int,
        },
{
    let kind_bit: u64 = match kind {
        TerrainInteractionKindV2::Break => 0,
        TerrainInteractionKindV2::Place => 1,
    };
    let seq: u64 = at_input_seq as u64;
    assert(((seq << 1u64) | kind_bit) == seq * 2 + kind_bit) by (bit_vector)
        requires
            seq < 0x1_0000_0000u64,
            kind_bit < 2u64,
    ;
    TerrainPredictionTransactionIdV2((seq << 1u64) | kind_bit)
}

/// The client's own terrain rules for local prediction: any non-air block is
/// solid and supports a placement, and only the block the client places may
/// be placed.
#[derive(Debug, Clone, Copy)]
pub struct ClientTerrainRules {
    pub allowed_place_block_id: Option<BlockRuntimeId>,
}

impl ClientTerrainRules {
    pub fn is_solid(&self, block_id: BlockRuntimeId) -> (solid: bool)
        ensures
            solid == (block_id.0 != 0),
    {
        block_id.0 != 0
    }

    pub fn is_supporting(&self, block_id: BlockRuntimeId, face: ClientBlockFace) -> (supporting:
        bool)
        ensures
            supporting == (block_id.0 != 0),
    {
        self.is_solid(block_id)
    }

    pub fn can_place_block(&self, block_id: BlockRuntimeId) -> (allowed: bool)
        ensures
            allowed == (self.allowed_place_block_id == Some(block_id)),
    {
        match self.allowed_place_block_id {
            Some(allowed) => allowed.0 == block_id.0,
            None => false,
        }
    }
}

/// A mouse button as the client input reports it.
#[derive(Debug, Clone, Copy, PartialEq, Eq, Structural)]
pub enum ClientMouseButton {
    Left,
    Right,
    Middle,
    Other,
}

/// The name of the action a mouse button stands for.
pub fn action_name(action: ClientMouseButton) -> (name: &'static str)
    ensures
        name@ == match action {
            ClientMouseButton::Left => "break"@,
            ClientMouseButton::Right => "place"@,
            ClientMouseButton::Middle => "middle"@,
            ClientMouseButton::Other => "other"@,
        },
{
    proof {
        reveal_strlit("break");
        reveal_strlit("place");
        reveal_strlit("middle");
        reveal_strlit("other");
    }
    match action {
        ClientMouseButton::Left => "break",
        ClientMouseButton::Right => "place",
        ClientMouseButton::Middle => "middle",
        ClientMouseButton::Other => "other",
    }
}

/// Why a press found nothing to act on.
pub fn missing_target_reason(action: ClientMouseButton) -> (reason: &'static str)
    ensures
        reason@ == match action {
            ClientMouseButton::Left => "no presented solid block target under cursor"@,
            ClientMouseButton::Right => "no presented place target under cursor"@,
            _ => "no block target under cursor"@,
        },
{
    proof {
        reveal_strlit("no presented solid block target under cursor");
        reveal_strlit("no presented place target under cursor");
        reveal_strlit("no block target under cursor");
    }
    match action {
        ClientMouseButton::Left => "no presented solid block target under cursor",
        ClientMouseButton::Right => "no presented place target under cursor",
        _ => "no block target under cursor",
    }
}

/// Which terrain action a prepared press is.
#[derive(Debug, Clone, Copy, PartialEq, Eq, Structural)]
pub enum PreparedBlockActionKind {
    Break,
    Place,
}

/// A press turned into an action, ready to submit: what the batch decisions
/// read of it, and `submission`, what the submission itself needs (payload,
/// intent, admission).
#[derive(Debug)]
pub struct PreparedBlockAction<T> {
    pub kind: PreparedBlockActionKind,
    pub at_input_seq: u32,
    pub predicted: Vec<PredictedEdit>,
    /// The block the batch presented at the target when the action was
    /// admitted.
    pub target_predicted_block: Option<BlockRuntimeId>,
    /// The authoritative block at the target when the action was admitted.
    pub target_authoritative_block: Option<BlockRuntimeId>,
    pub submission: T,
}

/// Mathematical value of a [`PreparedBlockAction`].
pub struct PreparedModel<T> {
    pub kind: PreparedBlockActionKind,
    pub at_input_seq: u32,
    pub predicted: Seq<PredictedEdit>,
    pub target_predicted_block: Option<BlockRuntimeId>,
    pub target_authoritative_block: Option<BlockRuntimeId>,
    pub submission: T,
}

impl<T> View for PreparedBlockAction<T> {
    type V = PreparedModel<T>;

    open spec fn view(&self) -> PreparedModel<T> {
        PreparedModel {
            kind: self.kind,
            at_input_seq: self.at_input_seq,
            predicted: self.predicted@,
            target_predicted_block: self.target_predicted_block,
            target_authoritative_block: self.target_authoritative_block,
            submission: self.submission,
        }
    }
}

impl<T> PreparedBlockAction<T> {
    /// The name of the action.
    pub fn action_name(&self) -> (name: &'static str)
        ensures
            name@ == match self.kind {
                PreparedBlockActionKind::Break => "break"@,
                PreparedBlockActionKind::Place => "place"@,
            },
    {
        proof {
            reveal_strlit("break");
            reveal_strlit("place");
        }
        match self.kind {
            PreparedBlockActionKind::Break => "break",
            PreparedBlockActionKind::Place => "place",
        }
    }
}

/// The edit a place predicted, when `next` is a break that exactly undoes
/// it: the place predicts one non-air block, the break clears that same
/// cell, the break was admitted while the batch presented the placed block
/// there, and the authoritative world holds air there.
pub open spec fn net_neutral_edit<T>(place: PreparedModel<T>, next: PreparedModel<T>) -> Option<
    PredictedEdit,
> {
    if place.kind != PreparedBlockActionKind::Place || next.kind != PreparedBlockActionKind::Break {
        None
    } else if place.predicted.len() != 1 || next.predicted.len() != 1 {
        None
    } else {
        let placed = place.predicted[0];
        let broken = next.predicted[0];
        if placed.predicted_block_id.0 == 0 || broken.predicted_block_id.0 != 0 || placed.pos
            != broken.pos || next.target_predicted_block != Some(placed.predicted_block_id) {
            None
        } else {
            match next.target_authoritative_block {
                Some(b) => if b.0 == 0 {
                    Some(placed)
                } else {
                    None
                },
                None => None,
            }
        }
    }
}

pub fn net_neutral_place_break_predicted_edit<T>(
    place: &PreparedBlockAction<T>,
    next: &PreparedBlockAction<T>,
) -> (edit: Option<PredictedEdit>)
    ensures
        edit == net_neutral_edit(place@, next@),
{
    if place.kind != PreparedBlockActionKind::Place || next.kind != PreparedBlockActionKind::Break {
        return None;
    }
    if place.predicted.len() != 1 || next.predicted.len() != 1 {
        return None;
    }
    let placed = place.predicted[0];
    let broken = next.predicted[0];
    if placed.predicted_block_id.0 == 0 {
        return None;
    }
    if broken.predicted_block_id.0 != 0 {
        return None;
    }
    if !(placed.pos.0 == broken.pos.0 && placed.pos.1 == broken.pos.1 && placed.pos.2
        == broken.pos.2) {
        return None;
    }
    match next.target_predicted_block {
        Some(b) => if b.0 != placed.predicted_block_id.0 {
            return None;
        },
        None => return None,
    }
    match next.target_authoritative_block {
        Some(b) => if b.0 != 0 {
            return None;
        },
        None => return None,
    }
    Some(placed)
}

/// The edit a press cancels against the last prepared action, if the
/// batch still holds it.
pub open spec fn same_frame_cancel<T>(
    actions: Seq<PreparedModel<T>>,
    edits: Seq<PredictedEdit>,
    next: PreparedModel<T>,
) -> Option<PredictedEdit> {
    if actions.len() == 0 {
        None
    } else {
        match net_neutral_edit(actions.last(), next) {
            Some(e) => if last_index_of_edit(edits, e) >= 0 {
                Some(e)
            } else {
                None
            },
            None => None,
        }
    }
}

/// Drops the last prepared action when `next` is a break that undoes it,
/// together with the edit it predicted; says whether it did.
pub fn coalesce_net_neutral_same_frame_place_break<T>(
    prepared_actions: &mut Vec<PreparedBlockAction<T>>,
    batch_predicted_edits: &mut Vec<PredictedEdit>,
    next: &PreparedBlockAction<T>,
) -> (coalesced: bool)
    ensures
        coalesced == same_frame_cancel(
            old(prepared_actions)@.map_values(|a: PreparedBlockAction<T>| a@),
            old(batch_predicted_edits)@,
            next@,
        ) is Some,
        coalesced ==> final(prepared_actions)@ == old(prepared_actions)@.drop_last()
            && final(batch_predicted_edits)@ == without_last_edit(
            old(batch_predicted_edits)@,
            same_frame_cancel(
                old(prepared_actions)@.map_values(|a: PreparedBlockAction<T>| a@),
                old(batch_predicted_edits)@,
                next@,
            )->Some_0,
        ),
        !coalesced ==> final(prepared_actions)@ == old(prepared_actions)@
            && final(batch_predicted_edits)@ == old(batch_predicted_edits)@,
{
    let ghost models = prepared_actions@.map_values(|a: PreparedBlockAction<T>| a@);
    let n = prepared_actions.len();
    if n == 0 {
        return false;
    }
    proof {
        assert(models.last() == prepared_actions@[n - 1]@);
    }
    let placed_edit = match net_neutral_place_break_predicted_edit(&prepared_actions[n - 1], next) {
        Some(e) => e,
        None => return false,
    };
    if !remove_batch_predicted_edit(batch_predicted_edits, placed_edit) {
        return false;
    }
    let _ = prepared_actions.pop();
    true
}

/// How a press ended within the batch.
#[derive(Debug, Clone, Copy, PartialEq, Eq, Structural)]
pub enum PressOutcome {
    /// The press undid the place held back from the previous tick: neither
    /// is submitted.
    CoalescedWithHeldPlace,
    /// The press undid the last place of this batch: neither is submitted.
    CoalescedSameFrame,
    /// The press is queued for submission.
    Queued,
}

/// One tick's batch of prepared actions.
pub struct ClickBatch<T> {
    pending_place: Option<PreparedBlockAction<T>>,
    had_pending_place_at_tick_start: bool,
    batch_predicted_edits: Vec<PredictedEdit>,
    prepared_actions: Vec<PreparedBlockAction<T>>,
}

/// Mathematical value of a [`ClickBatch`]: the place still held back from
/// the previous tick, whether one was held when the tick started, the edits
/// the batch predicts, and the actions prepared so far.
pub struct BatchModel<T> {
    pub pending: Option<PreparedModel<T>>,
    pub had_pending_at_start: bool,
    pub edits: Seq<PredictedEdit>,
    pub actions: Seq<PreparedModel<T>>,
}

pub open spec fn opt_model<T>(p: Option<PreparedBlockAction<T>>) -> Option<PreparedModel<T>> {
    match p {
        Some(a) => Some(a@),
        None => None,
    }
}

pub open spec fn action_models<T>(v: Seq<PreparedBlockAction<T>>) -> Seq<PreparedModel<T>> {
    v.map_values(|a: PreparedBlockAction<T>| a@)
}

impl<T> View for ClickBatch<T> {
    type V = BatchModel<T>;

    closed spec fn view(&self) -> BatchModel<T> {
        BatchModel {
            pending: opt_model(self.pending_place),
            had_pending_at_start: self.had_pending_place_at_tick_start,
            edits: self.batch_predicted_edits@,
            actions: action_models(self.prepared_actions@),
        }
    }
}

/// A batch as a tick starts it, with the place held back from the previous
/// tick, if any: its edits are that place's.
pub open spec fn batch_start<T>(pending: Option<PreparedModel<T>>) -> BatchModel<T> {
    BatchModel {
        pending,
        had_pending_at_start: pending is Some,
        edits: match pending {
            Some(p) => p.predicted,
            None => Seq::empty(),
        },
        actions: Seq::empty(),
    }
}

/// The edit `next` cancels against the held place, if the batch still
/// holds it.
pub open spec fn held_cancel<T>(s: BatchModel<T>, next: PreparedModel<T>) -> Option<PredictedEdit> {
    match s.pending {
        Some(prev) => match net_neutral_edit(prev, next) {
            Some(e) => if last_index_of_edit(s.edits, e) >= 0 {
                Some(e)
            } else {
                None
            },
            None => None,
        },
        None => None,
    }
}

/// `actions` followed by the held place, if any.
pub open spec fn with_pending<T>(
    actions: Seq<PreparedModel<T>>,
    pending: Option<PreparedModel<T>>,
) -> Seq<PreparedModel<T>> {
    match pending {
        Some(p) => actions.push(p),
        None => actions,
    }
}

/// The batch after one more prepared action, and how that press ended. A
/// held place is released at the first prepared press: cancelled if that
/// press undoes it, queued first otherwise. Then the press cancels against
/// the last queued place if it undoes it, or is queued with its edits.
pub open spec fn press_step<T>(s: BatchModel<T>, next: PreparedModel<T>) -> (
    BatchModel<T>,
    PressOutcome,
) {
    match held_cancel(s, next) {
        Some(e) => (
            BatchModel {
                pending: None,
                had_pending_at_start: s.had_pending_at_start,
                edits: without_last_edit(s.edits, e),
                actions: s.actions,
            },
            PressOutcome::CoalescedWithHeldPlace,
        ),
        None => {
            let actions = with_pending(s.actions, s.pending);
            match same_frame_cancel(actions, s.edits, next) {
                Some(e) => (
                    BatchModel {
                        pending: None,
                        had_pending_at_start: s.had_pending_at_start,
                        edits: without_last_edit(s.edits, e),
                        actions: actions.drop_last(),
                    },
                    PressOutcome::CoalescedSameFrame,
                ),
                None => (
                    BatchModel {
                        pending: None,
                        had_pending_at_start: s.had_pending_at_start,
                        edits: s.edits + next.predicted,
                        actions: actions.push(next),
                    },
                    PressOutcome::Queued,
                ),
            }
        },
    }
}

/// What a tick submits, in order, and the place it holds back for the next
/// tick: a lone place prepared in a tick that started with nothing held is
/// held back when holding is asked for; everything else is submitted.
pub open spec fn batch_finish<T>(s: BatchModel<T>, defer_isolated_place: bool) -> (
    Seq<PreparedModel<T>>,
    Option<PreparedModel<T>>,
) {
    let actions = with_pending(s.actions, s.pending);
    if defer_isolated_place && !s.had_pending_at_start && actions.len() == 1 && actions[0].kind
        == PreparedBlockActionKind::Place {
        (Seq::empty(), Some(actions[0]))
    } else {
        (actions, None)
    }
}

fn append_edits(edits: &mut Vec<PredictedEdit>, more: &Vec<PredictedEdit>)
    ensures
        final(edits)@ == old(edits)@ + more@,
{
    let mut i: usize = 0;
    while i < more.len()
        invariant
            0 <= i <= more@.len(),
            edits@ == old(edits)@ + more@.take(i as int),
        decreases more.len() - i,
    {
        edits.push(more[i]);
        proof {
            assert(more@.take(i + 1) =~= more@.take(i as int).push(more@[i as int]));
        }
        i = i + 1;
    }
    assert(more@.take(more@.len() as int) =~= more@);
}

impl<T> ClickBatch<T> {
    /// Starts a tick's batch with the place held back from the previous tick.
    pub fn begin(pending_place: Option<PreparedBlockAction<T>>) -> (batch: Self)
        ensures
            batch@ == batch_start(opt_model(pending_place)),
    {
        let had = pending_place.is_some();
        let mut edits: Vec<PredictedEdit> = Vec::new();
        match &pending_place {
            Some(p) => append_edits(&mut edits, &p.predicted),
            None => {},
        }
        let batch = ClickBatch {
            pending_place,
            had_pending_place_at_tick_start: had,
            batch_predicted_edits: edits,
            prepared_actions: Vec::new(),
        };
        assert(action_models(batch.prepared_actions@) =~= Seq::<PreparedModel<T>>::empty());
        batch
    }

    /// The edits the batch predicts, which later presses see.
    pub fn batch_predicted_edits(&self) -> (edits: &Vec<PredictedEdit>)
        ensures
            edits@ == self@.edits,
    {
        &self.batch_predicted_edits
    }

    /// Adds one prepared action to the batch.
    pub fn press(&mut self, prepared: PreparedBlockAction<T>) -> (outcome: PressOutcome)
        ensures
            (final(self)@, outcome) == press_step(old(self)@, prepared@),
    {
        let ghost s = self@;
        let pending = self.pending_place.take();
        match pending {
            Some(previous_place) => {
                match net_neutral_place_break_predicted_edit(&previous_place, &prepared) {
                    Some(e) => {
                        if remove_batch_predicted_edit(&mut self.batch_predicted_edits, e) {
                            return PressOutcome::CoalescedWithHeldPlace;
                        }
                    },
                    None => {},
                }
                self.prepared_actions.push(previous_place);
                proof {
                    assert(action_models(self.prepared_actions@) =~= s.actions.push(
                        previous_place@,
                    ));
                }
            },
            None => {},
        }
        let ghost actions = action_models(self.prepared_actions@);
        assert(actions == with_pending(s.actions, s.pending));
        if coalesce_net_neutral_same_frame_place_break(
            &mut self.prepared_actions,
            &mut self.batch_predicted_edits,
            &prepared,
        ) {
            proof {
                assert(action_models(self.prepared_actions@) =~= actions.drop_last());
            }
            return PressOutcome::CoalescedSameFrame;
        }
        append_edits(&mut self.batch_predicted_edits, &prepared.predicted);
        self.prepared_actions.push(prepared);
        proof {
            assert(action_models(self.prepared_actions@) =~= actions.push(prepared@));
        }
        PressOutcome::Queued
    }

    /// Ends the tick: the actions to submit, in order, and the place held
    /// back for the next tick.
    pub fn finish(self, defer_isolated_place: bool) -> (r: (
        Vec<PreparedBlockAction<T>>,
        Option<PreparedBlockAction<T>>,
    ))
        ensures
            (action_models(r.0@), opt_model(r.1)) == batch_finish(self@, defer_isolated_place),
    {
        let ghost s = self@;
        let mut actions = self.prepared_actions;
        match self.pending_place {
            Some(p) => {
                actions.push(p);
            },
            None => {},
        }
        proof {
            assert(action_models(actions@) =~= with_pending(s.actions, s.pending));
        }
        if defer_isolated_place && !self.had_pending_place_at_tick_start && actions.len() == 1
            && actions[0].kind == PreparedBlockActionKind::Place {
            let held = actions.pop();
            proof {
                assert(action_models(actions@) =~= Seq::<PreparedModel<T>>::empty());
            }
            (actions, held)
        } else {
            (actions, None)
        }
    }
}

/// The predicted edits of `actions`, in order.
pub open spec fn flat_predicted<T>(actions: Seq<PreparedModel<T>>) -> Seq<PredictedEdit>
    decreases actions.len(),
{
    if actions.len() == 0 {
        Seq::empty()
    } else {
        flat_predicted(actions.drop_last()) + actions.last().predicted
    }
}

/// The actions a batch will submit or hold: the held place, then the
/// prepared actions.
pub open spec fn held_and_prepared<T>(s: BatchModel<T>) -> Seq<PreparedModel<T>> {
    match s.pending {
        Some(p) => seq![p] + s.actions,
        None => s.actions,
    }
}

/// A batch predicts exactly the edits of the actions it will submit or
/// hold, and a place is only held while nothing else is prepared.
pub open spec fn batch_consistent<T>(s: BatchModel<T>) -> bool {
    &&& s.pending is Some ==> s.actions.len() == 0
    &&& s.edits == flat_predicted(held_and_prepared(s))
}

proof fn lemma_flat_push<T>(actions: Seq<PreparedModel<T>>, a: PreparedModel<T>)
    ensures
        flat_predicted(actions.push(a)) == flat_predicted(actions) + a.predicted,
{
    assert(actions.push(a).drop_last() =~= actions);
}

proof fn lemma_without_last_appended(edits: Seq<PredictedEdit>, e: PredictedEdit)
    ensures
        last_index_of_edit(edits.push(e), e) == edits.len(),
        without_last_edit(edits.push(e), e) == edits,
{
    assert(edits.push(e).remove(edits.len() as int) =~= edits);
}

/// A batch starts consistent.
pub proof fn lemma_batch_start_consistent<T>(pending: Option<PreparedModel<T>>)
    ensures
        batch_consistent(batch_start(pending)),
{
    if let Some(p) = pending {
        assert(seq![p] + Seq::<PreparedModel<T>>::empty() =~= Seq::<PreparedModel<T>>::empty().push(p));
        lemma_flat_push(Seq::<PreparedModel<T>>::empty(), p);
        assert(Seq::<PredictedEdit>::empty() + p.predicted =~= p.predicted);
    }
}

/// Every press keeps a batch consistent: a cancelled place takes its edit
/// out of the batch, and a queued action brings its edits in.
pub proof fn lemma_press_keeps_batch_consistent<T>(s: BatchModel<T>, next: PreparedModel<T>)
    requires
        batch_consistent(s),
    ensures
        batch_consistent(press_step(s, next).0),
{
    let actions = with_pending(s.actions, s.pending);
    assert(held_and_prepared(s) =~= actions) by {
        if let Some(p) = s.pending {
            assert(seq![p] + s.actions =~= s.actions.push(p));
        }
    }
    match held_cancel(s, next) {
        Some(e) => {
            let prev = s.pending->Some_0;
            assert(prev.predicted =~= seq![e]);
            lemma_flat_push(Seq::<PreparedModel<T>>::empty(), prev);
            assert(s.actions =~= Seq::<PreparedModel<T>>::empty());
            assert(s.edits =~= Seq::<PredictedEdit>::empty().push(e));
            lemma_without_last_appended(Seq::<PredictedEdit>::empty(), e);
        },
        None => {
            match same_frame_cancel(actions, s.edits, next) {
                Some(e) => {
                    let last = actions.last();
                    assert(last.predicted =~= seq![e]);
                    assert(actions =~= actions.drop_last().push(last));
                    lemma_flat_push(actions.drop_last(), last);
                    assert(s.edits =~= flat_predicted(actions.drop_last()).push(e));
                    lemma_without_last_appended(flat_predicted(actions.drop_last()), e);
                },
                None => {
                    lemma_flat_push(actions, next);
                },
            }
        },
    }
}

/// What a consistent batch submits, followed by the place it holds back, is
/// exactly what predicted the batch's edits.
pub proof fn lemma_finish_submits_batch_edits<T>(s: BatchModel<T>, defer_isolated_place: bool)
    requires
        batch_consistent(s),
    ensures
        ({
            let (submitted, held) = batch_finish(s, defer_isolated_place);
            flat_predicted(with_pending(submitted, held)) == s.edits
        }),
{
    let actions = with_pending(s.actions, s.pending);
    assert(held_and_prepared(s) =~= actions) by {
        if let Some(p) = s.pending {
            assert(seq![p] + s.actions =~= s.actions.push(p));
        }
    }
    let (submitted, held) = batch_finish(s, defer_isolated_place);
    if held is Some {
        assert(with_pending(submitted, held) =~= actions);
    }
}

// ---------------------------------------------------------------------------
// Preparing a press: the intent a press asks the client to admit, and the
// action it becomes once admitted.

/// How far the cursor ray reaches, in metres: the IEEE-754 bit pattern of
/// `5.0`, as rays carry their components.
pub const MAX_RAYCAST_DISTANCE_M_BITS: u32 = 0x40A0_0000;

/// What the camera presents under the cursor: the (normalised) camera ray,
/// as `f32` bit patterns, and the block and face it hits.
#[derive(Debug, Clone, Copy, PartialEq, Eq)]
pub struct CursorTarget {
    pub ray_origin_m: [u32; 3],
    pub ray_dir: [u32; 3],
    pub block_pos: (i32, i32, i32),
    pub face: ClientBlockFace,
}

/// The prediction transaction of an action, as a value.
pub open spec fn spec_prediction_tx(at_input_seq: u32, kind: TerrainInteractionKindV2) -> TerrainPredictionTransactionIdV2 {
    TerrainPredictionTransactionIdV2(
        (at_input_seq * 2 + match kind {
            TerrainInteractionKindV2::Break => 0int,
            TerrainInteractionKindV2::Place => 1int,
        }) as u64,
    )
}

/// The identity a client gives a fresh press: not yet bound to an action
/// sequence number, with no dependencies.
pub open spec fn spec_press_identity(
    level_id: u32,
    stream_epoch: u32,
    at_input_seq: u32,
    kind: TerrainInteractionKindV2,
) -> TerrainIdentityModel {
    TerrainIdentityModel {
        level_id,
        stream_epoch,
        input_seq: at_input_seq,
        action_seq: None,
        kind,
        prediction_tx: spec_prediction_tx(at_input_seq, kind),
        depends_on: Seq::empty(),
    }
}

/// The ray of a press: the camera ray, the raycast reach and the view tick.
pub open spec fn spec_press_ray(target: CursorTarget, client_view_tick: u64) -> TerrainInteractionRayV2 {
    TerrainInteractionRayV2 {
        ray_origin_m: target.ray_origin_m,
        ray_dir: target.ray_dir,
        max_distance_m: MAX_RAYCAST_DISTANCE_M_BITS,
        client_view_tick: Some(client_view_tick),
    }
}

/// The hit of a press: the block and face under the cursor.
pub open spec fn spec_press_hit(target: CursorTarget) -> TerrainInteractionHitV2 {
    TerrainInteractionHitV2 { hit_block_pos: target.block_pos, hit_face: target.face, hit_point_m: None }
}

/// The intent of a break press.
pub open spec fn spec_break_intent(
    level_id: u32,
    stream_epoch: u32,
    at_input_seq: u32,
    client_view_tick: u64,
    target: CursorTarget,
) -> TerrainIntentModel {
    TerrainIntentModel {
        identity: spec_press_identity(level_id, stream_epoch, at_input_seq, TerrainInteractionKindV2::Break),
        ray: spec_press_ray(target, client_view_tick),
        hit: spec_press_hit(target),
        place: None,
    }
}

/// The intent of a place press: `block_id` into `place_pos`, supported by
/// the block under the cursor, which must be solid, into an empty cell.
pub open spec fn spec_place_intent(
    level_id: u32,
    stream_epoch: u32,
    at_input_seq: u32,
    client_view_tick: u64,
    target: CursorTarget,
    place_pos: (i32, i32, i32),
    block_id: BlockRuntimeId,
) -> TerrainIntentModel {
    TerrainIntentModel {
        identity: spec_press_identity(level_id, stream_epoch, at_input_seq, TerrainInteractionKindV2::Place),
        ray: spec_press_ray(target, client_view_tick),
        hit: spec_press_hit(target),
        place: Some(
            TerrainPlaceIntentV2 {
                support_block_pos: target.block_pos,
                placement_pos: place_pos,
                block_id,
                expected_placement_empty: true,
                expected_support_solid: true,
            },
        ),
    }
}

fn press_identity(
    level_id: u32,
    stream_epoch: u32,
    at_input_seq: u32,
    kind: TerrainInteractionKindV2,
) -> (identity: TerrainInteractionIdentityV2)
    ensures
        identity@ == spec_press_identity(level_id, stream_epoch, at_input_seq, kind),
{
    let identity = TerrainInteractionIdentityV2 {
        level_id,
        stream_epoch,
        input_seq: at_input_seq,
        action_seq: None,
        kind,
        prediction_tx: prediction_tx_for(at_input_seq, kind),
        depends_on: Vec::new(),
    };
    assert(identity.depends_on@ =~= Seq::<TerrainPredictionTransactionIdV2>::empty());
    identity
}

/// The break intent a press asks to admit: none without an active world
/// stream (its level and epoch) or without a presented solid block under the
/// cursor.
pub fn begin_break_press(
    stream: Option<(u32, u32)>,
    at_input_seq: u32,
    client_view_tick: u64,
    target: Option<CursorTarget>,
) -> (intent: Option<TerrainInteractionIntentV2>)
    ensures
        match (stream, target) {
            (Some((level_id, stream_epoch)), Some(t)) => intent is Some && intent->Some_0@
                == spec_break_intent(level_id, stream_epoch, at_input_seq, client_view_tick, t),
            _ => intent is None,
        },
{
    let (level_id, stream_epoch) = match stream {
        Some(s) => s,
        None => return None,
    };
    let t = match target {
        Some(t) => t,
        None => return None,
    };
    Some(
        TerrainInteractionIntentV2 {
            identity: press_identity(level_id, stream_epoch, at_input_seq, TerrainInteractionKindV2::Break),
            ray: TerrainInteractionRayV2 {
                ray_origin_m: t.ray_origin_m,
                ray_dir: t.ray_dir,
                max_distance_m: MAX_RAYCAST_DISTANCE_M_BITS,
                client_view_tick: Some(client_view_tick),
            },
            hit: TerrainInteractionHitV2 { hit_block_pos: t.block_pos, hit_face: t.face, hit_point_m: None },
            place: None,
        },
    )
}

/// The place intent a press asks to admit: none without an active world
/// stream, without a presented target whose neighbour across the hit face is
/// empty (`target`, with that cell), or without the block the client places
/// (`place_block_id`).
pub fn begin_place_press(
    stream: Option<(u32, u32)>,
    at_input_seq: u32,
    client_view_tick: u64,
    target: Option<(CursorTarget, (i32, i32, i32))>,
    place_block_id: Option<BlockRuntimeId>,
) -> (intent: Option<TerrainInteractionIntentV2>)
    ensures
        match (stream, target, place_block_id) {
            (Some((level_id, stream_epoch)), Some((t, place_pos)), Some(block_id)) => intent is Some
                && intent->Some_0@ == spec_place_intent(
                level_id,
                stream_epoch,
                at_input_seq,
                client_view_tick,
                t,
                place_pos,
                block_id,
            ),
            _ => intent is None,
        },
{
    let (level_id, stream_epoch) = match stream {
        Some(s) => s,
        None => return None,
    };
    let (t, place_pos) = match target {
        Some(tp) => tp,
        None => return None,
    };
    let block_id = match place_block_id {
        Some(b) => b,
        None => return None,
    };
    Some(
        TerrainInteractionIntentV2 {
            identity: press_identity(level_id, stream_epoch, at_input_seq, TerrainInteractionKindV2::Place),
            ray: TerrainInteractionRayV2 {
                ray_origin_m: t.ray_origin_m,
                ray_dir: t.ray_dir,
                max_distance_m: MAX_RAYCAST_DISTANCE_M_BITS,
                client_view_tick: Some(client_view_tick),
            },
            hit: TerrainInteractionHitV2 { hit_block_pos: t.block_pos, hit_face: t.face, hit_point_m: None },
            place: Some(
                TerrainPlaceIntentV2 {
                    support_block_pos: t.block_pos,
                    placement_pos: place_pos,
                    block_id,
                    expected_placement_empty: true,
                    expected_support_solid: true,
                },
            ),
        },
    )
}

/// The blocks the client saw at a press's target when it admitted the press.
#[derive(Debug, Clone, Copy, PartialEq, Eq)]
pub struct PressAdmission {
    pub target_predicted_block: Option<BlockRuntimeId>,
    pub target_authoritative_block: Option<BlockRuntimeId>,
}

/// What submitting a prepared press needs: its payload, its intent, and the
/// rest of what the client noted when admitting it.
#[derive(Debug)]
pub struct PressSubmission<T> {
    pub payload: Vec<u8>,
    pub intent: TerrainInteractionIntentV2,
    pub admission: T,
}

/// The edit a press predicts: a break clears the block under the cursor, a
/// place puts its block into the placement cell.
pub open spec fn press_predicted_edit(intent: TerrainIntentModel) -> PredictedEdit {
    match intent.place {
        Some(p) => PredictedEdit { pos: p.placement_pos, predicted_block_id: p.block_id },
        None => PredictedEdit { pos: intent.hit.hit_block_pos, predicted_block_id: BlockRuntimeId(0) },
    }
}

/// The action a press becomes: none when the client refused to admit it
/// (`admission` is none) or when its payload cannot be encoded; otherwise
/// its kind, its input sequence number, its one predicted edit, the blocks
/// it was admitted against, and its payload and intent for submission.
pub fn finish_press<T>(
    intent: TerrainInteractionIntentV2,
    admission: Option<(PressAdmission, T)>,
) -> (prepared: Option<PreparedBlockAction<PressSubmission<T>>>)
    requires
        (intent.identity.kind == TerrainInteractionKindV2::Break && intent.place is None) || (
        intent.identity.kind == TerrainInteractionKindV2::Place && intent.place is Some),
    ensures
        match admission {
            None => prepared is None,
            Some((a, extra)) => match spec_encode_terrain_interaction_payload_v2(intent@) {
                Err(_) => prepared is None,
                Ok(bytes) => prepared is Some && ({
                    let p = prepared->Some_0;
                    &&& p.kind == (if intent.place is Some {
                        PreparedBlockActionKind::Place
                    } else {
                        PreparedBlockActionKind::Break
                    })
                    &&& p.at_input_seq == intent.identity.input_seq
                    &&& p.predicted@ == seq![press_predicted_edit(intent@)]
                    &&& p.target_predicted_block == a.target_predicted_block
                    &&& p.target_authoritative_block == a.target_authoritative_block
                    &&& p.submission.payload@ == bytes
                    &&& p.submission.intent == intent
                    &&& p.submission.admission == extra
                }),
            },
        },
{
    let (a, extra) = match admission {
        Some(x) => x,
        None => return None,
    };
    let is_place = intent.place.is_some();
    let encoded = if is_place {
        try_encode_place_payload_v2(&intent)
    } else {
        try_encode_break_payload_v2(&intent)
    };
    let payload = match encoded {
        Ok(p) => p,
        Err(_) => return None,
    };
    let edit = match intent.place {
        Some(p) => PredictedEdit { pos: p.placement_pos, predicted_block_id: p.block_id },
        None => PredictedEdit::clear_block(intent.hit.hit_block_pos),
    };
    let mut predicted: Vec<PredictedEdit> = Vec::new();
    predicted.push(edit);
    assert(predicted@ =~= seq![press_predicted_edit(intent@)]);
    let kind = if is_place {
        PreparedBlockActionKind::Place
    } else {
        PreparedBlockActionKind::Break
    };
    let at_input_seq = intent.identity.input_seq;
    Some(
        PreparedBlockAction {
            kind,
            at_input_seq,
            predicted,
            target_predicted_block: a.target_predicted_block,
            target_authoritative_block: a.target_authoritative_block,
            submission: PressSubmission { payload, intent, admission: extra },
        },
    )
}

} // verus!
