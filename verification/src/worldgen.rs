//! Terrain plans of the Vanilla world generators: the flat world, and the
//! visual validation world that adds a curated scene at the origin column.

use vstd::prelude::*;
use crate::action_payloads::BlockRuntimeId;
use crate::blocks::{COARSE_DIRT_KEY, DIRT_KEY, GLASS_KEY, GRASS_KEY, STONE_KEY};
use crate::text::str_eq;

verus! {

pub const FLAT_WORLDGEN_KEY: &'static str = "freven.vanilla:flat";

pub const VISUAL_VALIDATION_WORLDGEN_KEY: &'static str = "freven.vanilla:visual_validation";

/// One terrain write of a generated column.
#[derive(Debug, Clone, Copy, PartialEq, Eq)]
pub enum TerrainWrite {
    /// Every block with `min <= pos < max` becomes `block_id`.
    FillBox { min: (i32, i32, i32), max: (i32, i32, i32), block_id: BlockRuntimeId },
    /// The block at `pos` becomes `block_id`.
    SetBlock { pos: (i32, i32, i32), block_id: BlockRuntimeId },
}

/// Runtime ids of the blocks the Vanilla generators place.
#[derive(Debug, Clone, Copy, PartialEq, Eq, Structural)]
pub struct FlatBlockIds {
    pub stone: BlockRuntimeId,
    pub dirt: BlockRuntimeId,
    pub grass: BlockRuntimeId,
    pub coarse_dirt: BlockRuntimeId,
    pub glass: BlockRuntimeId,
}

/// The block a generator needs whose runtime id was not resolved.
#[derive(Debug, Clone, Copy, PartialEq, Eq, Structural)]
pub enum MissingFlatBlock {
    Stone,
    Dirt,
    Grass,
    CoarseDirt,
    Glass,
}

/// The id registered under `key`: the first entry with that key.
pub open spec fn id_for_key(ids: Seq<(String, BlockRuntimeId)>, key: Seq<char>) -> Option<BlockRuntimeId>
    decreases ids.len(),
{
    if ids.len() == 0 {
        None
    } else if ids[0].0@ == key {
        Some(ids[0].1)
    } else {
        id_for_key(ids.drop_first(), key)
    }
}

fn lookup_id(ids: &Vec<(String, BlockRuntimeId)>, key: &str) -> (id: Option<BlockRuntimeId>)
    ensures
        id == id_for_key(ids@, key@),
{
    let mut i: usize = 0;
    assert(ids@.skip(0) =~= ids@);
    while i < ids.len()
        invariant
            0 <= i <= ids@.len(),
            id_for_key(ids@, key@) == id_for_key(ids@.skip(i as int), key@),
        decreases ids.len() - i,
    {
        assert(ids@.skip(i as int)[0] == ids@[i as int]);
        assert(ids@.skip(i as int).drop_first() =~= ids@.skip(i + 1));
        if str_eq(ids[i].0.as_str(), key) {
            return Some(ids[i].1);
        }
        i = i + 1;
    }
    None
}

/// The flat block ids resolved from the registered block ids, or the first
/// block (in the order stone, dirt, grass, coarse dirt, glass) that has none.
pub open spec fn spec_resolve_flat_block_ids(ids: Seq<(String, BlockRuntimeId)>) -> Result<
    FlatBlockIds,
    MissingFlatBlock,
> {
    match (
        id_for_key(ids, STONE_KEY@),
        id_for_key(ids, DIRT_KEY@),
        id_for_key(ids, GRASS_KEY@),
        id_for_key(ids, COARSE_DIRT_KEY@),
        id_for_key(ids, GLASS_KEY@),
    ) {
        (None, _, _, _, _) => Err(MissingFlatBlock::Stone),
        (_, None, _, _, _) => Err(MissingFlatBlock::Dirt),
        (_, _, None, _, _) => Err(MissingFlatBlock::Grass),
        (_, _, _, None, _) => Err(MissingFlatBlock::CoarseDirt),
        (_, _, _, _, None) => Err(MissingFlatBlock::Glass),
        (Some(stone), Some(dirt), Some(grass), Some(coarse_dirt), Some(glass)) => Ok(
            FlatBlockIds { stone, dirt, grass, coarse_dirt, glass },
        ),
    }
}

/// Resolves the runtime ids of the blocks the generators place from the
/// registered `(key, id)` pairs.
pub fn resolve_flat_block_ids(ids: &Vec<(String, BlockRuntimeId)>) -> (r: Result<
    FlatBlockIds,
    MissingFlatBlock,
>)
    ensures
        r == spec_resolve_flat_block_ids(ids@),
{
    let stone = lookup_id(ids, STONE_KEY);
    let dirt = lookup_id(ids, DIRT_KEY);
    let grass = lookup_id(ids, GRASS_KEY);
    let coarse_dirt = lookup_id(ids, COARSE_DIRT_KEY);
    let glass = lookup_id(ids, GLASS_KEY);
    match (stone, dirt, grass, coarse_dirt, glass) {
        (None, _, _, _, _) => Err(MissingFlatBlock::Stone),
        (_, None, _, _, _) => Err(MissingFlatBlock::Dirt),
        (_, _, None, _, _) => Err(MissingFlatBlock::Grass),
        (_, _, _, None, _) => Err(MissingFlatBlock::CoarseDirt),
        (_, _, _, _, None) => Err(MissingFlatBlock::Glass),
        (Some(stone), Some(dirt), Some(grass), Some(coarse_dirt), Some(glass)) => Ok(
            FlatBlockIds { stone, dirt, grass, coarse_dirt, glass },
        ),
    }
}

/// A one-block-high layer at height `y` over the column `cx, cz` of width `dim`.
pub open spec fn layer(cx: i32, cz: i32, dim: i32, y: i32, block_id: BlockRuntimeId) -> TerrainWrite {
    TerrainWrite::FillBox {
        min: ((cx * dim) as i32, y, (cz * dim) as i32),
        max: ((cx * dim + dim) as i32, (y + 1) as i32, (cz * dim + dim) as i32),
        block_id,
    }
}

/// The flat column: three layers of stone, two of dirt and one of grass,
/// from height 0 up.
pub open spec fn flat_column(cx: i32, cz: i32, dim: i32, ids: FlatBlockIds) -> Seq<TerrainWrite> {
    seq![
        layer(cx, cz, dim, 0, ids.stone),
        layer(cx, cz, dim, 1, ids.stone),
        layer(cx, cz, dim, 2, ids.stone),
        layer(cx, cz, dim, 3, ids.dirt),
        layer(cx, cz, dim, 4, ids.dirt),
        layer(cx, cz, dim, 5, ids.grass),
    ]
}

/// The flat column is six one-block layers over the whole column, write `y`
/// filling height `y`: stone at heights 0 to 2, dirt at 3 and 4, grass at 5.
pub proof fn lemma_flat_column_layers(cx: i32, cz: i32, dim: i32, ids: FlatBlockIds)
    ensures
        flat_column(cx, cz, dim, ids).len() == 6,
        forall|y: int|
            0 <= y < 6 ==> #[trigger] flat_column(cx, cz, dim, ids)[y] == (TerrainWrite::FillBox {
                min: ((cx * dim) as i32, y as i32, (cz * dim) as i32),
                max: ((cx * dim + dim) as i32, (y + 1) as i32, (cz * dim + dim) as i32),
                block_id: if y <= 2 {
                    ids.stone
                } else if y <= 4 {
                    ids.dirt
                } else {
                    ids.grass
                },
            }),
{
    let c = flat_column(cx, cz, dim, ids);
    assert forall|y: int| 0 <= y < 6 implies #[trigger] c[y] == (TerrainWrite::FillBox {
        min: ((cx * dim) as i32, y as i32, (cz * dim) as i32),
        max: ((cx * dim + dim) as i32, (y + 1) as i32, (cz * dim + dim) as i32),
        block_id: if y <= 2 {
            ids.stone
        } else if y <= 4 {
            ids.dirt
        } else {
            ids.grass
        },
    }) by {
        if y == 0 {
        } else if y == 1 {
        } else if y == 2 {
        } else if y == 3 {
        } else if y == 4 {
        } else {
        }
    }
}

/// The column width is positive and the column's block coordinates fit in `i32`.
pub open spec fn column_in_range(cx: i32, cz: i32, dim: i32) -> bool {
    &&& 0 < dim
    &&& i32::MIN <= cx * dim
    &&& cx * dim + dim <= i32::MAX
    &&& i32::MIN <= cz * dim
    &&& cz * dim + dim <= i32::MAX
}

fn push_layer(
    writes: &mut Vec<TerrainWrite>,
    min_x: i32,
    min_z: i32,
    max_x: i32,
    max_z: i32,
    y: i32,
    block_id: BlockRuntimeId,
)
    requires
        y < i32::MAX,
    ensures
        final(writes)@ == old(writes)@.push(
            TerrainWrite::FillBox { min: (min_x, y, min_z), max: (max_x, (y + 1) as i32, max_z), block_id },
        ),
{
    writes.push(TerrainWrite::FillBox { min: (min_x, y, min_z), max: (max_x, y + 1, max_z), block_id });
}

/// Writes of the flat world's column `cx, cz`, in a world whose columns are
/// `dim` blocks wide.
pub fn flat_column_writes(cx: i32, cz: i32, dim: i32, ids: FlatBlockIds) -> (writes: Vec<
    TerrainWrite,
>)
    requires
        column_in_range(cx, cz, dim),
    ensures
        writes@ == flat_column(cx, cz, dim, ids),
        writes@.len() == 6,
        forall|y: int|
            0 <= y < 6 ==> #[trigger] writes@[y] == (TerrainWrite::FillBox {
                min: ((cx * dim) as i32, y as i32, (cz * dim) as i32),
                max: ((cx * dim + dim) as i32, (y + 1) as i32, (cz * dim + dim) as i32),
                block_id: if y <= 2 {
                    ids.stone
                } else if y <= 4 {
                    ids.dirt
                } else {
                    ids.grass
                },
            }),
{
    let min_x = cx * dim;
    let min_z = cz * dim;
    let max_x = min_x + dim;
    let max_z = min_z + dim;
    let mut writes: Vec<TerrainWrite> = Vec::new();
    push_layer(&mut writes, min_x, min_z, max_x, max_z, 0, ids.stone);
    push_layer(&mut writes, min_x, min_z, max_x, max_z, 1, ids.stone);
    push_layer(&mut writes, min_x, min_z, max_x, max_z, 2, ids.stone);
    push_layer(&mut writes, min_x, min_z, max_x, max_z, 3, ids.dirt);
    push_layer(&mut writes, min_x, min_z, max_x, max_z, 4, ids.dirt);
    push_layer(&mut writes, min_x, min_z, max_x, max_z, 5, ids.grass);
    assert(writes@ =~= flat_column(cx, cz, dim, ids));
    proof {
        lemma_flat_column_layers(cx, cz, dim, ids);
    }
    writes
}

pub open spec fn fill(min: (i32, i32, i32), max: (i32, i32, i32), block_id: BlockRuntimeId) -> TerrainWrite {
    TerrainWrite::FillBox { min, max, block_id }
}

/// The curated scene of the origin column: material swatches, a glass wall in
/// front of a stone marker, greedy-mesh UV probes, a shaded alcove, lighting
/// steps, and single-block markers.
pub open spec fn validation_scene(ids: FlatBlockIds) -> Seq<TerrainWrite> {
    seq![
        fill((4, 6, 6), (7, 7, 9), ids.stone),
        fill((8, 6, 6), (11, 7, 9), ids.dirt),
        fill((12, 6, 6), (15, 7, 9), ids.grass),
        fill((16, 6, 6), (19, 7, 9), ids.coarse_dirt),
        fill((20, 6, 6), (23, 7, 9), ids.glass),
        fill((6, 6, 14), (14, 11, 15), ids.glass),
        fill((9, 6, 16), (12, 10, 17), ids.stone),
        fill((2, 6, 22), (14, 7, 30), ids.grass),
        fill((2, 7, 30), (14, 13, 31), ids.stone),
        fill((14, 7, 22), (15, 13, 30), ids.dirt),
        fill((18, 7, 22), (19, 13, 30), ids.coarse_dirt),
        fill((20, 6, 12), (28, 7, 20), ids.stone),
        fill((20, 10, 12), (28, 11, 20), ids.stone),
        fill((20, 7, 12), (21, 10, 20), ids.stone),
        fill((27, 7, 12), (28, 10, 20), ids.stone),
        fill((20, 7, 12), (28, 10, 13), ids.stone),
        fill((25, 6, 22), (29, 7, 26), ids.grass),
        fill((26, 7, 23), (29, 8, 26), ids.dirt),
        fill((27, 8, 24), (29, 9, 26), ids.stone),
        TerrainWrite::SetBlock { pos: (4, 7, 24), block_id: ids.stone },
        TerrainWrite::SetBlock { pos: (6, 7, 24), block_id: ids.dirt },
        TerrainWrite::SetBlock { pos: (8, 7, 24), block_id: ids.grass },
        TerrainWrite::SetBlock { pos: (10, 7, 24), block_id: ids.coarse_dirt },
        TerrainWrite::SetBlock { pos: (12, 7, 24), block_id: ids.glass },
    ]
}

/// The writes of the validation scene for column `cx, cz`: the curated scene
/// at the origin column, nothing elsewhere.
pub fn validation_scene_writes(cx: i32, cz: i32, ids: FlatBlockIds) -> (writes: Option<
    Vec<TerrainWrite>,
>)
    ensures
        writes is Some == (cx == 0 && cz == 0),
        writes matches Some(w) ==> w@ == validation_scene(ids),
{
    if cx != 0 || cz != 0 {
        return None;
    }
    let mut w: Vec<TerrainWrite> = Vec::new();
    // Five material swatches on top of the flat terrain.
    let swatches: [(i32, BlockRuntimeId); 5] = [
        (4, ids.stone),
        (8, ids.dirt),
        (12, ids.grass),
        (16, ids.coarse_dirt),
        (20, ids.glass),
    ];
    let mut s: usize = 0;
    while s < 5
        invariant
            0 <= s <= 5,
            swatches@ == seq![
                (4i32, ids.stone),
                (8i32, ids.dirt),
                (12i32, ids.grass),
                (16i32, ids.coarse_dirt),
                (20i32, ids.glass),
            ],
            w@ == validation_scene(ids).take(s as int),
        decreases 5 - s,
    {
        let (x, block_id) = swatches[s];
        w.push(TerrainWrite::FillBox { min: (x, 6, 6), max: (x + 3, 7, 9), block_id });
        assert(w@ =~= validation_scene(ids).take(s + 1));
        s = s + 1;
    }
    // Transparent glass wall in front of an opaque stone marker.
    w.push(TerrainWrite::FillBox { min: (6, 6, 14), max: (14, 11, 15), block_id: ids.glass });
    w.push(TerrainWrite::FillBox { min: (9, 6, 16), max: (12, 10, 17), block_id: ids.stone });
    // Greedy-mesh UV probes: large quads catch atlas bleeding, stretching
    // and face-axis mistakes that small cubes can hide.
    w.push(TerrainWrite::FillBox { min: (2, 6, 22), max: (14, 7, 30), block_id: ids.grass });
    w.push(TerrainWrite::FillBox { min: (2, 7, 30), max: (14, 13, 31), block_id: ids.stone });
    w.push(TerrainWrite::FillBox { min: (14, 7, 22), max: (15, 13, 30), block_id: ids.dirt });
    w.push(TerrainWrite::FillBox { min: (18, 7, 22), max: (19, 13, 30), block_id: ids.coarse_dirt });
    // A small occlusion alcove: visible lighting contrast without special
    // lighting in the engine.
    w.push(TerrainWrite::FillBox { min: (20, 6, 12), max: (28, 7, 20), block_id: ids.stone });
    w.push(TerrainWrite::FillBox { min: (20, 10, 12), max: (28, 11, 20), block_id: ids.stone });
    w.push(TerrainWrite::FillBox { min: (20, 7, 12), max: (21, 10, 20), block_id: ids.stone });
    w.push(TerrainWrite::FillBox { min: (27, 7, 12), max: (28, 10, 20), block_id: ids.stone });
    w.push(TerrainWrite::FillBox { min: (20, 7, 12), max: (28, 10, 13), block_id: ids.stone });
    // Face-lighting steps expose top, side and underside shading.
    w.push(TerrainWrite::FillBox { min: (25, 6, 22), max: (29, 7, 26), block_id: ids.grass });
    w.push(TerrainWrite::FillBox { min: (26, 7, 23), max: (29, 8, 26), block_id: ids.dirt });
    w.push(TerrainWrite::FillBox { min: (27, 8, 24), max: (29, 9, 26), block_id: ids.stone });
    // Sparse single-block markers exercise SetBlock output.
    let markers: [BlockRuntimeId; 5] = [ids.stone, ids.dirt, ids.grass, ids.coarse_dirt, ids.glass];
    let mut index: usize = 0;
    while index < 5
        invariant
            0 <= index <= 5,
            markers@ == seq![ids.stone, ids.dirt, ids.grass, ids.coarse_dirt, ids.glass],
            w@ == validation_scene(ids).take(19 + index),
        decreases 5 - index,
    {
        let x = 4 + index as i32 * 2;
        w.push(TerrainWrite::SetBlock { pos: (x, 7, 24), block_id: markers[index] });
        assert(w@ =~= validation_scene(ids).take(19 + index + 1));
        index = index + 1;
    }
    assert(validation_scene(ids).take(24) =~= validation_scene(ids));
    Some(w)
}

/// A generated column: its terrain writes, and whether it carries the
/// validation scene's spawn hint.
#[derive(Debug, Clone)]
pub struct GeneratedColumn {
    pub writes: Vec<TerrainWrite>,
    pub spawn_hint: bool,
}

/// The flat world's column: the flat layers, and no spawn hint.
pub fn generate_flat_column(cx: i32, cz: i32, dim: i32, ids: FlatBlockIds) -> (column: GeneratedColumn)
    requires
        column_in_range(cx, cz, dim),
    ensures
        column.writes@ == flat_column(cx, cz, dim, ids),
        !column.spawn_hint,
{
    GeneratedColumn { writes: flat_column_writes(cx, cz, dim, ids), spawn_hint: false }
}

/// The visual validation world's column: the flat layers, then at the origin
/// column the curated scene and its spawn hint.
pub fn generate_validation_column(cx: i32, cz: i32, dim: i32, ids: FlatBlockIds) -> (column:
    GeneratedColumn)
    requires
        column_in_range(cx, cz, dim),
    ensures
        column.writes@ == flat_column(cx, cz, dim, ids) + if cx == 0 && cz == 0 {
            validation_scene(ids)
        } else {
            Seq::empty()
        },
        column.spawn_hint == (cx == 0 && cz == 0),
{
    let mut writes = flat_column_writes(cx, cz, dim, ids);
    match validation_scene_writes(cx, cz, ids) {
        Some(mut scene) => {
            writes.append(&mut scene);
            GeneratedColumn { writes, spawn_hint: true }
        },
        None => {
            assert(writes@ =~= flat_column(cx, cz, dim, ids) + Seq::<TerrainWrite>::empty());
            GeneratedColumn { writes, spawn_hint: false }
        },
    }
}

} // verus!
