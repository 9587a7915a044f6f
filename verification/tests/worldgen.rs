use freven_vanilla::action_payloads::BlockRuntimeId;
use freven_vanilla::blocks::{COARSE_DIRT_KEY, DIRT_KEY, GLASS_KEY, GRASS_KEY, STONE_KEY};
use freven_vanilla::worldgen::{
    generate_flat_column, generate_validation_column, resolve_flat_block_ids, FlatBlockIds,
    MissingFlatBlock, TerrainWrite,
};

const COLUMN_WIDTH: i32 = 32;

fn test_ids() -> FlatBlockIds {
    let ids = vec![
        (STONE_KEY.to_string(), BlockRuntimeId(1)),
        (DIRT_KEY.to_string(), BlockRuntimeId(2)),
        (GRASS_KEY.to_string(), BlockRuntimeId(3)),
        (COARSE_DIRT_KEY.to_string(), BlockRuntimeId(4)),
        (GLASS_KEY.to_string(), BlockRuntimeId(5)),
    ];
    resolve_flat_block_ids(&ids).expect("all flat blocks resolve")
}

#[test]
fn flat_worldgen_keeps_small_default_flat_column() {
    let column = generate_flat_column(0, 0, COLUMN_WIDTH, test_ids());

    assert_eq!(column.writes.len(), 6);
    assert!(!column.spawn_hint);
    assert!(column.writes.iter().all(|write| matches!(write, TerrainWrite::FillBox { .. })));
}

#[test]
fn visual_validation_worldgen_emits_curated_origin_scene() {
    let column = generate_validation_column(0, 0, COLUMN_WIDTH, test_ids());

    assert!(column.spawn_hint, "visual validation scene should provide a screenshot-friendly spawn hint");
    assert!(column.writes.len() > 24);
    assert!(
        column.writes.iter().filter(|write| matches!(write, TerrainWrite::FillBox { .. })).count()
            >= 20
    );
    assert!(column.writes.iter().any(|write| matches!(
        write,
        TerrainWrite::FillBox { block_id, .. } if *block_id == BlockRuntimeId(5)
    )));
    assert!(column.writes.iter().any(|write| matches!(
        write,
        TerrainWrite::SetBlock { block_id, .. } if *block_id == BlockRuntimeId(4)
    )));
}

#[test]
fn visual_validation_worldgen_keeps_other_columns_flat() {
    let column = generate_validation_column(1, 0, COLUMN_WIDTH, test_ids());

    assert_eq!(column.writes.len(), 6);
    assert!(!column.spawn_hint);
    assert!(column.writes.iter().all(|write| matches!(write, TerrainWrite::FillBox { .. })));
}

#[test]
fn flat_column_layers_cover_the_column() {
    let column = generate_flat_column(-1, 2, 16, test_ids());
    assert_eq!(
        column.writes[0],
        TerrainWrite::FillBox { min: (-16, 0, 32), max: (0, 1, 48), block_id: BlockRuntimeId(1) }
    );
    assert_eq!(
        column.writes[5],
        TerrainWrite::FillBox { min: (-16, 5, 32), max: (0, 6, 48), block_id: BlockRuntimeId(3) }
    );
    assert_eq!(
        column.writes[3],
        TerrainWrite::FillBox { min: (-16, 3, 32), max: (0, 4, 48), block_id: BlockRuntimeId(2) }
    );
}

#[test]
fn validation_scene_markers_are_spaced_by_two() {
    let column = generate_validation_column(0, 0, COLUMN_WIDTH, test_ids());
    let markers: Vec<_> = column
        .writes
        .iter()
        .filter_map(|write| match write {
            TerrainWrite::SetBlock { pos, block_id } => Some((*pos, *block_id)),
            _ => None,
        })
        .collect();
    assert_eq!(
        markers,
        vec![
            ((4, 7, 24), BlockRuntimeId(1)),
            ((6, 7, 24), BlockRuntimeId(2)),
            ((8, 7, 24), BlockRuntimeId(3)),
            ((10, 7, 24), BlockRuntimeId(4)),
            ((12, 7, 24), BlockRuntimeId(5)),
        ]
    );
}

#[test]
fn missing_block_id_is_reported_in_order() {
    let ids = vec![(STONE_KEY.to_string(), BlockRuntimeId(1)), (GRASS_KEY.to_string(), BlockRuntimeId(3))];
    assert_eq!(resolve_flat_block_ids(&ids), Err(MissingFlatBlock::Dirt));
    assert_eq!(resolve_flat_block_ids(&Vec::new()), Err(MissingFlatBlock::Stone));
}
