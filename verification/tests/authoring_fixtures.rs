use freven_vanilla::authoring::fixture_compiler::{
    compile_fixture_set, FaceBlockSource, FaceMaterialSource, RenderLayer, TintSource,
    VanillaAuthoringFixtureSet, VanillaAuthoringSource,
};
use freven_vanilla::authoring::fixtures::{
    duplicate_dirt_material_fixture_set, rc10_visual_fixture_set,
};
use freven_vanilla::authoring::{
    AuthoringSourceKind, CompiledVanillaProfile, GeneratedDeclarationKind, VanillaAuthoringError,
    CANONICAL_MANIFEST_SCHEMA, VANILLA_BLOCKTYPES_PROFILE_V1,
};

fn compiled_rc10_fixture() -> CompiledVanillaProfile {
    compile_fixture_set(&rc10_visual_fixture_set())
        .expect("rc10 Vanilla authoring fixture should compile")
}

#[test]
fn compiler_entrypoint_exposes_vanilla_profile_contract() {
    let compiled = compiled_rc10_fixture();

    assert_eq!(compiled.profile_id, VANILLA_BLOCKTYPES_PROFILE_V1);
    assert_eq!(compiled.canonical_schema, CANONICAL_MANIFEST_SCHEMA);
    assert!(compiled
        .canonical_manifest_source
        .contains("generated_from_profile = \"freven.vanilla:blocktypes_v1\""));
}

#[test]
fn simple_cube_blocks_compile_to_materials_visuals_and_tags() {
    let compiled = compiled_rc10_fixture();

    for key in ["freven.vanilla:block/coarse_dirt", "freven.vanilla:block/dirt"] {
        assert!(
            compiled.keys_for(GeneratedDeclarationKind::Material).contains(&key),
            "missing generated material {key}"
        );
    }

    for key in ["freven.vanilla:visuals/block/coarse_dirt", "freven.vanilla:visuals/block/dirt"] {
        assert!(
            compiled.keys_for(GeneratedDeclarationKind::BlockVisual).contains(&key),
            "missing generated block visual {key}"
        );
    }

    assert!(compiled.canonical_manifest_source.contains("texture = \"freven.vanilla:textures/dirt\""));
    assert!(compiled.canonical_manifest_source.contains("key = \"freven:terrain_solids\""));
}

#[test]
fn transparent_glass_compiles_to_transparent_material_and_visual() {
    let compiled = compiled_rc10_fixture();

    assert!(compiled
        .keys_for(GeneratedDeclarationKind::Material)
        .contains(&"freven.vanilla:block/glass"));
    assert!(compiled
        .keys_for(GeneratedDeclarationKind::BlockVisual)
        .contains(&"freven.vanilla:visuals/block/glass"));
    assert!(compiled.canonical_manifest_source.contains("render_layer = \"transparent\""));
    assert!(compiled.canonical_manifest_source.contains("key = \"freven:transparent_blocks\""));
    assert!(compiled.canonical_manifest_source.contains("key = \"freven:glass\""));
}

#[test]
fn grass_per_face_block_compiles_to_slot_materials_and_visual_binding() {
    let compiled = compiled_rc10_fixture();

    for key in [
        "freven.vanilla:block/grass_bottom",
        "freven.vanilla:block/grass_side",
        "freven.vanilla:block/grass_top",
        "freven.vanilla:visuals/block/grass",
    ] {
        let found = compiled.declarations.iter().any(|declaration| declaration.key == key);
        assert!(found, "missing generated declaration {key}");
    }

    assert!(compiled
        .canonical_manifest_source
        .contains("bottom = \"freven.vanilla:block/grass_bottom\""));
    assert!(compiled
        .canonical_manifest_source
        .contains("side = \"freven.vanilla:block/grass_side\""));
    assert!(compiled
        .canonical_manifest_source
        .contains("top = \"freven.vanilla:block/grass_top\""));
}

#[test]
fn rock_and_soil_grass_sources_compile_to_family_contracts() {
    let compiled = compiled_rc10_fixture();

    for key in ["freven.vanilla:families/rock", "freven.vanilla:families/soil_grass"] {
        assert!(
            compiled.keys_for(GeneratedDeclarationKind::ContentFamily).contains(&key),
            "missing generated family {key}"
        );
    }

    for key in [
        "visuals/block/{rock}",
        "visuals/block/soil_{fertility}_bare",
        "visuals/block/soil_{fertility}_sparse",
        "visuals/block/soil_{fertility}_normal",
    ] {
        assert!(
            compiled.keys_for(GeneratedDeclarationKind::BlockVisual).contains(&key),
            "missing generated visual template {key}"
        );
    }

    for source_text in [
        "id = \"granite\"",
        "id = \"limestone\"",
        "id = \"stone\"",
        "id = \"poor\"",
        "id = \"medium\"",
        "id = \"rich\"",
        "id = \"sparse\"",
        "id = \"normal\"",
    ] {
        assert!(
            compiled.canonical_manifest_source.contains(source_text),
            "missing source text {source_text}"
        );
    }
}

#[test]
fn generated_declarations_preserve_authoring_provenance() {
    let compiled = compiled_rc10_fixture();

    let glass_source = compiled
        .source_for(GeneratedDeclarationKind::Material, "freven.vanilla:block/glass")
        .expect("glass material should have provenance");
    assert_eq!(glass_source.file, "content/blocktypes/glass.toml");
    assert_eq!(glass_source.kind, AuthoringSourceKind::Blocktype);

    let topsoil_source = compiled
        .source_for(GeneratedDeclarationKind::Model, "freven.vanilla:models/block/topsoil_overlay")
        .expect("topsoil model should have provenance");
    assert_eq!(topsoil_source.file, "content/shapes/block/topsoil.toml");
    assert_eq!(topsoil_source.kind, AuthoringSourceKind::Shape);

    let soil_family_source = compiled
        .source_for(GeneratedDeclarationKind::ContentFamily, "freven.vanilla:families/soil_grass")
        .expect("soil family should have provenance");
    assert_eq!(soil_family_source.file, "content/blocktypes/soil.toml");
}

#[test]
fn duplicate_generated_keys_report_first_and_second_sources() {
    let error = compile_fixture_set(&duplicate_dirt_material_fixture_set())
        .expect_err("duplicate generated material key should fail");

    let VanillaAuthoringError::DuplicateGeneratedDeclaration {
        kind,
        key,
        first_source,
        second_source,
    } = error;

    assert_eq!(kind, GeneratedDeclarationKind::Material);
    assert_eq!(key, "freven.vanilla:block/dirt");
    assert_eq!(first_source.file, "content/blocktypes/dirt.toml");
    assert_eq!(second_source.file, "content/blocktypes/duplicate_dirt.toml");
    assert_eq!(first_source.field_path, "blocktype");
}

#[test]
fn fixture_manifest_starts_with_header_and_has_single_generated_file() {
    let compiled = compiled_rc10_fixture();
    assert!(compiled.canonical_manifest_source.starts_with(
        "schema = 1\n# generated_from_profile = \"freven.vanilla:blocktypes_v1\"\n# generated output is canonical content graph, not authoring source\n\n[[models]]\nkey = \"freven.vanilla:models/block/cube_all\"\nkind = \"cube_all\"\n\n"
    ));
    assert_eq!(compiled.generated_files.len(), 1);
    assert_eq!(compiled.generated_files[0].relative_path, "generated.content.manifest");
    assert_eq!(compiled.generated_files[0].contents, compiled.canonical_manifest_source);
}

#[test]
fn block_tags_may_repeat_across_sources() {
    let compiled = compiled_rc10_fixture();
    let solids = compiled
        .keys_for(GeneratedDeclarationKind::BlockTag)
        .into_iter()
        .filter(|key| *key == "freven:terrain_solids")
        .count();
    assert!(solids >= 3);
    assert_eq!(
        compiled.source_for(GeneratedDeclarationKind::BlockTag, "freven:terrain_solids").unwrap().file,
        "content/blocktypes/coarse_dirt.toml"
    );
}

#[test]
fn non_tag_declarations_are_unique() {
    let compiled = compiled_rc10_fixture();
    for (i, a) in compiled.declarations.iter().enumerate() {
        for b in compiled.declarations.iter().skip(i + 1) {
            if b.kind != GeneratedDeclarationKind::BlockTag {
                assert!(!(a.kind == b.kind && a.key == b.key), "duplicate {}", b.key);
            }
        }
    }
}

#[test]
fn cutout_and_tint_render_in_face_material() {
    let set = VanillaAuthoringFixtureSet {
        sources: vec![VanillaAuthoringSource::FaceBlock(FaceBlockSource {
            file: "content/blocktypes/leaves.toml",
            code: "leaves",
            model: "freven.vanilla:models/block/cube_faces",
            materials: &[FaceMaterialSource {
                slot: "all",
                material_code: "leaves",
                texture: "leaves",
                fallback_debug_tint_rgba: 7,
                render_layer: RenderLayer::Cutout { alpha_cutoff_u8: 128 },
                tint: Some(TintSource {
                    source: "freven.core:tint/color_map_2d_v1",
                    color_map_texture: "textures/tint/foliage",
                    fallback_tint_rgba: 255,
                }),
            }],
            tags: &[],
        })],
    };
    let compiled = compile_fixture_set(&set).expect("leaves compile");
    assert!(compiled.canonical_manifest_source.contains(
        "render_layer = \"cutout\"\nalpha_cutoff_u8 = 128\n\n[materials.tint]\nsource = \"freven.core:tint/color_map_2d_v1\"\ncolor_map_texture = \"textures/tint/foliage\"\nfallback_tint_rgba = 255\n\n"
    ));
    assert!(compiled.canonical_manifest_source.contains("all = \"freven.vanilla:block/leaves\"\n"));
}
