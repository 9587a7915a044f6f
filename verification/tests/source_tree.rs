use freven_vanilla::authoring::source_tree::docs::{
    BlockDoc, CubeBlockDoc, FaceBlockDoc, FaceMaterialSlotDoc, Loaded, ShapeBoxDoc, ShapeDoc,
    ShapeElementDoc, ShapeFaceDoc, ShapeFaceEntry, ShapeSideMaskDoc, SourceHeader,
    TemplateMaterial, TemplateVisual, TopsoilCoverageEntry, TopsoilCoverageVisual,
    TopsoilFamilyDoc, TopsoilTemplates, RockTemplates, VariantFamilyDoc, Vec3Text, Vec4Text,
    WorldPropertyDoc, WorldPropertyVariant,
};
use freven_vanilla::authoring::source_tree::driver::{
    block_doc_kind, validate_block_headers, validate_worldproperties, BlockDocKind,
    LoadedWorldProperty, COMPILED_README,
};
use freven_vanilla::authoring::source_tree::paths::{
    authoring_rel_path, join_path, model_key_for_shape_code, model_key_for_shape_ref,
    normalize_rel,
};
use freven_vanilla::authoring::source_tree::{
    validate_profile, SourceTreeCompileError, SourceTreeCompiler, VANILLA_BLOCKTYPES_COMPILED_DIR,
};
use freven_vanilla::authoring::source_tree::tree::compile_source_tree;
use freven_vanilla::authoring::{CompiledVanillaProfile, GeneratedDeclarationKind};

const PROFILE: &str = "freven.vanilla:blocktypes_v1";

fn s(text: &str) -> String {
    text.to_string()
}

fn v3(x: &str, y: &str, z: &str) -> Vec3Text {
    Vec3Text { x: s(x), y: s(y), z: s(z) }
}

fn full_mask() -> ShapeSideMaskDoc {
    ShapeSideMaskDoc { bottom: true, top: true, north: true, south: true, east: true, west: true }
}

fn unit_box() -> ShapeBoxDoc {
    ShapeBoxDoc { min: v3("0.0", "0.0", "0.0"), max: v3("1.0", "1.0", "1.0"), axis_in_unit_range: [true; 3] }
}

fn shape(code: &str, file: &str) -> Loaded<ShapeDoc> {
    Loaded {
        rel: format!("content/shapes/{file}"),
        path: format!("/repo/content/shapes/{file}"),
        doc: ShapeDoc {
            profile: s(PROFILE),
            kind: s("shape"),
            code: s(code),
            material_slots: vec![],
            occludes: full_mask(),
            side_solid: full_mask(),
            collision_boxes: vec![unit_box()],
            selection_boxes: vec![unit_box()],
            elements: vec![],
        },
    }
}

fn topsoil_shape() -> Loaded<ShapeDoc> {
    let mut topsoil = shape("block/topsoil", "block/topsoil.toml");
    topsoil.doc.material_slots = vec![s("base"), s("grass_side")];
    topsoil.doc.elements = vec![ShapeElementDoc {
        name: s("base"),
        from: v3("0.0", "0.0", "0.0"),
        to: v3("1.0", "1.0", "1.0"),
        overlay: false,
        cull: None,
        faces: vec![
            ShapeFaceEntry {
                name: s("north"),
                face: ShapeFaceDoc { material: s("base"), overlay: None, cull: Some(false), uv: None },
            },
            ShapeFaceEntry {
                name: s("up"),
                face: ShapeFaceDoc {
                    material: s("grass_side"),
                    overlay: Some(true),
                    cull: None,
                    uv: Some(Vec4Text { x: s("0.0"), y: s("0.0"), z: s("16.0"), w: s("16.0") }),
                },
            },
        ],
    }];
    topsoil
}

fn shapes() -> Vec<Loaded<ShapeDoc>> {
    vec![
        shape("block/cube", "block/cube.toml"),
        shape("block/cube_faces", "block/cube_faces.toml"),
        topsoil_shape(),
    ]
}

fn dirt_doc() -> CubeBlockDoc {
    CubeBlockDoc {
        profile: s(PROFILE),
        kind: s("cube_block"),
        code: s("dirt"),
        shape: s("freven.vanilla:shapes/block/cube"),
        texture: s("freven.vanilla:textures/dirt"),
        fallback_debug_tint_rgba: 1_800_350_463,
        render_layer: s("opaque"),
        alpha_cutoff_u8: None,
        tags: vec![s("freven:terrain_solids")],
        lighting: None,
    }
}

fn block(rel: &str, doc: BlockDoc) -> Loaded<BlockDoc> {
    Loaded { rel: s(rel), path: format!("/repo/{rel}"), doc }
}

fn variant(id: &str) -> WorldPropertyVariant {
    WorldPropertyVariant {
        id: s(id),
        display: s(id),
        fallback_tint_rgba: Some(s("808080FF")),
        rock_group: None,
        top_fallback_tint_rgba: None,
        side_fallback_tint_rgba: None,
    }
}

fn worldproperties() -> Vec<Loaded<WorldPropertyDoc>> {
    let loaded = vec![
        LoadedWorldProperty {
            rel: s("content/worldproperties/rock.toml"),
            path: s("/repo/content/worldproperties/rock.toml"),
            file_stem: Some(s("rock")),
            doc: WorldPropertyDoc {
                profile: s(PROFILE),
                kind: s("worldproperty"),
                code: s("rock"),
                variants: vec![variant("granite"), variant("stone")],
            },
        },
        LoadedWorldProperty {
            rel: s("content/worldproperties/fertility.toml"),
            path: s("/repo/content/worldproperties/fertility.toml"),
            file_stem: Some(s("fertility")),
            doc: WorldPropertyDoc {
                profile: s(PROFILE),
                kind: s("worldproperty"),
                code: s("fertility"),
                variants: vec![variant("poor")],
            },
        },
        LoadedWorldProperty {
            rel: s("content/worldproperties/grass_coverage.toml"),
            path: s("/repo/content/worldproperties/grass_coverage.toml"),
            file_stem: Some(s("grass_coverage")),
            doc: WorldPropertyDoc {
                profile: s(PROFILE),
                kind: s("worldproperty"),
                code: s("grass_coverage"),
                variants: vec![variant("bare"), variant("sparse")],
            },
        },
    ];
    validate_worldproperties(loaded).expect("world properties are valid")
}

fn template_material(key: &str) -> TemplateMaterial {
    TemplateMaterial {
        key: s(key),
        texture: s("textures/{rock}"),
        fallback_debug_tint_rgba: s("{rock.fallback_tint_rgba}"),
        render_layer: s("opaque"),
    }
}

fn rock_doc() -> VariantFamilyDoc {
    VariantFamilyDoc {
        profile: s(PROFILE),
        kind: s("variant_family"),
        code: s("rock"),
        variant_group: s("worldproperties/rock.toml"),
        tags: vec![s("freven:stones")],
        templates: RockTemplates {
            material: template_material("block/{rock}"),
            visual: TemplateVisual {
                key: s("visuals/block/{rock}"),
                target: s("{rock}"),
                shape: s("freven.vanilla:shapes/block/cube"),
                material: s("block/{rock}"),
            },
        },
    }
}

fn soil_doc() -> TopsoilFamilyDoc {
    TopsoilFamilyDoc {
        profile: s(PROFILE),
        kind: s("topsoil_family"),
        code: s("soil"),
        fertility_group: s("content/worldproperties/fertility.toml"),
        coverage_group: s("content/worldproperties/grass_coverage.toml"),
        tags: vec![s("freven:soils")],
        templates: TopsoilTemplates { material: template_material("block/soil_{fertility}") },
        coverage: vec![
            TopsoilCoverageEntry {
                id: s("bare"),
                visual: TopsoilCoverageVisual {
                    visual: s("visuals/block/soil_{fertility}_bare"),
                    shape: s("freven.vanilla:shapes/block/cube"),
                    material: Some(s("block/soil_{fertility}")),
                    bottom: None,
                    side: None,
                    top: None,
                },
            },
            TopsoilCoverageEntry {
                id: s("sparse"),
                visual: TopsoilCoverageVisual {
                    visual: s("visuals/block/soil_{fertility}_sparse"),
                    shape: s("freven.vanilla:shapes/block/topsoil"),
                    material: None,
                    bottom: Some(s("block/soil_{fertility}")),
                    side: Some(s("block/soil_{fertility}_sparse_side")),
                    top: Some(s("block/soil_{fertility}_sparse_top")),
                },
            },
        ],
    }
}

fn grass_doc() -> FaceBlockDoc {
    FaceBlockDoc {
        profile: s(PROFILE),
        kind: s("face_block"),
        code: s("grass"),
        shape: s("freven.vanilla:shapes/block/cube_faces"),
        tags: vec![s("freven:terrain_solids")],
        material_slots: vec![FaceMaterialSlotDoc {
            slot: s("top"),
            code: s("grass_top"),
            texture: s("freven.vanilla:textures/grass"),
            fallback_debug_tint_rgba: 1_067_666_943,
            render_layer: s("cutout"),
            alpha_cutoff_u8: Some(64),
        }],
    }
}

fn tree_blocks() -> Vec<Loaded<BlockDoc>> {
    vec![
        block("content/blocktypes/soil.toml", BlockDoc::TopsoilFamily(soil_doc())),
        block("content/blocktypes/dirt.toml", BlockDoc::Cube(dirt_doc())),
        block("content/blocktypes/grass.toml", BlockDoc::Face(grass_doc())),
        block("content/blocktypes/rock.toml", BlockDoc::VariantFamily(rock_doc())),
    ]
}

fn compile_tree() -> CompiledVanillaProfile {
    compile_source_tree("/repo/content", &shapes(), &worldproperties(), &tree_blocks())
        .expect("source tree compiles")
}

#[test]
fn whole_tree_matches_step_by_step_compilation() {
    let shapes = shapes();
    let wps = worldproperties();
    let mut compiler = SourceTreeCompiler::new();
    compiler.compile_models_file(&shapes).expect("models compile");
    for b in tree_blocks() {
        compiler.compile_block(&b, &shapes, &wps, "/repo/content").expect("block compiles");
    }
    assert_eq!(compiler.finish_source_tree(), compile_tree());
}

#[test]
fn whole_tree_reports_the_first_failing_block() {
    let mut blocks = tree_blocks();
    blocks.insert(1, block("content/blocktypes/x.toml", BlockDoc::Unsupported(s("slab_block"))));
    blocks.push(block("content/blocktypes/dirt2.toml", BlockDoc::Cube(dirt_doc())));
    let err = compile_source_tree("/repo/content", &shapes(), &worldproperties(), &blocks)
        .unwrap_err();
    match err {
        SourceTreeCompileError::Invalid { path, message } => {
            assert_eq!(path, "/repo/content/blocktypes/x.toml");
            assert_eq!(message, "unsupported blocktype kind 'slab_block'");
        }
        other => panic!("unexpected error {other:?}"),
    }
}

#[test]
fn whole_tree_reports_a_duplicate_across_blocks() {
    let mut blocks = tree_blocks();
    blocks.push(block("content/blocktypes/dirt2.toml", BlockDoc::Cube(dirt_doc())));
    let err = compile_source_tree("/repo/content", &shapes(), &worldproperties(), &blocks)
        .unwrap_err();
    assert!(matches!(
        err,
        SourceTreeCompileError::DuplicateGeneratedDeclaration { .. }
    ));
}

fn file<'a>(compiled: &'a CompiledVanillaProfile, path: &str) -> &'a str {
    &compiled
        .generated_files
        .iter()
        .find(|f| f.relative_path == path)
        .unwrap_or_else(|| panic!("missing {path}"))
        .contents
}

#[test]
fn source_tree_files_are_sorted_by_path() {
    let compiled = compile_tree();
    let paths: Vec<&str> = compiled.generated_files.iter().map(|f| f.relative_path.as_str()).collect();
    assert_eq!(
        paths,
        vec![
            "README.md",
            "blocktypes/dirt.toml",
            "blocktypes/grass.toml",
            "families/rock.toml",
            "families/soil_grass.toml",
            "models/common.toml",
            "tags/terrain.toml",
        ]
    );
    assert_eq!(file(&compiled, "README.md"), COMPILED_README);
    assert_eq!(VANILLA_BLOCKTYPES_COMPILED_DIR, "content/_compiled/vanilla_blocktypes_v1");
}

#[test]
fn cube_block_file_has_material_visual_and_shape() {
    let compiled = compile_tree();
    let expected = "schema = 1\n# generated_from_profile = \"freven.vanilla:blocktypes_v1\"\n# generated output is canonical content graph, not authoring source\n\n[[materials]]\nkey = \"freven.vanilla:block/dirt\"\ntexture = \"freven.vanilla:textures/dirt\"\nfallback_debug_tint_rgba = 1800350463\n\n\n[[block_visuals]]\nkey = \"freven.vanilla:visuals/block/dirt\"\ntarget = \"freven.vanilla:dirt\"\nmodel = \"freven.vanilla:models/block/cube_all\"\n\n[block_visuals.materials]\nall = \"freven.vanilla:block/dirt\"\n\n[[block_shapes]]\ntarget = \"freven.vanilla:dirt\"\n\n[block_shapes.occludes]\nbottom = true\ntop = true\nnorth = true\nsouth = true\neast = true\nwest = true\n\n[block_shapes.side_solid]\nbottom = true\ntop = true\nnorth = true\nsouth = true\neast = true\nwest = true\n\n[[block_shapes.collision_boxes]]\nmin = [0.0, 0.0, 0.0]\nmax = [1.0, 1.0, 1.0]\n\n[[block_shapes.selection_boxes]]\nmin = [0.0, 0.0, 0.0]\nmax = [1.0, 1.0, 1.0]\n";
    assert_eq!(file(&compiled, "blocktypes/dirt.toml"), expected);
}

#[test]
fn manifest_lists_toml_files_under_headings() {
    let compiled = compile_tree();
    assert!(compiled.canonical_manifest_source.starts_with("# --- blocktypes/dirt.toml ---\nschema = 1\n"));
    assert!(compiled.canonical_manifest_source.contains("\n\n# --- tags/terrain.toml ---\n"));
    assert!(!compiled.canonical_manifest_source.contains("README"));
    assert!(!compiled.canonical_manifest_source.ends_with('\n'));
}

#[test]
fn tags_file_lists_sorted_unique_blocks() {
    let compiled = compile_tree();
    assert!(file(&compiled, "tags/terrain.toml").ends_with(
        "[[block_tags]]\nkey = \"freven:terrain_solids\"\nblocks = [\"freven.vanilla:dirt\", \"freven.vanilla:grass\"]\n"
    ));
}

#[test]
fn grass_face_block_keeps_compatibility_material_and_cutout() {
    let compiled = compile_tree();
    let grass = file(&compiled, "blocktypes/grass.toml");
    assert!(grass.contains("key = \"freven.vanilla:block/grass\"\ntexture = \"freven.vanilla:textures/grass\"\nfallback_debug_tint_rgba = 1067666943\n"));
    assert!(grass.contains("render_layer = \"cutout\"\nalpha_cutoff_u8 = 64\n"));
    assert!(grass.contains("top = \"freven.vanilla:block/grass_top\"\n"));
    let source = compiled
        .source_for(GeneratedDeclarationKind::Material, "freven.vanilla:block/grass")
        .expect("compatibility material");
    assert_eq!(source.field_path, "materials.compatibility");
}

#[test]
fn topsoil_family_writes_variants_and_shapes() {
    let compiled = compile_tree();
    let soil = file(&compiled, "families/soil_grass.toml");
    assert!(soil.contains("key = \"freven.vanilla:families/soil_grass\""));
    assert!(soil.contains("[families.templates.variants.materials.side]\nkey = \"block/soil_{fertility}_sparse_side\""));
    assert!(soil.contains("target = \"soil_{fertility}_bare\"\nmodel = \"freven.vanilla:models/block/cube_all\"\nmaterial = \"block/soil_{fertility}\"\n"));
    assert!(soil.contains("model = \"freven.vanilla:models/block/topsoil_overlay\"\n\n[families.templates.variants.visual.materials]\nbottom = \"block/soil_{fertility}\""));
    assert!(soil.contains("target = \"freven.vanilla:soil_poor_sparse\""));
    assert!(compiled
        .keys_for(GeneratedDeclarationKind::BlockShape)
        .contains(&"freven.vanilla:soil_poor_bare"));
}

#[test]
fn models_file_lists_parts_of_detailed_shapes() {
    let compiled = compile_tree();
    let models = file(&compiled, "models/common.toml");
    assert!(models.contains("key = \"freven.vanilla:models/block/topsoil_overlay\"\nkind = \"cuboid_parts\"\nmaterial_slots = [\"base\", \"grass_side\"]\n\n[[models.parts]]\nname = \"base\"\nfrom = [0.0, 0.0, 0.0]\nto = [1.0, 1.0, 1.0]\n\n[models.parts.faces.north]\nmaterial = \"base\"\ncull = false\n\n[models.parts.faces.up]\nmaterial = \"grass_side\"\noverlay = true\n# source_uv = [0.0, 0.0, 16.0, 16.0]\n"));
    assert!(models.contains("key = \"freven.vanilla:models/block/cube_all\"\nkind = \"cube_all\"\n"));
}

#[test]
fn duplicate_block_code_reports_both_sources() {
    let shapes = shapes();
    let wps = worldproperties();
    let mut compiler = SourceTreeCompiler::new();
    compiler
        .compile_block(&block("content/blocktypes/dirt.toml", BlockDoc::Cube(dirt_doc())), &shapes, &wps, "/repo/content")
        .unwrap();
    let err = compiler
        .compile_block(&block("content/blocktypes/dirt2.toml", BlockDoc::Cube(dirt_doc())), &shapes, &wps, "/repo/content")
        .unwrap_err();
    match err {
        SourceTreeCompileError::DuplicateGeneratedDeclaration { kind, key, first_source, second_source } => {
            assert_eq!(kind, GeneratedDeclarationKind::Material);
            assert_eq!(key, "freven.vanilla:block/dirt");
            assert_eq!(first_source.file, "content/blocktypes/dirt.toml");
            assert_eq!(second_source.file, "content/blocktypes/dirt2.toml");
        }
        other => panic!("unexpected {other:?}"),
    }
}

#[test]
fn unknown_shape_and_worldproperty_references_are_invalid() {
    let shapes = shapes();
    let wps = worldproperties();
    let mut compiler = SourceTreeCompiler::new();
    let mut doc = dirt_doc();
    doc.shape = s("freven.vanilla:shapes/block/slab");
    let err = compiler
        .compile_block(&block("content/blocktypes/dirt.toml", BlockDoc::Cube(doc)), &shapes, &wps, "/repo/content")
        .unwrap_err();
    assert!(matches!(err, SourceTreeCompileError::Invalid { ref path, ref message }
        if path == "/repo/content/blocktypes/dirt.toml" && message == "shape reference 'freven.vanilla:shapes/block/slab' was not loaded"));

    let mut rock = rock_doc();
    rock.variant_group = s("worldproperties/basalt.toml");
    let err = compiler
        .compile_block(&block("content/blocktypes/rock.toml", BlockDoc::VariantFamily(rock)), &shapes, &wps, "/repo/content")
        .unwrap_err();
    assert!(matches!(err, SourceTreeCompileError::Invalid { ref path, ref message }
        if path == "/repo/content/worldproperties/basalt.toml" && message == "worldproperty source 'worldproperties/basalt.toml' was not loaded"));
}

#[test]
fn missing_coverage_section_is_invalid() {
    let shapes = shapes();
    let wps = worldproperties();
    let mut compiler = SourceTreeCompiler::new();
    let mut soil = soil_doc();
    soil.coverage.truncate(1);
    let err = compiler
        .compile_block(&block("content/blocktypes/soil.toml", BlockDoc::TopsoilFamily(soil)), &shapes, &wps, "/repo/content")
        .unwrap_err();
    assert!(matches!(err, SourceTreeCompileError::Invalid { ref path, ref message }
        if path == "content/blocktypes/soil.toml" && message == "missing [coverage.sparse] section"));
}

#[test]
fn unsupported_block_kind_is_invalid() {
    let mut compiler = SourceTreeCompiler::new();
    let err = compiler
        .compile_block(&block("content/blocktypes/x.toml", BlockDoc::Unsupported(s("slab_block"))), &shapes(), &Vec::new(), "/repo/content")
        .unwrap_err();
    assert!(matches!(err, SourceTreeCompileError::Invalid { ref message, .. } if message == "unsupported blocktype kind 'slab_block'"));
    assert_eq!(block_doc_kind("cube_block"), BlockDocKind::Cube);
    assert_eq!(block_doc_kind("topsoil_family"), BlockDocKind::TopsoilFamily);
    assert_eq!(block_doc_kind("slab_block"), BlockDocKind::Unsupported);
}

#[test]
fn shape_boxes_outside_the_unit_cube_are_invalid() {
    let mut bad = shapes();
    bad[1].doc.selection_boxes.push(ShapeBoxDoc {
        min: v3("0.0", "0.0", "0.0"),
        max: v3("1.0", "1.5", "1.0"),
        axis_in_unit_range: [true, false, true],
    });
    let mut compiler = SourceTreeCompiler::new();
    let err = compiler.compile_models_file(&bad).unwrap_err();
    assert!(matches!(err, SourceTreeCompileError::Invalid { ref message, .. }
        if message == "shape 'block/cube_faces' selection_boxes[1] axis 1 must satisfy 0.0 <= min < max <= 1.0"));

    let mut empty = shapes();
    empty[0].doc.collision_boxes.clear();
    let err = SourceTreeCompiler::new().compile_models_file(&empty).unwrap_err();
    assert!(matches!(err, SourceTreeCompileError::Invalid { ref message, .. }
        if message == "shape 'block/cube' must declare at least one collision box"));
}

#[test]
fn profiles_and_headers_are_checked() {
    assert!(validate_profile("p", PROFILE, "shape", "shape").is_ok());
    assert!(matches!(validate_profile("p", "other", "shape", "shape"),
        Err(SourceTreeCompileError::Invalid { ref message, .. }) if message == "expected profile 'freven.vanilla:blocktypes_v1', got 'other'"));
    assert!(matches!(validate_profile("p", PROFILE, "cube", "shape"),
        Err(SourceTreeCompileError::Invalid { ref message, .. }) if message == "expected kind 'shape', got 'cube'"));
    let headers = vec![Loaded { rel: s("r"), path: s("p"), doc: SourceHeader { profile: s(PROFILE), kind: s(" \t") } }];
    assert!(matches!(validate_block_headers(&headers),
        Err(SourceTreeCompileError::Invalid { ref message, .. }) if message == "blocktype kind must not be empty"));
}

#[test]
fn worldproperty_code_must_match_file_stem() {
    let loaded = vec![LoadedWorldProperty {
        rel: s("content/worldproperties/rock.toml"),
        path: s("/repo/content/worldproperties/rock.toml"),
        file_stem: Some(s("rock")),
        doc: WorldPropertyDoc { profile: s(PROFILE), kind: s("worldproperty"), code: s("stone"), variants: vec![] },
    }];
    assert!(matches!(validate_worldproperties(loaded),
        Err(SourceTreeCompileError::Invalid { ref message, .. }) if message == "worldproperty code 'stone' must match file stem 'rock'"));
}

#[test]
fn paths_and_model_keys() {
    assert_eq!(authoring_rel_path("/a/content/x/content/blocktypes/dirt.toml").unwrap(), "content/blocktypes/dirt.toml");
    assert_eq!(authoring_rel_path("C:\\repo\\content\\shapes\\cube.toml").unwrap(), "content/shapes/cube.toml");
    assert!(matches!(authoring_rel_path("/tmp/dirt.toml"),
        Err(SourceTreeCompileError::Invalid { ref message, .. }) if message == "authoring source must live under content/"));
    assert_eq!(normalize_rel("worldproperties\\rock.toml"), "content/worldproperties/rock.toml");
    assert_eq!(normalize_rel("content/worldproperties/rock.toml"), "content/worldproperties/rock.toml");
    assert_eq!(join_path("/repo/content", "rock.toml"), "/repo/content/rock.toml");
    assert_eq!(join_path("/repo/content/", "rock.toml"), "/repo/content/rock.toml");
    assert_eq!(join_path("/repo", "/abs.toml"), "/abs.toml");
    assert_eq!(model_key_for_shape_code("block/cube"), "freven.vanilla:models/block/cube_all");
    assert_eq!(model_key_for_shape_code("block/half/slab"), "freven.vanilla:models/block/block_half_slab");
    assert_eq!(model_key_for_shape_ref("freven.vanilla:shapes/block/topsoil"), "freven.vanilla:models/block/topsoil_overlay");
}
