//! Built-in authoring fixtures of the Vanilla content pack.

use vstd::prelude::*;
use crate::authoring::{
    AuthoringSourceKind, DeclarationModel, DuplicateModel, GeneratedDeclarationKind,
    SourceRefModel, decl, first_index_of, rejects_at, first_rejection, ledger_outcome,
};
use crate::authoring::fixture_compiler::{
    fixture_requests, material_key, source_requests, tag_requests, visual_key,
    source_code, source_file, CoverageVariantSource, CubeBlockSource, FaceBlockSource,
    FaceMaterialSource, FertilityVariantSource, RenderLayer, RockFamilySource, RockVariantSource,
    ShapeKind, ShapeSource, SoilGrassFamilySource, VanillaAuthoringFixtureSet,
    VanillaAuthoringSource,
};

verus! {

/// The texts of `items`.
pub open spec fn texts(items: Seq<&'static str>) -> Seq<Seq<char>> {
    items.map_values(|t: &'static str| t@)
}

/// The text of an optional text.
pub open spec fn opt_text(o: Option<&'static str>) -> Option<Seq<char>> {
    match o {
        Some(t) => Some(t@),
        None => None,
    }
}

/// `s` is a shape source of file `file`, code `code` and kind `kind`, one
/// without material slots.
pub open spec fn plain_shape_is(
    s: VanillaAuthoringSource,
    file: Seq<char>,
    code: Seq<char>,
    kind: ShapeKind,
) -> bool {
    &&& s matches VanillaAuthoringSource::Shape(sh)
    &&& sh.file@ == file
    &&& sh.code@ == code
    &&& sh.kind == kind
    &&& !(kind is TopsoilOverlay)
}

/// `s` is a topsoil overlay shape source with these material slots.
pub open spec fn topsoil_shape_is(
    s: VanillaAuthoringSource,
    file: Seq<char>,
    code: Seq<char>,
    slots: Seq<Seq<char>>,
) -> bool {
    &&& s matches VanillaAuthoringSource::Shape(sh)
    &&& sh.file@ == file
    &&& sh.code@ == code
    &&& sh.kind matches ShapeKind::TopsoilOverlay { material_slots }
    &&& texts(material_slots@) == slots
}

/// `s` is a cube block source with exactly these fields.
pub open spec fn cube_block_is(
    s: VanillaAuthoringSource,
    file: Seq<char>,
    code: Seq<char>,
    texture: Seq<char>,
    fallback_debug_tint_rgba: u32,
    model: Seq<char>,
    render_layer: RenderLayer,
    tags: Seq<Seq<char>>,
) -> bool {
    &&& s matches VanillaAuthoringSource::CubeBlock(b)
    &&& b.file@ == file
    &&& b.code@ == code
    &&& b.texture@ == texture
    &&& b.fallback_debug_tint_rgba == fallback_debug_tint_rgba
    &&& b.model@ == model
    &&& b.render_layer == render_layer
    &&& texts(b.tags@) == tags
}

/// `m` is an untinted face material with exactly these fields.
pub open spec fn face_material_is(
    m: FaceMaterialSource,
    slot: Seq<char>,
    material_code: Seq<char>,
    texture: Seq<char>,
    fallback_debug_tint_rgba: u32,
    render_layer: RenderLayer,
) -> bool {
    &&& m.slot@ == slot
    &&& m.material_code@ == material_code
    &&& m.texture@ == texture
    &&& m.fallback_debug_tint_rgba == fallback_debug_tint_rgba
    &&& m.render_layer == render_layer
    &&& m.tint is None
}

/// `s` is a per-face block source with these file, code, model and tags
/// (its materials are stated apart).
pub open spec fn face_block_is(
    s: VanillaAuthoringSource,
    file: Seq<char>,
    code: Seq<char>,
    model: Seq<char>,
    tags: Seq<Seq<char>>,
) -> bool {
    &&& s matches VanillaAuthoringSource::FaceBlock(b)
    &&& b.file@ == file
    &&& b.code@ == code
    &&& b.model@ == model
    &&& texts(b.tags@) == tags
}

/// `r` is a rock variant with exactly these fields.
pub open spec fn rock_variant_is(
    r: RockVariantSource,
    id: Seq<char>,
    display: Seq<char>,
    fallback_tint_rgba: Seq<char>,
    rock_group: Seq<char>,
) -> bool {
    &&& r.id@ == id
    &&& r.display@ == display
    &&& r.fallback_tint_rgba@ == fallback_tint_rgba
    &&& r.rock_group@ == rock_group
}

/// `f` is a fertility variant with exactly these fields.
pub open spec fn fertility_variant_is(
    f: FertilityVariantSource,
    id: Seq<char>,
    display: Seq<char>,
    fallback_tint_rgba: Seq<char>,
) -> bool {
    &&& f.id@ == id
    &&& f.display@ == display
    &&& f.fallback_tint_rgba@ == fallback_tint_rgba
}

/// `c` is a coverage variant with exactly these fields.
pub open spec fn coverage_variant_is(
    c: CoverageVariantSource,
    id: Seq<char>,
    display: Seq<char>,
    top_fallback_tint_rgba: Option<Seq<char>>,
    side_fallback_tint_rgba: Option<Seq<char>>,
) -> bool {
    &&& c.id@ == id
    &&& c.display@ == display
    &&& opt_text(c.top_fallback_tint_rgba) == top_fallback_tint_rgba
    &&& opt_text(c.side_fallback_tint_rgba) == side_fallback_tint_rgba
}

fn dirt_block(file: &'static str) -> (source: VanillaAuthoringSource)
    ensures
        source_file(source) == file@,
        source_code(source) == "dirt"@,
        cube_block_is(
            source,
            file@,
            "dirt"@,
            "dirt"@,
            1_800_350_463,
            "freven.vanilla:models/block/cube_all"@,
            RenderLayer::Opaque,
            Seq::empty(),
        ),
{
    let b = CubeBlockSource {
        file,
        code: "dirt",
        texture: "dirt",
        fallback_debug_tint_rgba: 1_800_350_463,
        model: "freven.vanilla:models/block/cube_all",
        render_layer: RenderLayer::Opaque,
        tags: &[],
    };
    assert(b.tags@.len() == 0);
    assert(texts(b.tags@) =~= Seq::<Seq<char>>::empty());
    VanillaAuthoringSource::CubeBlock(b)
}

/// Two block types, `content/blocktypes/dirt.toml` and
/// `content/blocktypes/duplicate_dirt.toml`, that both declare the block `dirt`
/// and so both generate the material `freven.vanilla:block/dirt`.
pub fn duplicate_dirt_material_fixture_set() -> (set: VanillaAuthoringFixtureSet)
    ensures
        set.sources@.len() == 2,
        source_file(set.sources@[0]) == "content/blocktypes/dirt.toml"@,
        source_file(set.sources@[1]) == "content/blocktypes/duplicate_dirt.toml"@,
        forall|i: int|
            0 <= i < 2 ==> cube_block_is(
                #[trigger] set.sources@[i],
                source_file(set.sources@[i]),
                "dirt"@,
                "dirt"@,
                1_800_350_463,
                "freven.vanilla:models/block/cube_all"@,
                RenderLayer::Opaque,
                Seq::empty(),
            ),
        ledger_outcome(Seq::empty(), fixture_requests(set.sources@)) == Err::<
            Seq<DeclarationModel>,
            DuplicateModel,
        >(
            DuplicateModel {
                kind: GeneratedDeclarationKind::Material,
                key: "freven.vanilla:block/dirt"@,
                first_source: SourceRefModel {
                    file: "content/blocktypes/dirt.toml"@,
                    kind: AuthoringSourceKind::Blocktype,
                    field_path: "blocktype"@,
                },
                second_source: SourceRefModel {
                    file: "content/blocktypes/duplicate_dirt.toml"@,
                    kind: AuthoringSourceKind::Blocktype,
                    field_path: "blocktype"@,
                },
            },
        ),
{
    let mut sources: Vec<VanillaAuthoringSource> = Vec::new();
    sources.push(dirt_block("content/blocktypes/dirt.toml"));
    sources.push(dirt_block("content/blocktypes/duplicate_dirt.toml"));
    let set = VanillaAuthoringFixtureSet { sources };
    proof {
        let s = set.sources@;
        let b0 = s[0]->CubeBlock_0;
        let b1 = s[1]->CubeBlock_0;
        let m0 = decl(
            GeneratedDeclarationKind::Material,
            material_key("dirt"@),
            "content/blocktypes/dirt.toml"@,
            AuthoringSourceKind::Blocktype,
            "blocktype"@,
        );
        let v0 = decl(
            GeneratedDeclarationKind::BlockVisual,
            visual_key("dirt"@),
            "content/blocktypes/dirt.toml"@,
            AuthoringSourceKind::Blocktype,
            "blocktype"@,
        );
        let m1 = decl(
            GeneratedDeclarationKind::Material,
            material_key("dirt"@),
            "content/blocktypes/duplicate_dirt.toml"@,
            AuthoringSourceKind::Blocktype,
            "blocktype"@,
        );
        let v1 = decl(
            GeneratedDeclarationKind::BlockVisual,
            visual_key("dirt"@),
            "content/blocktypes/duplicate_dirt.toml"@,
            AuthoringSourceKind::Blocktype,
            "blocktype"@,
        );
        assert(texts(b0.tags@).len() == 0 && texts(b1.tags@).len() == 0);
        assert(b0.tags@.len() == 0 && b1.tags@.len() == 0);
        assert(tag_requests(b0.tags@, b0.file@) =~= Seq::<DeclarationModel>::empty());
        assert(tag_requests(b1.tags@, b1.file@) =~= Seq::<DeclarationModel>::empty());
        assert(source_requests(s[0]) =~= seq![m0, v0]);
        assert(source_requests(s[1]) =~= seq![m1, v1]);
        assert(s.drop_last().drop_last() =~= Seq::<VanillaAuthoringSource>::empty());
        assert(s.drop_last().last() == s[0]);
        assert(fixture_requests(s.drop_last().drop_last()) =~= Seq::<DeclarationModel>::empty());
        assert(fixture_requests(s.drop_last()) =~= seq![m0, v0]);
        let reqs = fixture_requests(s);
        assert(reqs =~= seq![m0, v0, m1, v1]);
        let all = Seq::<DeclarationModel>::empty() + reqs;
        assert(all =~= reqs);
        // the first two requests differ in kind, the third repeats the first
        assert(reqs.take(1).drop_last() =~= Seq::<DeclarationModel>::empty());
        assert(reqs.take(2).drop_last() =~= reqs.take(1));
        assert(reqs.take(3).drop_last() =~= reqs.take(2));
        assert(first_index_of(reqs.take(1).drop_last(), v0.kind, v0.key) == -1);
        assert(first_index_of(reqs.take(1).drop_last(), m1.kind, m1.key) == -1);
        assert(first_index_of(reqs.take(1), v0.kind, v0.key) == -1);
        assert(first_index_of(reqs.take(1), m1.kind, m1.key) == 0);
        assert(first_index_of(reqs.take(2), m1.kind, m1.key) == 0);
        assert(first_rejection(reqs.take(1).drop_last()) is None);
        assert(reqs.take(1).take(0) =~= Seq::<DeclarationModel>::empty());
        assert(reqs.take(2).take(1) =~= reqs.take(1));
        assert(reqs.take(3).take(2) =~= reqs.take(2));
        assert(!rejects_at(reqs.take(1), 0));
        assert(first_rejection(reqs.take(1)) is None);
        assert(!rejects_at(reqs.take(2), 1));
        assert(first_rejection(reqs.take(2)) is None);
        assert(first_rejection(reqs.take(3)) == Some(2int));
        assert(reqs.take(4) =~= reqs);
        assert(first_rejection(reqs) == Some(2int));
        reveal_strlit("freven.vanilla:block/dirt");
        reveal_strlit("freven.vanilla:block/");
        reveal_strlit("dirt");
        assert(material_key("dirt"@) =~= "freven.vanilla:block/dirt"@);
    }
    set
}

/// The Vanilla visual fixture: the three block shapes, the coarse dirt, dirt
/// and glass cube blocks, the per-face grass block, and the rock and
/// soil/grass families.
pub fn rc10_visual_fixture_set() -> (set: VanillaAuthoringFixtureSet)
    ensures
        set.sources@.len() == 9,
        plain_shape_is(
            set.sources@[0],
            "content/shapes/block/cube.toml"@,
            "cube_all"@,
            ShapeKind::CubeAll,
        ),
        plain_shape_is(
            set.sources@[1],
            "content/shapes/block/cube_faces.toml"@,
            "cube_faces"@,
            ShapeKind::CubeFaces,
        ),
        topsoil_shape_is(
            set.sources@[2],
            "content/shapes/block/topsoil.toml"@,
            "topsoil_overlay"@,
            seq!["base"@, "grass_side"@, "grass_top"@],
        ),
        cube_block_is(
            set.sources@[3],
            "content/blocktypes/coarse_dirt.toml"@,
            "coarse_dirt"@,
            "coarse_dirt"@,
            2_052_735_231,
            "freven.vanilla:models/block/cube_all"@,
            RenderLayer::Opaque,
            seq!["freven:terrain_solids"@],
        ),
        cube_block_is(
            set.sources@[4],
            "content/blocktypes/dirt.toml"@,
            "dirt"@,
            "dirt"@,
            1_800_350_463,
            "freven.vanilla:models/block/cube_all"@,
            RenderLayer::Opaque,
            seq!["freven:terrain_solids"@],
        ),
        cube_block_is(
            set.sources@[5],
            "content/blocktypes/glass.toml"@,
            "glass"@,
            "glass"@,
            2_161_704_908,
            "freven.vanilla:models/block/cube_all"@,
            RenderLayer::Transparent,
            seq!["freven:transparent_blocks"@, "freven:glass"@],
        ),
        face_block_is(
            set.sources@[6],
            "content/blocktypes/grass.toml"@,
            "grass"@,
            "freven.vanilla:models/block/cube_faces"@,
            seq!["freven:terrain_solids"@],
        ),
        ({
            let m = set.sources@[6]->FaceBlock_0.materials@;
            &&& m.len() == 3
            &&& face_material_is(m[0], "bottom"@, "grass_bottom"@, "dirt"@, 1_800_350_463, RenderLayer::Opaque)
            &&& face_material_is(m[1], "side"@, "grass_side"@, "coarse_dirt"@, 2_052_735_231, RenderLayer::Opaque)
            &&& face_material_is(m[2], "top"@, "grass_top"@, "grass"@, 1_067_666_943, RenderLayer::Opaque)
        }),
        set.sources@[7] matches VanillaAuthoringSource::RockFamily(r) && r.file@
            == "content/blocktypes/rock.toml"@ && r.code@ == "rock"@,
        ({
            let r = set.sources@[7]->RockFamily_0.rocks@;
            &&& r.len() == 3
            &&& rock_variant_is(r[0], "granite"@, "Granite"@, "8C8580FF"@, "igneous"@)
            &&& rock_variant_is(r[1], "limestone"@, "Limestone"@, "C8C2A8FF"@, "sedimentary"@)
            &&& rock_variant_is(r[2], "stone"@, "Stone"@, "808080FF"@, "generic"@)
        }),
        set.sources@[8] matches VanillaAuthoringSource::SoilGrassFamily(f) && f.file@
            == "content/blocktypes/soil.toml"@ && f.code@ == "soil_grass"@,
        ({
            let f = set.sources@[8]->SoilGrassFamily_0.fertility@;
            &&& f.len() == 3
            &&& fertility_variant_is(f[0], "poor"@, "Poor"@, "5B4632FF"@)
            &&& fertility_variant_is(f[1], "medium"@, "Medium"@, "6F4E2DFF"@)
            &&& fertility_variant_is(f[2], "rich"@, "Rich"@, "46362AFF"@)
        }),
        ({
            let c = set.sources@[8]->SoilGrassFamily_0.coverage@;
            &&& c.len() == 3
            &&& coverage_variant_is(c[0], "bare"@, "Bare"@, None, None)
            &&& coverage_variant_is(c[1], "sparse"@, "Sparse"@, Some("79D957FF"@), Some("5FB345FF"@))
            &&& coverage_variant_is(c[2], "normal"@, "Normal"@, Some("79D957FF"@), Some("5FB345FF"@))
        }),
{
    let mut sources: Vec<VanillaAuthoringSource> = Vec::new();
    let cube = ShapeSource {
        file: "content/shapes/block/cube.toml",
        code: "cube_all",
        kind: ShapeKind::CubeAll,
    };
    sources.push(VanillaAuthoringSource::Shape(cube));
    let cube_faces = ShapeSource {
        file: "content/shapes/block/cube_faces.toml",
        code: "cube_faces",
        kind: ShapeKind::CubeFaces,
    };
    sources.push(VanillaAuthoringSource::Shape(cube_faces));
    let topsoil_slots: &'static [&'static str] = &["base", "grass_side", "grass_top"];
    assert(texts(topsoil_slots@) =~= seq!["base"@, "grass_side"@, "grass_top"@]);
    let topsoil = ShapeSource {
        file: "content/shapes/block/topsoil.toml",
        code: "topsoil_overlay",
        kind: ShapeKind::TopsoilOverlay { material_slots: topsoil_slots },
    };
    sources.push(VanillaAuthoringSource::Shape(topsoil));
    let solids: &'static [&'static str] = &["freven:terrain_solids"];
    assert(texts(solids@) =~= seq!["freven:terrain_solids"@]);
    sources.push(
        VanillaAuthoringSource::CubeBlock(
            CubeBlockSource {
                file: "content/blocktypes/coarse_dirt.toml",
                code: "coarse_dirt",
                texture: "coarse_dirt",
                fallback_debug_tint_rgba: 2_052_735_231,
                model: "freven.vanilla:models/block/cube_all",
                render_layer: RenderLayer::Opaque,
                tags: solids,
            },
        ),
    );
    sources.push(
        VanillaAuthoringSource::CubeBlock(
            CubeBlockSource {
                file: "content/blocktypes/dirt.toml",
                code: "dirt",
                texture: "dirt",
                fallback_debug_tint_rgba: 1_800_350_463,
                model: "freven.vanilla:models/block/cube_all",
                render_layer: RenderLayer::Opaque,
                tags: solids,
            },
        ),
    );
    let glass_tags: &'static [&'static str] = &["freven:transparent_blocks", "freven:glass"];
    assert(texts(glass_tags@) =~= seq!["freven:transparent_blocks"@, "freven:glass"@]);
    sources.push(
        VanillaAuthoringSource::CubeBlock(
            CubeBlockSource {
                file: "content/blocktypes/glass.toml",
                code: "glass",
                texture: "glass",
                fallback_debug_tint_rgba: 2_161_704_908,
                model: "freven.vanilla:models/block/cube_all",
                render_layer: RenderLayer::Transparent,
                tags: glass_tags,
            },
        ),
    );
    let grass_materials: &'static [FaceMaterialSource] = &[
        FaceMaterialSource {
            slot: "bottom",
            material_code: "grass_bottom",
            texture: "dirt",
            fallback_debug_tint_rgba: 1_800_350_463,
            render_layer: RenderLayer::Opaque,
            tint: None,
        },
        FaceMaterialSource {
            slot: "side",
            material_code: "grass_side",
            texture: "coarse_dirt",
            fallback_debug_tint_rgba: 2_052_735_231,
            render_layer: RenderLayer::Opaque,
            tint: None,
        },
        FaceMaterialSource {
            slot: "top",
            material_code: "grass_top",
            texture: "grass",
            fallback_debug_tint_rgba: 1_067_666_943,
            render_layer: RenderLayer::Opaque,
            tint: None,
        },
    ];
    sources.push(
        VanillaAuthoringSource::FaceBlock(
            FaceBlockSource {
                file: "content/blocktypes/grass.toml",
                code: "grass",
                model: "freven.vanilla:models/block/cube_faces",
                tags: solids,
                materials: grass_materials,
            },
        ),
    );
    let rocks: &'static [RockVariantSource] = &[
        RockVariantSource {
            id: "granite",
            display: "Granite",
            fallback_tint_rgba: "8C8580FF",
            rock_group: "igneous",
        },
        RockVariantSource {
            id: "limestone",
            display: "Limestone",
            fallback_tint_rgba: "C8C2A8FF",
            rock_group: "sedimentary",
        },
        RockVariantSource {
            id: "stone",
            display: "Stone",
            fallback_tint_rgba: "808080FF",
            rock_group: "generic",
        },
    ];
    sources.push(
        VanillaAuthoringSource::RockFamily(
            RockFamilySource { file: "content/blocktypes/rock.toml", code: "rock", rocks },
        ),
    );
    let fertility: &'static [FertilityVariantSource] = &[
        FertilityVariantSource { id: "poor", display: "Poor", fallback_tint_rgba: "5B4632FF" },
        FertilityVariantSource {
            id: "medium",
            display: "Medium",
            fallback_tint_rgba: "6F4E2DFF",
        },
        FertilityVariantSource { id: "rich", display: "Rich", fallback_tint_rgba: "46362AFF" },
    ];
    let coverage: &'static [CoverageVariantSource] = &[
        CoverageVariantSource {
            id: "bare",
            display: "Bare",
            top_fallback_tint_rgba: None,
            side_fallback_tint_rgba: None,
        },
        CoverageVariantSource {
            id: "sparse",
            display: "Sparse",
            top_fallback_tint_rgba: Some("79D957FF"),
            side_fallback_tint_rgba: Some("5FB345FF"),
        },
        CoverageVariantSource {
            id: "normal",
            display: "Normal",
            top_fallback_tint_rgba: Some("79D957FF"),
            side_fallback_tint_rgba: Some("5FB345FF"),
        },
    ];
    sources.push(
        VanillaAuthoringSource::SoilGrassFamily(
            SoilGrassFamilySource {
                file: "content/blocktypes/soil.toml",
                code: "soil_grass",
                fertility,
                coverage,
            },
        ),
    );
    VanillaAuthoringFixtureSet { sources }
}

} // verus!
