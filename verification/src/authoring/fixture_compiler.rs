//! Compiler of in-memory Vanilla authoring fixtures into a canonical content
//! manifest and its declaration ledger.

use vstd::prelude::*;
use vstd::string::StringExecFns;
use crate::authoring::{
    add_declaration, decl, decl_models, first_rejection, lemma_ledger_outcome_concat,
    lemma_outcome_prefix, lemma_outcome_step, ledger_outcome, AuthoringSourceKind, AuthoringSourceRef, CompiledVanillaProfile,
    DeclarationModel, DuplicateModelWitness, GeneratedDeclaration, GeneratedDeclarationKind,
    GeneratedFile, VanillaAuthoringError, CANONICAL_MANIFEST_SCHEMA, VANILLA_BLOCKTYPES_PROFILE_V1,
};
use crate::text::{
    concat3, concat5, decimal, decimal_line, join_lines, joined, push_quoted_list, quoted_line,
    quoted_line_string, quoted_list, string_of,
};

verus! {

#[derive(Debug, Clone, PartialEq, Eq)]
pub struct VanillaAuthoringFixtureSet {
    pub sources: Vec<VanillaAuthoringSource>,
}

#[derive(Debug, Clone, PartialEq, Eq)]
pub enum VanillaAuthoringSource {
    Shape(ShapeSource),
    CubeBlock(CubeBlockSource),
    FaceBlock(FaceBlockSource),
    RockFamily(RockFamilySource),
    SoilGrassFamily(SoilGrassFamilySource),
}

#[derive(Debug, Clone, PartialEq, Eq)]
pub struct ShapeSource {
    pub file: &'static str,
    pub code: &'static str,
    pub kind: ShapeKind,
}

#[derive(Debug, Clone, PartialEq, Eq)]
pub enum ShapeKind {
    CubeAll,
    CubeFaces,
    TopsoilOverlay { material_slots: &'static [&'static str] },
}

#[derive(Debug, Clone, PartialEq, Eq)]
pub struct CubeBlockSource {
    pub file: &'static str,
    pub code: &'static str,
    pub texture: &'static str,
    pub fallback_debug_tint_rgba: u32,
    pub model: &'static str,
    pub render_layer: RenderLayer,
    pub tags: &'static [&'static str],
}

#[derive(Debug, Clone, PartialEq, Eq)]
pub struct FaceBlockSource {
    pub file: &'static str,
    pub code: &'static str,
    pub model: &'static str,
    pub materials: &'static [FaceMaterialSource],
    pub tags: &'static [&'static str],
}

#[derive(Debug, Clone, PartialEq, Eq)]
pub struct FaceMaterialSource {
    pub slot: &'static str,
    pub material_code: &'static str,
    pub texture: &'static str,
    pub fallback_debug_tint_rgba: u32,
    pub render_layer: RenderLayer,
    pub tint: Option<TintSource>,
}

#[derive(Debug, Clone, PartialEq, Eq)]
pub struct TintSource {
    pub source: &'static str,
    pub color_map_texture: &'static str,
    pub fallback_tint_rgba: u32,
}

#[derive(Debug, Clone, Copy, PartialEq, Eq)]
pub enum RenderLayer {
    Opaque,
    Cutout { alpha_cutoff_u8: u8 },
    Transparent,
}

#[derive(Debug, Clone, PartialEq, Eq)]
pub struct RockFamilySource {
    pub file: &'static str,
    pub code: &'static str,
    pub rocks: &'static [RockVariantSource],
}

#[derive(Debug, Clone, PartialEq, Eq)]
pub struct RockVariantSource {
    pub id: &'static str,
    pub display: &'static str,
    pub fallback_tint_rgba: &'static str,
    pub rock_group: &'static str,
}

#[derive(Debug, Clone, PartialEq, Eq)]
pub struct SoilGrassFamilySource {
    pub file: &'static str,
    pub code: &'static str,
    pub fertility: &'static [FertilityVariantSource],
    pub coverage: &'static [CoverageVariantSource],
}

#[derive(Debug, Clone, PartialEq, Eq)]
pub struct FertilityVariantSource {
    pub id: &'static str,
    pub display: &'static str,
    pub fallback_tint_rgba: &'static str,
}

#[derive(Debug, Clone, PartialEq, Eq)]
pub struct CoverageVariantSource {
    pub id: &'static str,
    pub display: &'static str,
    pub top_fallback_tint_rgba: Option<&'static str>,
    pub side_fallback_tint_rgba: Option<&'static str>,
}

// ---------------------------------------------------------------------------
// What each source generates: declaration requests and manifest lines
// ---------------------------------------------------------------------------

pub open spec fn material_key(code: Seq<char>) -> Seq<char> {
    "freven.vanilla:block/"@ + code
}

pub open spec fn visual_key(code: Seq<char>) -> Seq<char> {
    "freven.vanilla:visuals/block/"@ + code
}

pub open spec fn model_key(code: Seq<char>) -> Seq<char> {
    "freven.vanilla:models/block/"@ + code
}

pub open spec fn family_key(code: Seq<char>) -> Seq<char> {
    "freven.vanilla:families/"@ + code
}

/// One block-tag request per tag, in order.
pub open spec fn tag_requests(tags: Seq<&'static str>, file: Seq<char>) -> Seq<DeclarationModel> {
    tags.map_values(
        |t: &'static str|
            decl(
                GeneratedDeclarationKind::BlockTag,
                t@,
                file,
                AuthoringSourceKind::Blocktype,
                "tags"@,
            ),
    )
}

/// A `[[block_tags]]` table per tag, naming the block.
pub open spec fn tag_lines(tags: Seq<&'static str>, code: Seq<char>) -> Seq<Seq<char>>
    decreases tags.len(),
{
    if tags.len() == 0 {
        Seq::empty()
    } else {
        tag_lines(tags.drop_last(), code) + seq![
            "[[block_tags]]"@,
            quoted_line("key = "@, tags.last()@),
            "blocks = [\"freven.vanilla:"@ + code + "\"]"@,
            ""@,
        ]
    }
}

/// Lines that state a non-opaque render layer.
pub open spec fn render_layer_lines(layer: RenderLayer) -> Seq<Seq<char>> {
    match layer {
        RenderLayer::Opaque => Seq::empty(),
        RenderLayer::Cutout { alpha_cutoff_u8 } => seq![
            "render_layer = \"cutout\""@,
            "alpha_cutoff_u8 = "@ + decimal(alpha_cutoff_u8 as nat),
        ],
        RenderLayer::Transparent => seq!["render_layer = \"transparent\""@],
    }
}

pub open spec fn shape_requests(shape: ShapeSource) -> Seq<DeclarationModel> {
    seq![
        decl(
            GeneratedDeclarationKind::Model,
            model_key(shape.code@),
            shape.file@,
            AuthoringSourceKind::Shape,
            "shape"@,
        ),
    ]
}

pub open spec fn shape_kind_lines(kind: ShapeKind) -> Seq<Seq<char>> {
    match kind {
        ShapeKind::CubeAll => seq!["kind = \"cube_all\""@],
        ShapeKind::CubeFaces => seq!["kind = \"cube_faces\""@],
        ShapeKind::TopsoilOverlay { material_slots } => seq![
            "kind = \"cuboid_parts\""@,
            "material_slots = ["@ + quoted_list(material_slots@.map_values(|s: &str| s@)) + "]"@,
            "# parts omitted in fixture output; production compiler owns full shape emission"@,
        ],
    }
}

pub open spec fn shape_lines(shape: ShapeSource) -> Seq<Seq<char>> {
    seq!["[[models]]"@, quoted_line("key = "@, model_key(shape.code@))] + shape_kind_lines(
        shape.kind,
    ) + seq![""@]
}

pub open spec fn cube_requests(block: CubeBlockSource) -> Seq<DeclarationModel> {
    seq![
        decl(
            GeneratedDeclarationKind::Material,
            material_key(block.code@),
            block.file@,
            AuthoringSourceKind::Blocktype,
            "blocktype"@,
        ),
        decl(
            GeneratedDeclarationKind::BlockVisual,
            visual_key(block.code@),
            block.file@,
            AuthoringSourceKind::Blocktype,
            "blocktype"@,
        ),
    ] + tag_requests(block.tags@, block.file@)
}

pub open spec fn cube_lines(block: CubeBlockSource) -> Seq<Seq<char>> {
    seq![
        "[[materials]]"@,
        quoted_line("key = "@, material_key(block.code@)),
        quoted_line("texture = "@, "freven.vanilla:textures/"@ + block.texture@),
        "fallback_debug_tint_rgba = "@ + decimal(block.fallback_debug_tint_rgba as nat),
    ] + render_layer_lines(block.render_layer) + seq![
        ""@,
        "[[block_visuals]]"@,
        quoted_line("key = "@, visual_key(block.code@)),
        quoted_line("target = "@, "freven.vanilla:"@ + block.code@),
        quoted_line("model = "@, block.model@),
        ""@,
        "[block_visuals.materials]"@,
        quoted_line("all = "@, material_key(block.code@)),
        ""@,
    ] + tag_lines(block.tags@, block.code@)
}

/// One material request per face material, in order.
pub open spec fn face_material_requests(materials: Seq<FaceMaterialSource>, file: Seq<char>) -> Seq<
    DeclarationModel,
> {
    materials.map_values(
        |m: FaceMaterialSource|
            decl(
                GeneratedDeclarationKind::Material,
                material_key(m.material_code@),
                file,
                AuthoringSourceKind::Blocktype,
                "materials"@,
            ),
    )
}

pub open spec fn tint_lines(tint: Option<TintSource>) -> Seq<Seq<char>> {
    match tint {
        None => Seq::empty(),
        Some(t) => seq![
            ""@,
            "[materials.tint]"@,
            quoted_line("source = "@, t.source@),
            quoted_line("color_map_texture = "@, t.color_map_texture@),
            "fallback_tint_rgba = "@ + decimal(t.fallback_tint_rgba as nat),
        ],
    }
}

pub open spec fn face_material_lines(m: FaceMaterialSource) -> Seq<Seq<char>> {
    seq![
        "[[materials]]"@,
        quoted_line("key = "@, material_key(m.material_code@)),
        quoted_line("texture = "@, "freven.vanilla:textures/"@ + m.texture@),
        "fallback_debug_tint_rgba = "@ + decimal(m.fallback_debug_tint_rgba as nat),
    ] + render_layer_lines(m.render_layer) + tint_lines(m.tint) + seq![""@]
}

pub open spec fn face_materials_lines(materials: Seq<FaceMaterialSource>) -> Seq<Seq<char>>
    decreases materials.len(),
{
    if materials.len() == 0 {
        Seq::empty()
    } else {
        face_materials_lines(materials.drop_last()) + face_material_lines(materials.last())
    }
}

/// One `slot = "material"` binding per face material.
pub open spec fn face_slot_lines(materials: Seq<FaceMaterialSource>) -> Seq<Seq<char>>
    decreases materials.len(),
{
    if materials.len() == 0 {
        Seq::empty()
    } else {
        face_slot_lines(materials.drop_last()).push(
            quoted_line(
                materials.last().slot@ + " = "@,
                material_key(materials.last().material_code@),
            ),
        )
    }
}

pub open spec fn face_requests(block: FaceBlockSource) -> Seq<DeclarationModel> {
    seq![
        decl(
            GeneratedDeclarationKind::BlockVisual,
            visual_key(block.code@),
            block.file@,
            AuthoringSourceKind::Blocktype,
            "visual"@,
        ),
    ] + face_material_requests(block.materials@, block.file@) + tag_requests(
        block.tags@,
        block.file@,
    )
}

pub open spec fn face_lines(block: FaceBlockSource) -> Seq<Seq<char>> {
    face_materials_lines(block.materials@) + seq![
        "[[block_visuals]]"@,
        quoted_line("key = "@, visual_key(block.code@)),
        quoted_line("target = "@, "freven.vanilla:"@ + block.code@),
        quoted_line("model = "@, block.model@),
        ""@,
        "[block_visuals.materials]"@,
    ] + face_slot_lines(block.materials@) + seq![""@] + tag_lines(block.tags@, block.code@)
}

pub open spec fn template_request(
    kind: GeneratedDeclarationKind,
    key: Seq<char>,
    file: Seq<char>,
    field: Seq<char>,
) -> DeclarationModel {
    decl(kind, key, file, AuthoringSourceKind::Blocktype, field)
}

/// Requests of `(kind, key, field)` templates declared by one family source.
pub open spec fn template_requests(
    templates: Seq<(GeneratedDeclarationKind, String, &'static str)>,
    file: Seq<char>,
) -> Seq<DeclarationModel> {
    templates.map_values(
        |t: (GeneratedDeclarationKind, String, &'static str)|
            template_request(t.0, t.1@, file, t.2@),
    )
}

pub open spec fn rock_requests(family: RockFamilySource) -> Seq<DeclarationModel> {
    seq![
        template_request(
            GeneratedDeclarationKind::ContentFamily,
            family_key(family.code@),
            family.file@,
            "family"@,
        ),
        template_request(
            GeneratedDeclarationKind::Material,
            "block/{rock}"@,
            family.file@,
            "templates.material"@,
        ),
        template_request(
            GeneratedDeclarationKind::BlockVisual,
            "visuals/block/{rock}"@,
            family.file@,
            "templates.visual"@,
        ),
        template_request(
            GeneratedDeclarationKind::BlockTag,
            "freven:stones"@,
            family.file@,
            "templates.tags"@,
        ),
        template_request(
            GeneratedDeclarationKind::BlockTag,
            "freven:terrain_solids"@,
            family.file@,
            "templates.tags"@,
        ),
    ]
}

pub open spec fn rock_value_lines(rock: RockVariantSource) -> Seq<Seq<char>> {
    seq![
        "[[families.axes.values]]"@,
        quoted_line("id = "@, rock.id@),
        quoted_line("display = "@, rock.display@),
        quoted_line("fallback_tint_rgba = "@, rock.fallback_tint_rgba@),
        quoted_line("rock_group = "@, rock.rock_group@),
        ""@,
    ]
}

pub open spec fn rock_values_lines(rocks: Seq<RockVariantSource>) -> Seq<Seq<char>>
    decreases rocks.len(),
{
    if rocks.len() == 0 {
        Seq::empty()
    } else {
        rock_values_lines(rocks.drop_last()) + rock_value_lines(rocks.last())
    }
}

pub open spec fn rock_template_lines() -> Seq<Seq<char>> {
    seq![
        "[families.templates.material]"@,
        "key = \"block/{rock}\""@,
        "texture = \"textures/{rock}\""@,
        "fallback_debug_tint_rgba = \"{rock.fallback_tint_rgba}\""@,
        "render_layer = \"opaque\""@,
        ""@,
        "[families.templates.visual]"@,
        "key = \"visuals/block/{rock}\""@,
        "target = \"{rock}\""@,
        "model = \"freven.vanilla:models/block/cube_all\""@,
        "material = \"block/{rock}\""@,
        ""@,
        "[[families.templates.tags]]"@,
        "tag = \"freven:stones\""@,
        "value = \"{rock}\""@,
        ""@,
        "[[families.templates.tags]]"@,
        "tag = \"freven:terrain_solids\""@,
        "value = \"{rock}\""@,
        ""@,
    ]
}

/// Header of a `[[families]]` table and its first axis.
pub open spec fn family_header_lines(key: Seq<char>, description: Seq<char>, axis: Seq<char>) -> Seq<
    Seq<char>,
> {
    seq![
        "[[families]]"@,
        quoted_line("key = "@, key),
        ""@,
        "[families.family]"@,
        "kind = \"content_family\""@,
        "namespace = \"freven.vanilla\""@,
        quoted_line("description = "@, description),
        ""@,
        "[[families.axes]]"@,
        quoted_line("name = "@, axis),
        ""@,
    ]
}

pub open spec fn rock_lines(family: RockFamilySource) -> Seq<Seq<char>> {
    family_header_lines(
        family_key(family.code@),
        "Generated from freven.vanilla:blocktypes_v1 rock blocktype source."@,
        "rock"@,
    ) + rock_values_lines(family.rocks@) + rock_template_lines()
}

pub open spec fn soil_requests(family: SoilGrassFamilySource) -> Seq<DeclarationModel> {
    seq![
        template_request(
            GeneratedDeclarationKind::ContentFamily,
            family_key(family.code@),
            family.file@,
            "family"@,
        ),
        template_request(
            GeneratedDeclarationKind::Material,
            "block/soil_{fertility}"@,
            family.file@,
            "templates.material"@,
        ),
        template_request(
            GeneratedDeclarationKind::BlockVisual,
            "visuals/block/soil_{fertility}_bare"@,
            family.file@,
            "templates.variants.visual"@,
        ),
        template_request(
            GeneratedDeclarationKind::BlockVisual,
            "visuals/block/soil_{fertility}_sparse"@,
            family.file@,
            "templates.variants.visual"@,
        ),
        template_request(
            GeneratedDeclarationKind::BlockVisual,
            "visuals/block/soil_{fertility}_normal"@,
            family.file@,
            "templates.variants.visual"@,
        ),
        template_request(
            GeneratedDeclarationKind::BlockTag,
            "freven:soils"@,
            family.file@,
            "templates.tags"@,
        ),
        template_request(
            GeneratedDeclarationKind::BlockTag,
            "freven:terrain_solids"@,
            family.file@,
            "templates.tags"@,
        ),
    ]
}

pub open spec fn fertility_value_lines(f: FertilityVariantSource) -> Seq<Seq<char>> {
    seq![
        "[[families.axes.values]]"@,
        quoted_line("id = "@, f.id@),
        quoted_line("display = "@, f.display@),
        quoted_line("fallback_tint_rgba = "@, f.fallback_tint_rgba@),
        ""@,
    ]
}

pub open spec fn fertility_values_lines(fs: Seq<FertilityVariantSource>) -> Seq<Seq<char>>
    decreases fs.len(),
{
    if fs.len() == 0 {
        Seq::empty()
    } else {
        fertility_values_lines(fs.drop_last()) + fertility_value_lines(fs.last())
    }
}

pub open spec fn optional_quoted_line(prefix: Seq<char>, value: Option<&'static str>) -> Seq<
    Seq<char>,
> {
    match value {
        Some(v) => seq![quoted_line(prefix, v@)],
        None => Seq::empty(),
    }
}

pub open spec fn coverage_value_lines(c: CoverageVariantSource) -> Seq<Seq<char>> {
    seq!["[[families.axes.values]]"@, quoted_line("id = "@, c.id@), quoted_line("display = "@, c.display@)]
        + optional_quoted_line("top_fallback_tint_rgba = "@, c.top_fallback_tint_rgba)
        + optional_quoted_line("side_fallback_tint_rgba = "@, c.side_fallback_tint_rgba) + seq![""@]
}

pub open spec fn coverage_values_lines(cs: Seq<CoverageVariantSource>) -> Seq<Seq<char>>
    decreases cs.len(),
{
    if cs.len() == 0 {
        Seq::empty()
    } else {
        coverage_values_lines(cs.drop_last()) + coverage_value_lines(cs.last())
    }
}

/// Surface-material template of a covered soil variant for one face.
pub open spec fn soil_surface_lines(coverage: Seq<char>, face: Seq<char>) -> Seq<Seq<char>> {
    seq![
        "[families.templates.variants.materials."@ + face + "]"@,
        "key = \"block/soil_{fertility}_"@ + coverage + "_"@ + face + "\""@,
        "texture = \"textures/soil_{fertility}\""@,
        "fallback_debug_tint_rgba = \"{fertility.fallback_tint_rgba}\""@,
        "render_layer = \"opaque\""@,
        ""@,
        "[[families.templates.variants.materials."@ + face + ".surface_layers]]"@,
        "name = \"grass_overlay\""@,
        "texture = \"textures/grass_"@ + coverage + "_"@ + face + "\""@,
        "blend = \"alpha_over\""@,
        "tint_sampling = \"world_xz\""@,
        ""@,
        "[families.templates.variants.materials."@ + face + ".surface_layers.tint]"@,
        "source = \"freven.core:tint/color_map_2d_v1\""@,
        "color_map_texture = \"textures/tint/grass_tint\""@,
        "fallback_tint_rgba = \"{coverage."@ + face + "_fallback_tint_rgba}\""@,
        ""@,
    ]
}

/// Template of one coverage variant: bare soil is a plain cube, covered soil
/// gets grass surface layers on its side and top faces.
pub open spec fn soil_variant_lines(coverage: Seq<char>, bare: bool) -> Seq<Seq<char>> {
    seq!["[[families.templates.variants]]"@, quoted_line("coverage = "@, coverage), ""@] + (if bare {
        Seq::empty()
    } else {
        soil_surface_lines(coverage, "side"@) + soil_surface_lines(coverage, "top"@)
    }) + seq![
        "[families.templates.variants.visual]"@,
        "key = \"visuals/block/soil_{fertility}_"@ + coverage + "\""@,
        "target = \"soil_{fertility}_"@ + coverage + "\""@,
    ] + (if bare {
        seq!["model = \"freven.vanilla:models/block/cube_all\""@, "material = \"block/soil_{fertility}\""@]
    } else {
        seq![
            "model = \"freven.vanilla:models/block/cube_faces\""@,
            ""@,
            "[families.templates.variants.visual.materials]"@,
            "bottom = \"block/soil_{fertility}\""@,
            "side = \"block/soil_{fertility}_"@ + coverage + "_side\""@,
            "top = \"block/soil_{fertility}_"@ + coverage + "_top\""@,
        ]
    }) + seq![
        ""@,
        "[[families.templates.variants.tags]]"@,
        "tag = \"freven:soils\""@,
        "value = \"soil_{fertility}_"@ + coverage + "\""@,
        ""@,
        "[[families.templates.variants.tags]]"@,
        "tag = \"freven:terrain_solids\""@,
        "value = \"soil_{fertility}_"@ + coverage + "\""@,
        ""@,
    ]
}

pub open spec fn soil_lines(family: SoilGrassFamilySource) -> Seq<Seq<char>> {
    family_header_lines(
        family_key(family.code@),
        "Generated from freven.vanilla:blocktypes_v1 soil blocktype and worldproperty source."@,
        "fertility"@,
    ) + fertility_values_lines(family.fertility@) + seq![
        "[[families.axes]]"@,
        "name = \"coverage\""@,
        ""@,
    ] + coverage_values_lines(family.coverage@) + seq![
        "[families.templates.material]"@,
        "key = \"block/soil_{fertility}\""@,
        "texture = \"textures/soil_{fertility}\""@,
        "fallback_debug_tint_rgba = \"{fertility.fallback_tint_rgba}\""@,
        "render_layer = \"opaque\""@,
        ""@,
    ] + soil_variant_lines("bare"@, true) + soil_variant_lines("sparse"@, false)
        + soil_variant_lines("normal"@, false)
}

pub open spec fn source_requests(source: VanillaAuthoringSource) -> Seq<DeclarationModel> {
    match source {
        VanillaAuthoringSource::Shape(s) => shape_requests(s),
        VanillaAuthoringSource::CubeBlock(b) => cube_requests(b),
        VanillaAuthoringSource::FaceBlock(b) => face_requests(b),
        VanillaAuthoringSource::RockFamily(f) => rock_requests(f),
        VanillaAuthoringSource::SoilGrassFamily(f) => soil_requests(f),
    }
}

pub open spec fn source_lines(source: VanillaAuthoringSource) -> Seq<Seq<char>> {
    match source {
        VanillaAuthoringSource::Shape(s) => shape_lines(s),
        VanillaAuthoringSource::CubeBlock(b) => cube_lines(b),
        VanillaAuthoringSource::FaceBlock(b) => face_lines(b),
        VanillaAuthoringSource::RockFamily(f) => rock_lines(f),
        VanillaAuthoringSource::SoilGrassFamily(f) => soil_lines(f),
    }
}

/// The authoring file a source was read from.
pub open spec fn source_file(source: VanillaAuthoringSource) -> Seq<char> {
    match source {
        VanillaAuthoringSource::Shape(s) => s.file@,
        VanillaAuthoringSource::CubeBlock(b) => b.file@,
        VanillaAuthoringSource::FaceBlock(b) => b.file@,
        VanillaAuthoringSource::RockFamily(f) => f.file@,
        VanillaAuthoringSource::SoilGrassFamily(f) => f.file@,
    }
}

/// The code a source declares its content under.
pub open spec fn source_code(source: VanillaAuthoringSource) -> Seq<char> {
    match source {
        VanillaAuthoringSource::Shape(s) => s.code@,
        VanillaAuthoringSource::CubeBlock(b) => b.code@,
        VanillaAuthoringSource::FaceBlock(b) => b.code@,
        VanillaAuthoringSource::RockFamily(f) => f.code@,
        VanillaAuthoringSource::SoilGrassFamily(f) => f.code@,
    }
}

/// All declaration requests of a fixture, source by source.
pub open spec fn fixture_requests(sources: Seq<VanillaAuthoringSource>) -> Seq<DeclarationModel>
    decreases sources.len(),
{
    if sources.len() == 0 {
        Seq::empty()
    } else {
        fixture_requests(sources.drop_last()) + source_requests(sources.last())
    }
}

pub open spec fn sources_lines(sources: Seq<VanillaAuthoringSource>) -> Seq<Seq<char>>
    decreases sources.len(),
{
    if sources.len() == 0 {
        Seq::empty()
    } else {
        sources_lines(sources.drop_last()) + source_lines(sources.last())
    }
}

/// Header lines of every generated manifest.
pub open spec fn manifest_header_lines() -> Seq<Seq<char>> {
    seq![
        "schema = "@ + decimal(CANONICAL_MANIFEST_SCHEMA as nat),
        "# generated_from_profile = \"freven.vanilla:blocktypes_v1\""@,
        "# generated output is canonical content graph, not authoring source"@,
        ""@,
    ]
}

/// The manifest of a fixture: the header, then each source's section in order.
pub open spec fn fixture_manifest(sources: Seq<VanillaAuthoringSource>) -> Seq<char> {
    join_lines(manifest_header_lines() + sources_lines(sources))
}


proof fn lemma_sources_lines_prefix(sources: Seq<VanillaAuthoringSource>, k: int)
    requires
        0 <= k <= sources.len(),
    ensures
        sources_lines(sources.take(k)).len() <= sources_lines(sources).len(),
        forall|j: int|
            0 <= j < sources_lines(sources.take(k)).len() ==> #[trigger] sources_lines(sources)[j]
                == sources_lines(sources.take(k))[j],
    decreases sources.len(),
{
    if k < sources.len() {
        let init = sources.drop_last();
        assert(init.take(k) =~= sources.take(k));
        lemma_sources_lines_prefix(init, k);
        assert(sources_lines(sources) == sources_lines(init) + source_lines(sources.last()));
    } else {
        assert(sources.take(k) =~= sources);
    }
}

/// In the manifest of any fixture, every cube block `c` has a
/// `[[block_visuals]]` table keyed `freven.vanilla:visuals/block/c` whose
/// target is the block itself, `freven.vanilla:c`.
pub proof fn lemma_cube_visual_targets_its_block(sources: Seq<VanillaAuthoringSource>, i: int)
    requires
        0 <= i < sources.len(),
        sources[i] is CubeBlock,
    ensures
        ({
            let lines = manifest_header_lines() + sources_lines(sources);
            let c = sources[i]->CubeBlock_0.code@;
            &&& fixture_manifest(sources) == join_lines(lines)
            &&& exists|k: int|
                0 <= k && k + 2 < lines.len() && lines[k] == "[[block_visuals]]"@ && #[trigger] lines[k
                    + 1] == "key = "@ + "\""@ + "freven.vanilla:visuals/block/"@ + c + "\""@
                    && lines[k + 2] == "target = "@ + "\""@ + "freven.vanilla:"@ + c + "\""@
        }),
{
    let b = sources[i]->CubeBlock_0;
    let c = b.code@;
    let header = manifest_header_lines();
    let pre = sources_lines(sources.take(i));
    let cl = cube_lines(b);
    assert(sources.take(i + 1).drop_last() =~= sources.take(i));
    assert(sources_lines(sources.take(i + 1)) == pre + cl);
    lemma_sources_lines_prefix(sources, i + 1);
    let lines = header + sources_lines(sources);
    let off: int = 5 + render_layer_lines(b.render_layer).len() as int;
    let k: int = header.len() as int + pre.len() as int + off;
    assert(cl[off] == "[[block_visuals]]"@);
    assert(cl[off + 1] == quoted_line("key = "@, visual_key(c)));
    assert(cl[off + 2] == quoted_line("target = "@, "freven.vanilla:"@ + c));
    let p0: int = pre.len() as int + off;
    assert(sources_lines(sources)[p0] == (pre + cl)[p0]);
    assert(sources_lines(sources)[p0 + 1] == (pre + cl)[p0 + 1]);
    assert(sources_lines(sources)[p0 + 2] == (pre + cl)[p0 + 2]);
    assert(lines[k] == cl[off]);
    assert(lines[k + 1] == cl[off + 1]);
    assert(lines[k + 2] == cl[off + 2]);
    assert(quoted_line("key = "@, visual_key(c)) =~= "key = "@ + "\""@ + "freven.vanilla:visuals/block/"@ + c + "\""@);
    assert(quoted_line("target = "@, "freven.vanilla:"@ + c) =~= "target = "@ + "\""@ + "freven.vanilla:"@ + c + "\""@);
    assert(lines[k + 1] == "key = "@ + "\""@ + "freven.vanilla:visuals/block/"@ + c + "\""@);
}

// ---------------------------------------------------------------------------
// Compiler
// ---------------------------------------------------------------------------

struct CompilerState {
    declarations: Vec<GeneratedDeclaration>,
    manifest: String,
    lines: Ghost<Seq<Seq<char>>>,
}

impl CompilerState {
    spec fn wf(&self) -> bool {
        &&& self.manifest@ == join_lines(self.lines@)
        &&& first_rejection(decl_models(self.declarations@)) is None
    }

    /// After making `reqs` and emitting `lines`: the refusal, or the grown state.
    spec fn stepped(
        old: CompilerState,
        new: CompilerState,
        r: Result<(), VanillaAuthoringError>,
        reqs: Seq<DeclarationModel>,
        lines: Seq<Seq<char>>,
    ) -> bool {
        match ledger_outcome(decl_models(old.declarations@), reqs) {
            Err(dup) => r is Err && r->Err_0@ == dup,
            Ok(after) => r is Ok && decl_models(new.declarations@) == after && new.lines@ == old.lines@
                + lines && new.wf(),
        }
    }

    fn new() -> (st: Self)
        ensures
            st.wf(),
            st.lines@ == Seq::<Seq<char>>::empty(),
            st.declarations@ == Seq::<GeneratedDeclaration>::empty(),
    {
        let st = CompilerState {
            declarations: Vec::new(),
            manifest: String::new(),
            lines: Ghost(Seq::empty()),
        };
        assert(decl_models(st.declarations@) =~= Seq::<DeclarationModel>::empty());
        st
    }

    fn emit_line(&mut self, line: &str)
        requires
            old(self).wf(),
        ensures
            final(self).wf(),
            final(self).lines@ == old(self).lines@.push(line@),
            final(self).declarations@ == old(self).declarations@,
    {
        proof {
            reveal_strlit("\n");
        }
        self.manifest.append(line);
        self.manifest.append("\n");
        self.lines = Ghost(self.lines@.push(line@));
        assert(self.lines@.drop_last() =~= old(self).lines@);
        assert(self.manifest@ =~= join_lines(self.lines@));
    }

    /// Makes one declaration request from an authoring source.
    fn declare(
        &mut self,
        kind: GeneratedDeclarationKind,
        key: String,
        file: &str,
        src_kind: AuthoringSourceKind,
        field_path: &str,
    ) -> (r: Result<(), VanillaAuthoringError>)
        requires
            old(self).wf(),
        ensures
            Self::stepped(
                *old(self),
                *final(self),
                r,
                seq![decl(kind, key@, file@, src_kind, field_path@)],
                Seq::empty(),
            ),
    {
        let source = AuthoringSourceRef::new(file, src_kind, field_path);
        let ghost req = decl(kind, key@, file@, src_kind, field_path@);
        match add_declaration(&mut self.declarations, kind, key, source) {
            Ok(()) => {
                assert(self.lines@ =~= old(self).lines@ + Seq::<Seq<char>>::empty());
                Ok(())
            },
            Err(DuplicateModelWitness { kind, key, first_source, second_source }) => Err(
                VanillaAuthoringError::DuplicateGeneratedDeclaration {
                    kind,
                    key,
                    first_source: Box::new(first_source),
                    second_source: Box::new(second_source),
                },
            ),
        }
    }

    /// Declares one block tag per entry of `tags`.
    fn declare_tags(&mut self, tags: &[&'static str], file: &str) -> (r: Result<
        (),
        VanillaAuthoringError,
    >)
        requires
            old(self).wf(),
        ensures
            Self::stepped(*old(self), *final(self), r, tag_requests(tags@, file@), Seq::empty()),
    {
        let ghost base = decl_models(self.declarations@);
        let ghost all = tag_requests(tags@, file@);
        let mut i: usize = 0;
        assert(all.take(0) =~= Seq::<DeclarationModel>::empty());
        assert(base + all.take(0) =~= base);
        while i < tags.len()
            invariant
                0 <= i <= tags@.len(),
                all == tag_requests(tags@, file@),
                all.len() == tags@.len(),
                base == decl_models(old(self).declarations@),
                first_rejection(base) is None,
                self.wf(),
                self.lines@ == old(self).lines@,
                ledger_outcome(base, all.take(i as int)) == Ok::<
                    Seq<DeclarationModel>,
                    crate::authoring::DuplicateModel,
                >(decl_models(self.declarations@)),
            decreases tags.len() - i,
        {
            let tag = tags[i];
            proof {
                lemma_outcome_step(base, all, i as int);
                assert(all[i as int] == decl(
                    GeneratedDeclarationKind::BlockTag,
                    tag@,
                    file@,
                    AuthoringSourceKind::Blocktype,
                    "tags"@,
                ));
            }
            let r = self.declare(
                GeneratedDeclarationKind::BlockTag,
                string_of(tag),
                file,
                AuthoringSourceKind::Blocktype,
                "tags",
            );
            if r.is_err() {
                proof {
                    lemma_outcome_prefix(base, all, i + 1);
                }
                return r;
            }
            i = i + 1;
        }
        assert(all.take(tags@.len() as int) =~= all);
        assert(self.lines@ =~= old(self).lines@ + Seq::<Seq<char>>::empty());
        Ok(())
    }
}


impl CompilerState {
    fn emit_render_layer(&mut self, layer: RenderLayer)
        requires
            old(self).wf(),
        ensures
            final(self).wf(),
            final(self).lines@ == old(self).lines@ + render_layer_lines(layer),
            final(self).declarations@ == old(self).declarations@,
    {
        match layer {
            RenderLayer::Opaque => {},
            RenderLayer::Cutout { alpha_cutoff_u8 } => {
                self.emit_line("render_layer = \"cutout\"");
                self.emit_line(decimal_line("alpha_cutoff_u8 = ", alpha_cutoff_u8 as u64).as_str());
            },
            RenderLayer::Transparent => {
                self.emit_line("render_layer = \"transparent\"");
            },
        }
        assert(self.lines@ =~= old(self).lines@ + render_layer_lines(layer));
    }

    fn emit_tag_lines(&mut self, tags: &[&'static str], code: &str)
        requires
            old(self).wf(),
        ensures
            final(self).wf(),
            final(self).lines@ == old(self).lines@ + tag_lines(tags@, code@),
            final(self).declarations@ == old(self).declarations@,
    {
        let blocks_line = {
            let mut l = string_of("blocks = [\"freven.vanilla:");
            l.append(code);
            l.append("\"]");
            l
        };
        let mut i: usize = 0;
        assert(tags@.take(0) =~= Seq::<&'static str>::empty());
        assert(self.lines@ =~= old(self).lines@ + tag_lines(tags@.take(0), code@));
        while i < tags.len()
            invariant
                0 <= i <= tags@.len(),
                self.wf(),
                self.declarations@ == old(self).declarations@,
                blocks_line@ == "blocks = [\"freven.vanilla:"@ + code@ + "\"]"@,
                self.lines@ == old(self).lines@ + tag_lines(tags@.take(i as int), code@),
            decreases tags.len() - i,
        {
            self.emit_line("[[block_tags]]");
            self.emit_line(quoted_line_string("key = ", tags[i]).as_str());
            self.emit_line(blocks_line.as_str());
            self.emit_line("");
            assert(tags@.take(i + 1).drop_last() =~= tags@.take(i as int));
            assert(self.lines@ =~= old(self).lines@ + tag_lines(tags@.take(i + 1), code@));
            i = i + 1;
        }
        assert(tags@.take(tags@.len() as int) =~= tags@);
    }

    fn compile_shape(&mut self, shape: &ShapeSource) -> (r: Result<(), VanillaAuthoringError>)
        requires
            old(self).wf(),
        ensures
            Self::stepped(*old(self), *final(self), r, shape_requests(*shape), shape_lines(*shape)),
    {
        let key = joined("freven.vanilla:models/block/", shape.code);
        self.declare(
            GeneratedDeclarationKind::Model,
            key.clone(),
            shape.file,
            AuthoringSourceKind::Shape,
            "shape",
        )?;
        let ghost mid = self.lines@;
        self.emit_line("[[models]]");
        self.emit_line(quoted_line_string("key = ", key.as_str()).as_str());
        match &shape.kind {
            ShapeKind::CubeAll => self.emit_line("kind = \"cube_all\""),
            ShapeKind::CubeFaces => self.emit_line("kind = \"cube_faces\""),
            ShapeKind::TopsoilOverlay { material_slots } => {
                self.emit_line("kind = \"cuboid_parts\"");
                let mut l = string_of("material_slots = [");
                push_quoted_list(&mut l, material_slots);
                l.append("]");
                self.emit_line(l.as_str());
                self.emit_line(
                    "# parts omitted in fixture output; production compiler owns full shape emission",
                );
            },
        }
        self.emit_line("");
        assert(self.lines@ =~= old(self).lines@ + shape_lines(*shape));
        Ok(())
    }

    fn compile_cube_block(&mut self, block: &CubeBlockSource) -> (r: Result<
        (),
        VanillaAuthoringError,
    >)
        requires
            old(self).wf(),
        ensures
            Self::stepped(*old(self), *final(self), r, cube_requests(*block), cube_lines(*block)),
    {
        let material_key = joined("freven.vanilla:block/", block.code);
        let visual_key = joined("freven.vanilla:visuals/block/", block.code);
        let ghost base = decl_models(self.declarations@);
        let ghost r1 = decl(
            GeneratedDeclarationKind::Material,
            material_key@,
            block.file@,
            AuthoringSourceKind::Blocktype,
            "blocktype"@,
        );
        let ghost r2 = decl(
            GeneratedDeclarationKind::BlockVisual,
            visual_key@,
            block.file@,
            AuthoringSourceKind::Blocktype,
            "blocktype"@,
        );
        let ghost tags = tag_requests(block.tags@, block.file@);
        proof {
            assert(cube_requests(*block) =~= seq![r1, r2] + tags);
            assert(seq![r1, r2] =~= seq![r1] + seq![r2]);
            lemma_ledger_outcome_concat(base, seq![r1, r2], tags);
            lemma_ledger_outcome_concat(base, seq![r1], seq![r2]);
        }
        self.declare(
            GeneratedDeclarationKind::Material,
            material_key.clone(),
            block.file,
            AuthoringSourceKind::Blocktype,
            "blocktype",
        )?;
        self.declare(
            GeneratedDeclarationKind::BlockVisual,
            visual_key.clone(),
            block.file,
            AuthoringSourceKind::Blocktype,
            "blocktype",
        )?;
        self.declare_tags(block.tags, block.file)?;
        let ghost start = self.lines@;
        assert(start == old(self).lines@);
        self.emit_line("[[materials]]");
        self.emit_line(quoted_line_string("key = ", material_key.as_str()).as_str());
        self.emit_line(
            quoted_line_string(
                "texture = ",
                joined("freven.vanilla:textures/", block.texture).as_str(),
            ).as_str(),
        );
        self.emit_line(
            decimal_line("fallback_debug_tint_rgba = ", block.fallback_debug_tint_rgba as u64).as_str(),
        );
        self.emit_render_layer(block.render_layer);
        self.emit_line("");
        self.emit_line("[[block_visuals]]");
        self.emit_line(quoted_line_string("key = ", visual_key.as_str()).as_str());
        self.emit_line(
            quoted_line_string("target = ", joined("freven.vanilla:", block.code).as_str()).as_str(),
        );
        self.emit_line(quoted_line_string("model = ", block.model).as_str());
        self.emit_line("");
        self.emit_line("[block_visuals.materials]");
        self.emit_line(quoted_line_string("all = ", material_key.as_str()).as_str());
        self.emit_line("");
        self.emit_tag_lines(block.tags, block.code);
        assert(self.lines@ =~= old(self).lines@ + cube_lines(*block));
        Ok(())
    }
}


impl CompilerState {
    /// Declares one material per face material.
    fn declare_face_materials(&mut self, materials: &[FaceMaterialSource], file: &str) -> (r:
        Result<(), VanillaAuthoringError>)
        requires
            old(self).wf(),
        ensures
            Self::stepped(
                *old(self),
                *final(self),
                r,
                face_material_requests(materials@, file@),
                Seq::empty(),
            ),
    {
        let ghost base = decl_models(self.declarations@);
        let ghost all = face_material_requests(materials@, file@);
        let mut i: usize = 0;
        assert(all.take(0) =~= Seq::<DeclarationModel>::empty());
        assert(base + all.take(0) =~= base);
        while i < materials.len()
            invariant
                0 <= i <= materials@.len(),
                all == face_material_requests(materials@, file@),
                all.len() == materials@.len(),
                base == decl_models(old(self).declarations@),
                first_rejection(base) is None,
                self.wf(),
                self.lines@ == old(self).lines@,
                ledger_outcome(base, all.take(i as int)) == Ok::<
                    Seq<DeclarationModel>,
                    crate::authoring::DuplicateModel,
                >(decl_models(self.declarations@)),
            decreases materials.len() - i,
        {
            let key = joined("freven.vanilla:block/", materials[i].material_code);
            proof {
                lemma_outcome_step(base, all, i as int);
            }
            let r = self.declare(
                GeneratedDeclarationKind::Material,
                key,
                file,
                AuthoringSourceKind::Blocktype,
                "materials",
            );
            if r.is_err() {
                proof {
                    lemma_outcome_prefix(base, all, i + 1);
                }
                return r;
            }
            i = i + 1;
        }
        assert(all.take(materials@.len() as int) =~= all);
        assert(self.lines@ =~= old(self).lines@ + Seq::<Seq<char>>::empty());
        Ok(())
    }

    /// Declares each `(kind, key, field)` template of a family source.
    fn declare_templates(
        &mut self,
        templates: &Vec<(GeneratedDeclarationKind, String, &'static str)>,
        file: &str,
    ) -> (r: Result<(), VanillaAuthoringError>)
        requires
            old(self).wf(),
        ensures
            Self::stepped(
                *old(self),
                *final(self),
                r,
                template_requests(templates@, file@),
                Seq::empty(),
            ),
    {
        let ghost base = decl_models(self.declarations@);
        let ghost all = template_requests(templates@, file@);
        let mut i: usize = 0;
        assert(all.take(0) =~= Seq::<DeclarationModel>::empty());
        assert(base + all.take(0) =~= base);
        while i < templates.len()
            invariant
                0 <= i <= templates@.len(),
                all == template_requests(templates@, file@),
                all.len() == templates@.len(),
                base == decl_models(old(self).declarations@),
                first_rejection(base) is None,
                self.wf(),
                self.lines@ == old(self).lines@,
                ledger_outcome(base, all.take(i as int)) == Ok::<
                    Seq<DeclarationModel>,
                    crate::authoring::DuplicateModel,
                >(decl_models(self.declarations@)),
            decreases templates.len() - i,
        {
            let t = &templates[i];
            proof {
                lemma_outcome_step(base, all, i as int);
            }
            let r = self.declare(t.0, t.1.clone(), file, AuthoringSourceKind::Blocktype, t.2);
            if r.is_err() {
                proof {
                    lemma_outcome_prefix(base, all, i + 1);
                }
                return r;
            }
            i = i + 1;
        }
        assert(all.take(templates@.len() as int) =~= all);
        assert(self.lines@ =~= old(self).lines@ + Seq::<Seq<char>>::empty());
        Ok(())
    }

    fn emit_face_material(&mut self, m: &FaceMaterialSource)
        requires
            old(self).wf(),
        ensures
            final(self).wf(),
            final(self).lines@ == old(self).lines@ + face_material_lines(*m),
            final(self).declarations@ == old(self).declarations@,
    {
        let key = joined("freven.vanilla:block/", m.material_code);
        self.emit_line("[[materials]]");
        self.emit_line(quoted_line_string("key = ", key.as_str()).as_str());
        self.emit_line(
            quoted_line_string("texture = ", joined("freven.vanilla:textures/", m.texture).as_str()).as_str(),
        );
        self.emit_line(
            decimal_line("fallback_debug_tint_rgba = ", m.fallback_debug_tint_rgba as u64).as_str(),
        );
        self.emit_render_layer(m.render_layer);
        let ghost mid = self.lines@;
        if let Some(tint) = &m.tint {
            self.emit_line("");
            self.emit_line("[materials.tint]");
            self.emit_line(quoted_line_string("source = ", tint.source).as_str());
            self.emit_line(quoted_line_string("color_map_texture = ", tint.color_map_texture).as_str());
            self.emit_line(decimal_line("fallback_tint_rgba = ", tint.fallback_tint_rgba as u64).as_str());
        }
        assert(self.lines@ =~= mid + tint_lines(m.tint));
        self.emit_line("");
        assert(self.lines@ =~= old(self).lines@ + face_material_lines(*m));
    }

    fn emit_face_materials(&mut self, materials: &[FaceMaterialSource])
        requires
            old(self).wf(),
        ensures
            final(self).wf(),
            final(self).lines@ == old(self).lines@ + face_materials_lines(materials@),
            final(self).declarations@ == old(self).declarations@,
    {
        let mut i: usize = 0;
        assert(materials@.take(0) =~= Seq::<FaceMaterialSource>::empty());
        assert(self.lines@ =~= old(self).lines@ + face_materials_lines(materials@.take(0)));
        while i < materials.len()
            invariant
                0 <= i <= materials@.len(),
                self.wf(),
                self.declarations@ == old(self).declarations@,
                self.lines@ == old(self).lines@ + face_materials_lines(materials@.take(i as int)),
            decreases materials.len() - i,
        {
            self.emit_face_material(&materials[i]);
            assert(materials@.take(i + 1).drop_last() =~= materials@.take(i as int));
            assert(self.lines@ =~= old(self).lines@ + face_materials_lines(materials@.take(i + 1)));
            i = i + 1;
        }
        assert(materials@.take(materials@.len() as int) =~= materials@);
    }

    fn emit_face_slot_lines(&mut self, materials: &[FaceMaterialSource])
        requires
            old(self).wf(),
        ensures
            final(self).wf(),
            final(self).lines@ == old(self).lines@ + face_slot_lines(materials@),
            final(self).declarations@ == old(self).declarations@,
    {
        let mut i: usize = 0;
        assert(materials@.take(0) =~= Seq::<FaceMaterialSource>::empty());
        assert(self.lines@ =~= old(self).lines@ + face_slot_lines(materials@.take(0)));
        while i < materials.len()
            invariant
                0 <= i <= materials@.len(),
                self.wf(),
                self.declarations@ == old(self).declarations@,
                self.lines@ == old(self).lines@ + face_slot_lines(materials@.take(i as int)),
            decreases materials.len() - i,
        {
            let m = &materials[i];
            self.emit_line(
                quoted_line_string(
                    joined(m.slot, " = ").as_str(),
                    joined("freven.vanilla:block/", m.material_code).as_str(),
                ).as_str(),
            );
            assert(materials@.take(i + 1).drop_last() =~= materials@.take(i as int));
            assert(self.lines@ =~= old(self).lines@ + face_slot_lines(materials@.take(i + 1)));
            i = i + 1;
        }
        assert(materials@.take(materials@.len() as int) =~= materials@);
    }

    fn compile_face_block(&mut self, block: &FaceBlockSource) -> (r: Result<
        (),
        VanillaAuthoringError,
    >)
        requires
            old(self).wf(),
        ensures
            Self::stepped(*old(self), *final(self), r, face_requests(*block), face_lines(*block)),
    {
        let visual_key = joined("freven.vanilla:visuals/block/", block.code);
        let ghost base = decl_models(self.declarations@);
        let ghost r1 = decl(
            GeneratedDeclarationKind::BlockVisual,
            visual_key@,
            block.file@,
            AuthoringSourceKind::Blocktype,
            "visual"@,
        );
        let ghost mats = face_material_requests(block.materials@, block.file@);
        let ghost tags = tag_requests(block.tags@, block.file@);
        proof {
            assert(face_requests(*block) =~= seq![r1] + mats + tags);
            lemma_ledger_outcome_concat(base, seq![r1] + mats, tags);
            lemma_ledger_outcome_concat(base, seq![r1], mats);
        }
        self.declare(
            GeneratedDeclarationKind::BlockVisual,
            visual_key.clone(),
            block.file,
            AuthoringSourceKind::Blocktype,
            "visual",
        )?;
        self.declare_face_materials(block.materials, block.file)?;
        self.declare_tags(block.tags, block.file)?;
        self.emit_face_materials(block.materials);
        self.emit_line("[[block_visuals]]");
        self.emit_line(quoted_line_string("key = ", visual_key.as_str()).as_str());
        self.emit_line(
            quoted_line_string("target = ", joined("freven.vanilla:", block.code).as_str()).as_str(),
        );
        self.emit_line(quoted_line_string("model = ", block.model).as_str());
        self.emit_line("");
        self.emit_line("[block_visuals.materials]");
        self.emit_face_slot_lines(block.materials);
        self.emit_line("");
        self.emit_tag_lines(block.tags, block.code);
        assert(self.lines@ =~= old(self).lines@ + face_lines(*block));
        Ok(())
    }
}

impl CompilerState {
    fn emit_rock_values(&mut self, rocks: &[RockVariantSource])
        requires
            old(self).wf(),
        ensures
            final(self).wf(),
            final(self).lines@ == old(self).lines@ + rock_values_lines(rocks@),
            final(self).declarations@ == old(self).declarations@,
    {
        let mut i: usize = 0;
        assert(rocks@.take(0) =~= Seq::<RockVariantSource>::empty());
        assert(self.lines@ =~= old(self).lines@ + rock_values_lines(rocks@.take(0)));
        while i < rocks.len()
            invariant
                0 <= i <= rocks@.len(),
                self.wf(),
                self.declarations@ == old(self).declarations@,
                self.lines@ == old(self).lines@ + rock_values_lines(rocks@.take(i as int)),
            decreases rocks.len() - i,
        {
            let rock = &rocks[i];
            self.emit_line("[[families.axes.values]]");
            self.emit_line(quoted_line_string("id = ", rock.id).as_str());
            self.emit_line(quoted_line_string("display = ", rock.display).as_str());
            self.emit_line(quoted_line_string("fallback_tint_rgba = ", rock.fallback_tint_rgba).as_str());
            self.emit_line(quoted_line_string("rock_group = ", rock.rock_group).as_str());
            self.emit_line("");
            assert(rocks@.take(i + 1).drop_last() =~= rocks@.take(i as int));
            assert(self.lines@ =~= old(self).lines@ + rock_values_lines(rocks@.take(i + 1)));
            i = i + 1;
        }
        assert(rocks@.take(rocks@.len() as int) =~= rocks@);
    }

    /// Emits the material, visual and tag templates of a rock family.
    fn emit_rock_templates(&mut self)
        requires
            old(self).wf(),
        ensures
            final(self).wf(),
            final(self).lines@ == old(self).lines@ + rock_template_lines(),
            final(self).declarations@ == old(self).declarations@,
    {
        self.emit_line("[families.templates.material]");
        self.emit_line("key = \"block/{rock}\"");
        self.emit_line("texture = \"textures/{rock}\"");
        self.emit_line("fallback_debug_tint_rgba = \"{rock.fallback_tint_rgba}\"");
        self.emit_line("render_layer = \"opaque\"");
        self.emit_line("");
        self.emit_line("[families.templates.visual]");
        self.emit_line("key = \"visuals/block/{rock}\"");
        self.emit_line("target = \"{rock}\"");
        self.emit_line("model = \"freven.vanilla:models/block/cube_all\"");
        self.emit_line("material = \"block/{rock}\"");
        self.emit_line("");
        self.emit_line("[[families.templates.tags]]");
        self.emit_line("tag = \"freven:stones\"");
        self.emit_line("value = \"{rock}\"");
        self.emit_line("");
        self.emit_line("[[families.templates.tags]]");
        self.emit_line("tag = \"freven:terrain_solids\"");
        self.emit_line("value = \"{rock}\"");
        self.emit_line("");
        assert(self.lines@ =~= old(self).lines@ + rock_template_lines());
    }

    /// Emits the header of a `[[families]]` table with one axis.
    fn emit_family_header(&mut self, family_key: &str, description: &str, axis: &str)
        requires
            old(self).wf(),
        ensures
            final(self).wf(),
            final(self).lines@ == old(self).lines@ + family_header_lines(
                family_key@,
                description@,
                axis@,
            ),
            final(self).declarations@ == old(self).declarations@,
    {
        self.emit_line("[[families]]");
        self.emit_line(quoted_line_string("key = ", family_key).as_str());
        self.emit_line("");
        self.emit_line("[families.family]");
        self.emit_line("kind = \"content_family\"");
        self.emit_line("namespace = \"freven.vanilla\"");
        self.emit_line(quoted_line_string("description = ", description).as_str());
        self.emit_line("");
        self.emit_line("[[families.axes]]");
        self.emit_line(quoted_line_string("name = ", axis).as_str());
        self.emit_line("");
        assert(self.lines@ =~= old(self).lines@ + family_header_lines(
            family_key@,
            description@,
            axis@,
        ));
    }

    fn compile_rock_family(&mut self, family: &RockFamilySource) -> (r: Result<
        (),
        VanillaAuthoringError,
    >)
        requires
            old(self).wf(),
        ensures
            Self::stepped(*old(self), *final(self), r, rock_requests(*family), rock_lines(*family)),
    {
        let family_key = joined("freven.vanilla:families/", family.code);
        let mut templates: Vec<(GeneratedDeclarationKind, String, &'static str)> = Vec::new();
        templates.push((GeneratedDeclarationKind::ContentFamily, family_key.clone(), "family"));
        templates.push(
            (GeneratedDeclarationKind::Material, string_of("block/{rock}"), "templates.material"),
        );
        templates.push(
            (
                GeneratedDeclarationKind::BlockVisual,
                string_of("visuals/block/{rock}"),
                "templates.visual",
            ),
        );
        templates.push((GeneratedDeclarationKind::BlockTag, string_of("freven:stones"), "templates.tags"));
        templates.push(
            (GeneratedDeclarationKind::BlockTag, string_of("freven:terrain_solids"), "templates.tags"),
        );
        assert(template_requests(templates@, family.file@) =~= rock_requests(*family));
        self.declare_templates(&templates, family.file)?;

        self.emit_family_header(
            family_key.as_str(),
            "Generated from freven.vanilla:blocktypes_v1 rock blocktype source.",
            "rock",
        );
        self.emit_rock_values(family.rocks);
        self.emit_rock_templates();
        assert(self.lines@ =~= old(self).lines@ + rock_lines(*family));
        Ok(())
    }
}

impl CompilerState {
    fn emit_fertility_values(&mut self, values: &[FertilityVariantSource])
        requires
            old(self).wf(),
        ensures
            final(self).wf(),
            final(self).lines@ == old(self).lines@ + fertility_values_lines(values@),
            final(self).declarations@ == old(self).declarations@,
    {
        let mut i: usize = 0;
        assert(values@.take(0) =~= Seq::<FertilityVariantSource>::empty());
        assert(self.lines@ =~= old(self).lines@ + fertility_values_lines(values@.take(0)));
        while i < values.len()
            invariant
                0 <= i <= values@.len(),
                self.wf(),
                self.declarations@ == old(self).declarations@,
                self.lines@ == old(self).lines@ + fertility_values_lines(values@.take(i as int)),
            decreases values.len() - i,
        {
            let v = &values[i];
            self.emit_line("[[families.axes.values]]");
            self.emit_line(quoted_line_string("id = ", v.id).as_str());
            self.emit_line(quoted_line_string("display = ", v.display).as_str());
            self.emit_line(quoted_line_string("fallback_tint_rgba = ", v.fallback_tint_rgba).as_str());
            self.emit_line("");
            assert(values@.take(i + 1).drop_last() =~= values@.take(i as int));
            assert(self.lines@ =~= old(self).lines@ + fertility_values_lines(values@.take(i + 1)));
            i = i + 1;
        }
        assert(values@.take(values@.len() as int) =~= values@);
    }

    fn emit_optional_quoted_line(&mut self, prefix: &str, value: Option<&'static str>)
        requires
            old(self).wf(),
        ensures
            final(self).wf(),
            final(self).lines@ == old(self).lines@ + optional_quoted_line(prefix@, value),
            final(self).declarations@ == old(self).declarations@,
    {
        if let Some(v) = value {
            self.emit_line(quoted_line_string(prefix, v).as_str());
        }
        assert(self.lines@ =~= old(self).lines@ + optional_quoted_line(prefix@, value));
    }

    fn emit_coverage_values(&mut self, values: &[CoverageVariantSource])
        requires
            old(self).wf(),
        ensures
            final(self).wf(),
            final(self).lines@ == old(self).lines@ + coverage_values_lines(values@),
            final(self).declarations@ == old(self).declarations@,
    {
        let mut i: usize = 0;
        assert(values@.take(0) =~= Seq::<CoverageVariantSource>::empty());
        assert(self.lines@ =~= old(self).lines@ + coverage_values_lines(values@.take(0)));
        while i < values.len()
            invariant
                0 <= i <= values@.len(),
                self.wf(),
                self.declarations@ == old(self).declarations@,
                self.lines@ == old(self).lines@ + coverage_values_lines(values@.take(i as int)),
            decreases values.len() - i,
        {
            let v = &values[i];
            let ghost before = self.lines@;
            self.emit_line("[[families.axes.values]]");
            self.emit_line(quoted_line_string("id = ", v.id).as_str());
            self.emit_line(quoted_line_string("display = ", v.display).as_str());
            self.emit_optional_quoted_line("top_fallback_tint_rgba = ", v.top_fallback_tint_rgba);
            self.emit_optional_quoted_line("side_fallback_tint_rgba = ", v.side_fallback_tint_rgba);
            self.emit_line("");
            assert(self.lines@ =~= before + coverage_value_lines(*v));
            assert(values@.take(i + 1).drop_last() =~= values@.take(i as int));
            assert(self.lines@ =~= old(self).lines@ + coverage_values_lines(values@.take(i + 1)));
            i = i + 1;
        }
        assert(values@.take(values@.len() as int) =~= values@);
    }

    /// Emits the grass surface-material template of one face of a covered soil variant.
    fn emit_soil_surface(&mut self, coverage: &str, face: &str)
        requires
            old(self).wf(),
        ensures
            final(self).wf(),
            final(self).lines@ == old(self).lines@ + soil_surface_lines(coverage@, face@),
            final(self).declarations@ == old(self).declarations@,
    {
        self.emit_line(concat3("[families.templates.variants.materials.", face, "]").as_str());
        self.emit_line(
            concat5("key = \"block/soil_{fertility}_", coverage, "_", face, "\"").as_str(),
        );
        self.emit_line("texture = \"textures/soil_{fertility}\"");
        self.emit_line("fallback_debug_tint_rgba = \"{fertility.fallback_tint_rgba}\"");
        self.emit_line("render_layer = \"opaque\"");
        self.emit_line("");
        self.emit_line(
            concat3("[[families.templates.variants.materials.", face, ".surface_layers]]").as_str(),
        );
        self.emit_line("name = \"grass_overlay\"");
        self.emit_line(concat5("texture = \"textures/grass_", coverage, "_", face, "\"").as_str());
        self.emit_line("blend = \"alpha_over\"");
        self.emit_line("tint_sampling = \"world_xz\"");
        self.emit_line("");
        self.emit_line(
            concat3("[families.templates.variants.materials.", face, ".surface_layers.tint]").as_str(),
        );
        self.emit_line("source = \"freven.core:tint/color_map_2d_v1\"");
        self.emit_line("color_map_texture = \"textures/tint/grass_tint\"");
        self.emit_line(concat3("fallback_tint_rgba = \"{coverage.", face, "_fallback_tint_rgba}\"").as_str());
        self.emit_line("");
        assert(self.lines@ =~= old(self).lines@ + soil_surface_lines(coverage@, face@));
    }

    /// Emits the template of one coverage variant.
    #[verifier::rlimit(40)]
    fn emit_soil_variant(&mut self, coverage: &str, bare: bool)
        requires
            old(self).wf(),
        ensures
            final(self).wf(),
            final(self).lines@ == old(self).lines@ + soil_variant_lines(coverage@, bare),
            final(self).declarations@ == old(self).declarations@,
    {
        self.emit_line("[[families.templates.variants]]");
        self.emit_line(quoted_line_string("coverage = ", coverage).as_str());
        self.emit_line("");
        let ghost a = self.lines@;
        if !bare {
            self.emit_soil_surface(coverage, "side");
            self.emit_soil_surface(coverage, "top");
        }
        let ghost b = self.lines@;
        self.emit_line("[families.templates.variants.visual]");
        self.emit_line(concat3("key = \"visuals/block/soil_{fertility}_", coverage, "\"").as_str());
        self.emit_line(concat3("target = \"soil_{fertility}_", coverage, "\"").as_str());
        let ghost c = self.lines@;
        if bare {
            self.emit_line("model = \"freven.vanilla:models/block/cube_all\"");
            self.emit_line("material = \"block/soil_{fertility}\"");
        } else {
            self.emit_line("model = \"freven.vanilla:models/block/cube_faces\"");
            self.emit_line("");
            self.emit_line("[families.templates.variants.visual.materials]");
            self.emit_line("bottom = \"block/soil_{fertility}\"");
            self.emit_line(concat3("side = \"block/soil_{fertility}_", coverage, "_side\"").as_str());
            self.emit_line(concat3("top = \"block/soil_{fertility}_", coverage, "_top\"").as_str());
        }
        let ghost d = self.lines@;
        self.emit_line("");
        self.emit_line("[[families.templates.variants.tags]]");
        self.emit_line("tag = \"freven:soils\"");
        self.emit_line(concat3("value = \"soil_{fertility}_", coverage, "\"").as_str());
        self.emit_line("");
        self.emit_line("[[families.templates.variants.tags]]");
        self.emit_line("tag = \"freven:terrain_solids\"");
        self.emit_line(concat3("value = \"soil_{fertility}_", coverage, "\"").as_str());
        self.emit_line("");
        assert(self.lines@ =~= old(self).lines@ + soil_variant_lines(coverage@, bare));
    }

    fn compile_soil_grass_family(&mut self, family: &SoilGrassFamilySource) -> (r: Result<
        (),
        VanillaAuthoringError,
    >)
        requires
            old(self).wf(),
        ensures
            Self::stepped(*old(self), *final(self), r, soil_requests(*family), soil_lines(*family)),
    {
        let family_key = joined("freven.vanilla:families/", family.code);
        let mut templates: Vec<(GeneratedDeclarationKind, String, &'static str)> = Vec::new();
        templates.push((GeneratedDeclarationKind::ContentFamily, family_key.clone(), "family"));
        templates.push(
            (
                GeneratedDeclarationKind::Material,
                string_of("block/soil_{fertility}"),
                "templates.material",
            ),
        );
        templates.push(
            (
                GeneratedDeclarationKind::BlockVisual,
                string_of("visuals/block/soil_{fertility}_bare"),
                "templates.variants.visual",
            ),
        );
        templates.push(
            (
                GeneratedDeclarationKind::BlockVisual,
                string_of("visuals/block/soil_{fertility}_sparse"),
                "templates.variants.visual",
            ),
        );
        templates.push(
            (
                GeneratedDeclarationKind::BlockVisual,
                string_of("visuals/block/soil_{fertility}_normal"),
                "templates.variants.visual",
            ),
        );
        templates.push((GeneratedDeclarationKind::BlockTag, string_of("freven:soils"), "templates.tags"));
        templates.push(
            (GeneratedDeclarationKind::BlockTag, string_of("freven:terrain_solids"), "templates.tags"),
        );
        assert(template_requests(templates@, family.file@) =~= soil_requests(*family));
        self.declare_templates(&templates, family.file)?;

        self.emit_family_header(
            family_key.as_str(),
            "Generated from freven.vanilla:blocktypes_v1 soil blocktype and worldproperty source.",
            "fertility",
        );
        self.emit_fertility_values(family.fertility);
        self.emit_line("[[families.axes]]");
        self.emit_line("name = \"coverage\"");
        self.emit_line("");
        self.emit_coverage_values(family.coverage);
        self.emit_line("[families.templates.material]");
        self.emit_line("key = \"block/soil_{fertility}\"");
        self.emit_line("texture = \"textures/soil_{fertility}\"");
        self.emit_line("fallback_debug_tint_rgba = \"{fertility.fallback_tint_rgba}\"");
        self.emit_line("render_layer = \"opaque\"");
        self.emit_line("");
        self.emit_soil_variant("bare", true);
        self.emit_soil_variant("sparse", false);
        self.emit_soil_variant("normal", false);
        assert(self.lines@ =~= old(self).lines@ + soil_lines(*family));
        Ok(())
    }
}

/// The requests of the first `k` sources begin the requests of all sources.
proof fn lemma_fixture_requests_prefix(sources: Seq<VanillaAuthoringSource>, k: int)
    requires
        0 <= k <= sources.len(),
    ensures
        fixture_requests(sources.take(k)).len() <= fixture_requests(sources).len(),
        fixture_requests(sources).take(fixture_requests(sources.take(k)).len() as int)
            == fixture_requests(sources.take(k)),
    decreases sources.len(),
{
    if k == sources.len() {
        assert(sources.take(k) =~= sources);
        assert(fixture_requests(sources).take(fixture_requests(sources).len() as int)
            =~= fixture_requests(sources));
    } else {
        let d = sources.drop_last();
        assert(d.take(k) =~= sources.take(k));
        lemma_fixture_requests_prefix(d, k);
        let a = fixture_requests(d);
        let b = source_requests(sources.last());
        let n = fixture_requests(sources.take(k)).len() as int;
        assert((a + b).take(n) =~= a.take(n));
    }
}

impl CompilerState {
    fn compile_source(&mut self, source: &VanillaAuthoringSource) -> (r: Result<
        (),
        VanillaAuthoringError,
    >)
        requires
            old(self).wf(),
        ensures
            Self::stepped(
                *old(self),
                *final(self),
                r,
                source_requests(*source),
                source_lines(*source),
            ),
    {
        match source {
            VanillaAuthoringSource::Shape(shape) => self.compile_shape(shape),
            VanillaAuthoringSource::CubeBlock(block) => self.compile_cube_block(block),
            VanillaAuthoringSource::FaceBlock(block) => self.compile_face_block(block),
            VanillaAuthoringSource::RockFamily(family) => self.compile_rock_family(family),
            VanillaAuthoringSource::SoilGrassFamily(family) => self.compile_soil_grass_family(
                family,
            ),
        }
    }
}

/// Compiles a fixture set: every source, in order, makes its declaration
/// requests and writes its section of the canonical manifest. The first
/// request that repeats the kind and key of an earlier non-tag declaration is
/// refused with both sources; otherwise the profile holds every declaration
/// and the manifest, also as the single generated file.
pub fn compile_fixture_set(fixture_set: &VanillaAuthoringFixtureSet) -> (r: Result<
    CompiledVanillaProfile,
    VanillaAuthoringError,
>)
    ensures
        match ledger_outcome(Seq::empty(), fixture_requests(fixture_set.sources@)) {
            Err(dup) => r is Err && r->Err_0@ == dup,
            Ok(decls) => r is Ok && decl_models(r->Ok_0.declarations@) == decls
                && r->Ok_0.canonical_manifest_source@ == fixture_manifest(fixture_set.sources@)
                && r->Ok_0.profile_id@ == VANILLA_BLOCKTYPES_PROFILE_V1@
                && r->Ok_0.canonical_schema == CANONICAL_MANIFEST_SCHEMA
                && r->Ok_0.generated_files@.len() == 1
                && r->Ok_0.generated_files@[0].relative_path@ == "generated.content.manifest"@
                && r->Ok_0.generated_files@[0].contents@ == fixture_manifest(fixture_set.sources@),
        },
{
    let sources = &fixture_set.sources;
    let mut compiler = CompilerState::new();
    compiler.emit_line(decimal_line("schema = ", CANONICAL_MANIFEST_SCHEMA as u64).as_str());
    compiler.emit_line("# generated_from_profile = \"freven.vanilla:blocktypes_v1\"");
    compiler.emit_line("# generated output is canonical content graph, not authoring source");
    compiler.emit_line("");
    let ghost empty = Seq::<DeclarationModel>::empty();
    let ghost all = fixture_requests(sources@);
    proof {
        assert(compiler.lines@ =~= manifest_header_lines());
        assert(sources@.take(0) =~= Seq::<VanillaAuthoringSource>::empty());
        assert(empty + fixture_requests(sources@.take(0)) =~= empty);
        assert(decl_models(compiler.declarations@) =~= empty);
    }
    let mut i: usize = 0;
    while i < sources.len()
        invariant
            0 <= i <= sources@.len(),
            sources@ == fixture_set.sources@,
            compiler.wf(),
            all == fixture_requests(sources@),
            first_rejection(empty) is None,
            empty == Seq::<DeclarationModel>::empty(),
            compiler.lines@ == manifest_header_lines() + sources_lines(sources@.take(i as int)),
            ledger_outcome(empty, fixture_requests(sources@.take(i as int))) == Ok::<
                Seq<DeclarationModel>,
                crate::authoring::DuplicateModel,
            >(decl_models(compiler.declarations@)),
        decreases sources.len() - i,
    {
        let ghost prefix = fixture_requests(sources@.take(i as int));
        let ghost before_lines = compiler.lines@;
        proof {
            assert(sources@.take(i + 1).drop_last() =~= sources@.take(i as int));
            assert(sources@.take(i + 1).last() == sources@[i as int]);
            lemma_ledger_outcome_concat(empty, prefix, source_requests(sources@[i as int]));
        }
        let r = compiler.compile_source(&sources[i]);
        if let Err(e) = r {
            proof {
                lemma_fixture_requests_prefix(sources@, i + 1);
                lemma_outcome_prefix(
                    empty,
                    all,
                    fixture_requests(sources@.take(i + 1)).len() as int,
                );
            }
            return Err(e);
        }
        proof {
            assert(compiler.lines@ =~= manifest_header_lines() + sources_lines(
                sources@.take(i + 1),
            ));
        }
        i = i + 1;
    }
    proof {
        assert(sources@.take(sources@.len() as int) =~= sources@);
    }
    let manifest = compiler.manifest;
    let mut generated_files: Vec<GeneratedFile> = Vec::new();
    generated_files.push(
        GeneratedFile {
            relative_path: string_of("generated.content.manifest"),
            contents: manifest.clone(),
        },
    );
    Ok(
        CompiledVanillaProfile {
            profile_id: VANILLA_BLOCKTYPES_PROFILE_V1,
            canonical_schema: CANONICAL_MANIFEST_SCHEMA,
            declarations: compiler.declarations,
            canonical_manifest_source: manifest,
            generated_files,
        },
    )
}

} // verus!
