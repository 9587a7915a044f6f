//! Authoring documents of the `freven.vanilla:blocktypes_v1` source tree, as
//! read from its TOML files. Coordinates of shape boxes and elements are held
//! as their canonical decimal text; whether a box axis lies in the unit cube
//! is decided where the coordinates are read.

use vstd::prelude::*;

verus! {

/// Profile and kind that every block-type source declares.
#[derive(Debug, Clone)]
pub struct SourceHeader {
    pub profile: String,
    pub kind: String,
}

/// Which faces of a block shape a property holds for.
#[derive(Debug, Clone, Copy, PartialEq, Eq, Structural)]
pub struct ShapeSideMaskDoc {
    pub bottom: bool,
    pub top: bool,
    pub north: bool,
    pub south: bool,
    pub east: bool,
    pub west: bool,
}

impl ShapeSideMaskDoc {
    /// The mask with no face set.
    pub fn none() -> (mask: Self)
        ensures
            mask == (ShapeSideMaskDoc {
                bottom: false,
                top: false,
                north: false,
                south: false,
                east: false,
                west: false,
            }),
    {
        ShapeSideMaskDoc {
            bottom: false,
            top: false,
            north: false,
            south: false,
            east: false,
            west: false,
        }
    }
}

/// Three coordinates, each as its canonical decimal text.
#[derive(Debug, Clone)]
pub struct Vec3Text {
    pub x: String,
    pub y: String,
    pub z: String,
}

/// Four coordinates, each as its canonical decimal text.
#[derive(Debug, Clone)]
pub struct Vec4Text {
    pub x: String,
    pub y: String,
    pub z: String,
    pub w: String,
}

/// An axis-aligned box of a shape, in block units.
#[derive(Debug, Clone)]
pub struct ShapeBoxDoc {
    pub min: Vec3Text,
    pub max: Vec3Text,
    /// Per axis: both ends are finite and `0.0 <= min < max <= 1.0`.
    pub axis_in_unit_range: [bool; 3],
}

#[derive(Debug, Clone)]
pub struct ShapeFaceDoc {
    pub material: String,
    pub overlay: Option<bool>,
    pub cull: Option<bool>,
    pub uv: Option<Vec4Text>,
}

/// A named face of a shape element.
#[derive(Debug, Clone)]
pub struct ShapeFaceEntry {
    pub name: String,
    pub face: ShapeFaceDoc,
}

#[derive(Debug, Clone)]
pub struct ShapeElementDoc {
    pub name: String,
    pub from: Vec3Text,
    pub to: Vec3Text,
    pub overlay: bool,
    pub cull: Option<bool>,
    /// Faces in ascending order of name.
    pub faces: Vec<ShapeFaceEntry>,
}

#[derive(Debug, Clone)]
pub struct ShapeDoc {
    pub profile: String,
    pub kind: String,
    pub code: String,
    pub material_slots: Vec<String>,
    pub occludes: ShapeSideMaskDoc,
    pub side_solid: ShapeSideMaskDoc,
    pub collision_boxes: Vec<ShapeBoxDoc>,
    pub selection_boxes: Vec<ShapeBoxDoc>,
    pub elements: Vec<ShapeElementDoc>,
}

#[derive(Debug, Clone)]
pub struct MaterialLightingDoc {
    pub lighting_model: String,
    pub emissive_rgba: Option<u32>,
    pub emissive_strength_milli: u16,
    pub emits_light: bool,
    pub light_color_rgba: u32,
    pub light_intensity_u8: u8,
    pub light_opacity_u8: u8,
    pub light_transmission_u8: u8,
    pub authority: String,
}

#[derive(Debug, Clone)]
pub struct CubeBlockDoc {
    pub profile: String,
    pub kind: String,
    pub code: String,
    pub shape: String,
    pub texture: String,
    pub fallback_debug_tint_rgba: u32,
    pub render_layer: String,
    pub alpha_cutoff_u8: Option<u8>,
    pub tags: Vec<String>,
    pub lighting: Option<MaterialLightingDoc>,
}

#[derive(Debug, Clone)]
pub struct FaceMaterialSlotDoc {
    pub slot: String,
    pub code: String,
    pub texture: String,
    pub fallback_debug_tint_rgba: u32,
    pub render_layer: String,
    pub alpha_cutoff_u8: Option<u8>,
}

#[derive(Debug, Clone)]
pub struct FaceBlockDoc {
    pub profile: String,
    pub kind: String,
    pub code: String,
    pub shape: String,
    pub tags: Vec<String>,
    pub material_slots: Vec<FaceMaterialSlotDoc>,
}

#[derive(Debug, Clone)]
pub struct TemplateMaterial {
    pub key: String,
    pub texture: String,
    pub fallback_debug_tint_rgba: String,
    pub render_layer: String,
}

#[derive(Debug, Clone)]
pub struct TemplateVisual {
    pub key: String,
    pub target: String,
    pub shape: String,
    pub material: String,
}

#[derive(Debug, Clone)]
pub struct RockTemplates {
    pub material: TemplateMaterial,
    pub visual: TemplateVisual,
}

#[derive(Debug, Clone)]
pub struct VariantFamilyDoc {
    pub profile: String,
    pub kind: String,
    pub code: String,
    pub variant_group: String,
    pub tags: Vec<String>,
    pub templates: RockTemplates,
}

#[derive(Debug, Clone)]
pub struct TopsoilTemplates {
    pub material: TemplateMaterial,
}

#[derive(Debug, Clone)]
pub struct TopsoilCoverageVisual {
    pub visual: String,
    pub shape: String,
    pub material: Option<String>,
    pub bottom: Option<String>,
    pub side: Option<String>,
    pub top: Option<String>,
}

/// The `[coverage.<id>]` section of a topsoil family.
#[derive(Debug, Clone)]
pub struct TopsoilCoverageEntry {
    pub id: String,
    pub visual: TopsoilCoverageVisual,
}

#[derive(Debug, Clone)]
pub struct TopsoilFamilyDoc {
    pub profile: String,
    pub kind: String,
    pub code: String,
    pub fertility_group: String,
    pub coverage_group: String,
    pub tags: Vec<String>,
    pub templates: TopsoilTemplates,
    /// Coverage sections in ascending order of id, each id once.
    pub coverage: Vec<TopsoilCoverageEntry>,
}

#[derive(Debug, Clone)]
pub struct WorldPropertyVariant {
    pub id: String,
    pub display: String,
    pub fallback_tint_rgba: Option<String>,
    pub rock_group: Option<String>,
    pub top_fallback_tint_rgba: Option<String>,
    pub side_fallback_tint_rgba: Option<String>,
}

#[derive(Debug, Clone)]
pub struct WorldPropertyDoc {
    pub profile: String,
    pub kind: String,
    pub code: String,
    pub variants: Vec<WorldPropertyVariant>,
}

/// A document read from the source tree, with its path relative to the
/// content pack (`content/...`) and its path on disk.
#[derive(Debug, Clone)]
pub struct Loaded<T> {
    pub rel: String,
    pub path: String,
    pub doc: T,
}

/// A block-type source, parsed as the document its header kind names.
#[derive(Debug, Clone)]
pub enum BlockDoc {
    Cube(CubeBlockDoc),
    Face(FaceBlockDoc),
    VariantFamily(VariantFamilyDoc),
    TopsoilFamily(TopsoilFamilyDoc),
    /// A kind this profile does not compile.
    Unsupported(String),
}

} // verus!
