//! Sections of the canonical content files, written line by line.

use vstd::prelude::*;
use super::docs::{
    MaterialLightingDoc, ShapeBoxDoc, ShapeDoc, ShapeSideMaskDoc, TemplateMaterial, Vec3Text,
    Vec4Text,
};
use crate::text::{
    bool_line, bool_text, concat3, concat5, decimal, decimal_line, joined, push_quoted_strings,
    quoted_line, quoted_line_string, quoted_list, str_eq, string_of, LineBuffer,
};
use vstd::string::StringExecFns;

verus! {

/// Three coordinates as `[x, y, z]`.
pub open spec fn vec3_text(v: Vec3Text) -> Seq<char> {
    "["@ + v.x@ + ", "@ + v.y@ + ", "@ + v.z@ + "]"@
}

/// Four coordinates as `[x, y, z, w]`.
pub open spec fn vec4_text(v: Vec4Text) -> Seq<char> {
    "["@ + v.x@ + ", "@ + v.y@ + ", "@ + v.z@ + ", "@ + v.w@ + "]"@
}

pub fn vec3_string(v: &Vec3Text) -> (s: String)
    ensures
        s@ == vec3_text(*v),
{
    let mut s = concat5("[", v.x.as_str(), ", ", v.y.as_str(), ", ");
    s.append(v.z.as_str());
    s.append("]");
    s
}

pub fn vec4_string(v: &Vec4Text) -> (s: String)
    ensures
        s@ == vec4_text(*v),
{
    let mut s = concat5("[", v.x.as_str(), ", ", v.y.as_str(), ", ");
    s.append(v.z.as_str());
    s.append(", ");
    s.append(v.w.as_str());
    s.append("]");
    s
}

/// The line `prefix["a", "b", ...]` of quoted items.
pub open spec fn quoted_items_line(prefix: Seq<char>, items: Seq<Seq<char>>) -> Seq<char> {
    prefix + "["@ + quoted_list(items) + "]"@
}

pub fn quoted_items_string(prefix: &str, items: &Vec<String>) -> (s: String)
    ensures
        s@ == quoted_items_line(prefix@, items@.map_values(|s: String| s@)),
{
    let mut s = joined(prefix, "[");
    push_quoted_strings(&mut s, items);
    s.append("]");
    s
}

/// The `[table]` of a side mask, one line per face.
pub open spec fn side_mask_lines(table: Seq<char>, mask: ShapeSideMaskDoc) -> Seq<Seq<char>> {
    seq![
        "["@ + table + "]"@,
        "bottom = "@ + bool_text(mask.bottom),
        "top = "@ + bool_text(mask.top),
        "north = "@ + bool_text(mask.north),
        "south = "@ + bool_text(mask.south),
        "east = "@ + bool_text(mask.east),
        "west = "@ + bool_text(mask.west),
    ]
}

pub fn emit_side_mask(out: &mut LineBuffer, table: &str, mask: ShapeSideMaskDoc)
    requires
        old(out).wf(),
    ensures
        final(out).wf(),
        final(out).lines() == old(out).lines() + side_mask_lines(table@, mask),
{
    out.push(concat3("[", table, "]").as_str());
    out.push(bool_line("bottom = ", mask.bottom).as_str());
    out.push(bool_line("top = ", mask.top).as_str());
    out.push(bool_line("north = ", mask.north).as_str());
    out.push(bool_line("south = ", mask.south).as_str());
    out.push(bool_line("east = ", mask.east).as_str());
    out.push(bool_line("west = ", mask.west).as_str());
    assert(out.lines() =~= old(out).lines() + side_mask_lines(table@, mask));
}

/// A `[[table]]` of boxes, one per box.
pub open spec fn boxes_lines(table: Seq<char>, boxes: Seq<ShapeBoxDoc>) -> Seq<Seq<char>>
    decreases boxes.len(),
{
    if boxes.len() == 0 {
        Seq::empty()
    } else {
        boxes_lines(table, boxes.drop_last()) + seq![
            ""@,
            table,
            "min = "@ + vec3_text(boxes.last().min),
            "max = "@ + vec3_text(boxes.last().max),
        ]
    }
}

fn emit_boxes(out: &mut LineBuffer, table: &str, boxes: &Vec<ShapeBoxDoc>)
    requires
        old(out).wf(),
    ensures
        final(out).wf(),
        final(out).lines() == old(out).lines() + boxes_lines(table@, boxes@),
{
    let mut i: usize = 0;
    assert(boxes@.take(0) =~= Seq::<ShapeBoxDoc>::empty());
    assert(out.lines() =~= old(out).lines() + boxes_lines(table@, boxes@.take(0)));
    while i < boxes.len()
        invariant
            0 <= i <= boxes@.len(),
            out.wf(),
            out.lines() == old(out).lines() + boxes_lines(table@, boxes@.take(i as int)),
        decreases boxes.len() - i,
    {
        let b = &boxes[i];
        out.push("");
        out.push(table);
        out.push(joined("min = ", vec3_string(&b.min).as_str()).as_str());
        out.push(joined("max = ", vec3_string(&b.max).as_str()).as_str());
        assert(boxes@.take(i + 1).drop_last() =~= boxes@.take(i as int));
        assert(out.lines() =~= old(out).lines() + boxes_lines(table@, boxes@.take(i + 1)));
        i = i + 1;
    }
    assert(boxes@.take(boxes@.len() as int) =~= boxes@);
}

/// The `[[block_shapes]]` section of a block: its target, occlusion and solid
/// sides, and collision and selection boxes.
pub open spec fn block_shape_lines(
    target: Seq<char>,
    shape: ShapeDoc,
    occludes: ShapeSideMaskDoc,
) -> Seq<Seq<char>> {
    seq![""@, "[[block_shapes]]"@, quoted_line("target = "@, target), ""@] + side_mask_lines(
        "block_shapes.occludes"@,
        occludes,
    ) + seq![""@] + side_mask_lines("block_shapes.side_solid"@, shape.side_solid) + boxes_lines(
        "[[block_shapes.collision_boxes]]"@,
        shape.collision_boxes@,
    ) + boxes_lines("[[block_shapes.selection_boxes]]"@, shape.selection_boxes@) + seq![""@]
}

pub fn emit_block_shape(
    out: &mut LineBuffer,
    target: &str,
    shape: &ShapeDoc,
    occludes: ShapeSideMaskDoc,
)
    requires
        old(out).wf(),
    ensures
        final(out).wf(),
        final(out).lines() == old(out).lines() + block_shape_lines(target@, *shape, occludes),
{
    out.push("");
    out.push("[[block_shapes]]");
    out.push(quoted_line_string("target = ", target).as_str());
    out.push("");
    emit_side_mask(out, "block_shapes.occludes", occludes);
    out.push("");
    emit_side_mask(out, "block_shapes.side_solid", shape.side_solid);
    emit_boxes(out, "[[block_shapes.collision_boxes]]", &shape.collision_boxes);
    emit_boxes(out, "[[block_shapes.selection_boxes]]", &shape.selection_boxes);
    out.push("");
    assert(out.lines() =~= old(out).lines() + block_shape_lines(target@, *shape, occludes));
}

/// Lines that state a material's render layer; an unknown layer is noted and
/// left opaque.
pub open spec fn render_layer_text_lines(layer: Seq<char>, alpha_cutoff_u8: Option<u8>) -> Seq<
    Seq<char>,
> {
    if layer == "opaque"@ {
        Seq::empty()
    } else if layer == "transparent"@ {
        seq!["render_layer = \"transparent\""@]
    } else if layer == "cutout"@ {
        seq!["render_layer = \"cutout\""@] + match alpha_cutoff_u8 {
            Some(a) => seq!["alpha_cutoff_u8 = "@ + decimal(a as nat)],
            None => Seq::empty(),
        }
    } else {
        seq!["# unsupported render_layer '"@ + layer + "' preserved as opaque by compiler"@]
    }
}

pub fn emit_render_layer(out: &mut LineBuffer, layer: &str, alpha_cutoff_u8: Option<u8>)
    requires
        old(out).wf(),
    ensures
        final(out).wf(),
        final(out).lines() == old(out).lines() + render_layer_text_lines(layer@, alpha_cutoff_u8),
{
    if str_eq(layer, "opaque") {
    } else if str_eq(layer, "transparent") {
        out.push("render_layer = \"transparent\"");
    } else if str_eq(layer, "cutout") {
        out.push("render_layer = \"cutout\"");
        if let Some(alpha) = alpha_cutoff_u8 {
            out.push(decimal_line("alpha_cutoff_u8 = ", alpha as u64).as_str());
        }
    } else {
        out.push(
            concat3(
                "# unsupported render_layer '",
                layer,
                "' preserved as opaque by compiler",
            ).as_str(),
        );
    }
    assert(out.lines() =~= old(out).lines() + render_layer_text_lines(layer@, alpha_cutoff_u8));
}

/// The `[materials.lighting]` table of a material, when it has one.
pub open spec fn lighting_lines(lighting: Option<MaterialLightingDoc>) -> Seq<Seq<char>> {
    match lighting {
        None => Seq::empty(),
        Some(l) => seq![
            ""@,
            "[materials.lighting]"@,
            quoted_line("lighting_model = "@, l.lighting_model@),
        ] + match l.emissive_rgba {
            Some(e) => seq!["emissive_rgba = "@ + decimal(e as nat)],
            None => Seq::empty(),
        } + seq![
            "emissive_strength_milli = "@ + decimal(l.emissive_strength_milli as nat),
            "emits_light = "@ + bool_text(l.emits_light),
            "light_color_rgba = "@ + decimal(l.light_color_rgba as nat),
            "light_intensity_u8 = "@ + decimal(l.light_intensity_u8 as nat),
            "light_opacity_u8 = "@ + decimal(l.light_opacity_u8 as nat),
            "light_transmission_u8 = "@ + decimal(l.light_transmission_u8 as nat),
            quoted_line("authority = "@, l.authority@),
        ],
    }
}

pub fn emit_material_lighting(out: &mut LineBuffer, lighting: Option<&MaterialLightingDoc>)
    requires
        old(out).wf(),
    ensures
        final(out).wf(),
        final(out).lines() == old(out).lines() + lighting_lines(
            match lighting {
                Some(l) => Some(*l),
                None => None,
            },
        ),
{
    let Some(l) = lighting else {
        assert(out.lines() =~= old(out).lines() + Seq::<Seq<char>>::empty());
        return ;
    };
    out.push("");
    out.push("[materials.lighting]");
    out.push(quoted_line_string("lighting_model = ", l.lighting_model.as_str()).as_str());
    let ghost mid = out.lines();
    if let Some(emissive_rgba) = l.emissive_rgba {
        out.push(decimal_line("emissive_rgba = ", emissive_rgba as u64).as_str());
    }
    out.push(
        decimal_line("emissive_strength_milli = ", l.emissive_strength_milli as u64).as_str(),
    );
    out.push(bool_line("emits_light = ", l.emits_light).as_str());
    out.push(decimal_line("light_color_rgba = ", l.light_color_rgba as u64).as_str());
    out.push(decimal_line("light_intensity_u8 = ", l.light_intensity_u8 as u64).as_str());
    out.push(decimal_line("light_opacity_u8 = ", l.light_opacity_u8 as u64).as_str());
    out.push(decimal_line("light_transmission_u8 = ", l.light_transmission_u8 as u64).as_str());
    out.push(quoted_line_string("authority = ", l.authority.as_str()).as_str());
    assert(out.lines() =~= old(out).lines() + lighting_lines(Some(*l)));
}

/// The `[families.templates.material]` table of a family.
pub open spec fn template_material_lines(m: TemplateMaterial) -> Seq<Seq<char>> {
    seq![
        "[families.templates.material]"@,
        quoted_line("key = "@, m.key@),
        quoted_line("texture = "@, m.texture@),
        quoted_line("fallback_debug_tint_rgba = "@, m.fallback_debug_tint_rgba@),
        quoted_line("render_layer = "@, m.render_layer@),
    ]
}

pub fn emit_template_material(out: &mut LineBuffer, m: &TemplateMaterial)
    requires
        old(out).wf(),
    ensures
        final(out).wf(),
        final(out).lines() == old(out).lines() + template_material_lines(*m),
{
    out.push("[families.templates.material]");
    out.push(quoted_line_string("key = ", m.key.as_str()).as_str());
    out.push(quoted_line_string("texture = ", m.texture.as_str()).as_str());
    out.push(
        quoted_line_string("fallback_debug_tint_rgba = ", m.fallback_debug_tint_rgba.as_str()).as_str(),
    );
    out.push(quoted_line_string("render_layer = ", m.render_layer.as_str()).as_str());
    assert(out.lines() =~= old(out).lines() + template_material_lines(*m));
}

/// The grass surface-material template of one face of a covered soil.
pub open spec fn topsoil_surface_lines(coverage: Seq<char>, face: Seq<char>) -> Seq<Seq<char>> {
    crate::authoring::fixture_compiler::soil_surface_lines(coverage, face)
}

pub fn emit_topsoil_surface_material_template(out: &mut LineBuffer, coverage: &str, face: &str)
    requires
        old(out).wf(),
    ensures
        final(out).wf(),
        final(out).lines() == old(out).lines() + topsoil_surface_lines(coverage@, face@),
{
    out.push(concat3("[families.templates.variants.materials.", face, "]").as_str());
    out.push(concat5("key = \"block/soil_{fertility}_", coverage, "_", face, "\"").as_str());
    out.push("texture = \"textures/soil_{fertility}\"");
    out.push("fallback_debug_tint_rgba = \"{fertility.fallback_tint_rgba}\"");
    out.push("render_layer = \"opaque\"");
    out.push("");
    out.push(concat3("[[families.templates.variants.materials.", face, ".surface_layers]]").as_str());
    out.push("name = \"grass_overlay\"");
    out.push(concat5("texture = \"textures/grass_", coverage, "_", face, "\"").as_str());
    out.push("blend = \"alpha_over\"");
    out.push("tint_sampling = \"world_xz\"");
    out.push("");
    out.push(
        concat3("[families.templates.variants.materials.", face, ".surface_layers.tint]").as_str(),
    );
    out.push("source = \"freven.core:tint/color_map_2d_v1\"");
    out.push("color_map_texture = \"textures/tint/grass_tint\"");
    out.push(concat3("fallback_tint_rgba = \"{coverage.", face, "_fallback_tint_rgba}\"").as_str());
    out.push("");
    assert(out.lines() =~= old(out).lines() + topsoil_surface_lines(coverage@, face@));
}

} // verus!
