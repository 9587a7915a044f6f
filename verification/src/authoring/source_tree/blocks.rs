//! Block-type sources: cube blocks and per-face blocks.

use vstd::prelude::*;
use super::{
    compiled, concat_map, declare_all, failure_of, lemma_compiled_chain,
    lemma_compiled_fail_prefix, lemma_compiled_nothing, lemma_concat_map_take_step,
    lemma_concat_map_whole, CompileEvent, SourceTreeCompileError, SourceTreeCompiler,
};
use super::docs::{CubeBlockDoc, FaceBlockDoc, FaceMaterialSlotDoc, ShapeDoc, ShapeSideMaskDoc};
use super::emit::{
    block_shape_lines, emit_block_shape, emit_material_lighting, emit_render_layer,
    lighting_lines, render_layer_text_lines, side_mask_lines,
};
use super::models::emit_canonical_header;
use super::paths::{model_key_for_ref, model_key_for_shape_ref};
use crate::authoring::{decl, AuthoringSourceKind, DeclarationModel, GeneratedDeclarationKind};
use crate::authoring::fixture_compiler::{manifest_header_lines, material_key, visual_key};
use crate::text::{
    bool_text, decimal, decimal_line, join_lines, joined, quoted_line, quoted_line_string, str_eq, string_of,
    LineBuffer,
};

verus! {

/// The key of a Vanilla block.
pub open spec fn block_key(code: Seq<char>) -> Seq<char> {
    "freven.vanilla:"@ + code
}

/// One block-tag request per tag, in order.
pub open spec fn tag_requests(tags: Seq<String>, rel: Seq<char>, field: Seq<char>) -> Seq<
    DeclarationModel,
> {
    tags.map_values(
        |t: String|
            decl(GeneratedDeclarationKind::BlockTag, t@, rel, AuthoringSourceKind::Blocktype, field),
    )
}

/// A block-type request from `rel`.
pub open spec fn block_request(
    kind: GeneratedDeclarationKind,
    key: Seq<char>,
    rel: Seq<char>,
    field: Seq<char>,
) -> DeclarationModel {
    decl(kind, key, rel, AuthoringSourceKind::Blocktype, field)
}

/// A transparent block occludes no face; other blocks occlude as their shape does.
pub open spec fn occludes_for_layer(shape_occludes: ShapeSideMaskDoc, render_layer: Seq<char>) -> ShapeSideMaskDoc {
    if render_layer == "transparent"@ {
        ShapeSideMaskDoc {
            bottom: false,
            top: false,
            north: false,
            south: false,
            east: false,
            west: false,
        }
    } else {
        shape_occludes
    }
}

pub fn occludes_for_render_layer(shape_occludes: ShapeSideMaskDoc, render_layer: &str) -> (mask: ShapeSideMaskDoc)
    ensures
        mask == occludes_for_layer(shape_occludes, render_layer@),
        mask.bottom == (render_layer@ != "transparent"@ && shape_occludes.bottom),
        mask.top == (render_layer@ != "transparent"@ && shape_occludes.top),
        mask.north == (render_layer@ != "transparent"@ && shape_occludes.north),
        mask.south == (render_layer@ != "transparent"@ && shape_occludes.south),
        mask.east == (render_layer@ != "transparent"@ && shape_occludes.east),
        mask.west == (render_layer@ != "transparent"@ && shape_occludes.west),
{
    if str_eq(render_layer, "transparent") {
        ShapeSideMaskDoc::none()
    } else {
        shape_occludes
    }
}

/// A transparent block occludes no face, and a block in any other render
/// layer occludes exactly the faces its shape occludes.
pub proof fn lemma_transparent_blocks_occlude_no_face(shape_occludes: ShapeSideMaskDoc, render_layer: Seq<char>)
    ensures
        render_layer == "transparent"@ ==> {
            let m = occludes_for_layer(shape_occludes, render_layer);
            !m.bottom && !m.top && !m.north && !m.south && !m.east && !m.west
        },
        render_layer != "transparent"@ ==> occludes_for_layer(shape_occludes, render_layer)
            == shape_occludes,
{
}

/// The compiled file of a cube block lists, in its `[block_shapes.occludes]`
/// table, each face as occluded exactly when the block is not transparent
/// and its shape occludes that face.
pub proof fn lemma_cube_block_occlusion_table(block: CubeBlockDoc, shape: ShapeDoc)
    ensures
        ({
            let lines = cube_block_lines(block, shape);
            let k = (manifest_header_lines() + cube_material_lines(block) + cube_visual_lines(block)).len() as int + 4;
            let opaque_to_neighbours = block.render_layer@ != "transparent"@;
            &&& k + 6 < lines.len()
            &&& lines[k] == "["@ + "block_shapes.occludes"@ + "]"@
            &&& lines[k + 1] == "bottom = "@ + bool_text(opaque_to_neighbours && shape.occludes.bottom)
            &&& lines[k + 2] == "top = "@ + bool_text(opaque_to_neighbours && shape.occludes.top)
            &&& lines[k + 3] == "north = "@ + bool_text(opaque_to_neighbours && shape.occludes.north)
            &&& lines[k + 4] == "south = "@ + bool_text(opaque_to_neighbours && shape.occludes.south)
            &&& lines[k + 5] == "east = "@ + bool_text(opaque_to_neighbours && shape.occludes.east)
            &&& lines[k + 6] == "west = "@ + bool_text(opaque_to_neighbours && shape.occludes.west)
        }),
{
    let prefix = manifest_header_lines() + cube_material_lines(block) + cube_visual_lines(block);
    let mask = occludes_for_layer(shape.occludes, block.render_layer@);
    let shape_lines = block_shape_lines(block_key(block.code@), shape, mask);
    assert(cube_block_lines(block, shape) == prefix + shape_lines);
    let k = prefix.len() as int + 4;
    let lines = prefix + shape_lines;
    assert forall|i: int| 0 <= i < 7 implies lines[k + i] == side_mask_lines("block_shapes.occludes"@, mask)[i] by {
        assert(lines[k + i] == shape_lines[4 + i]);
    }
}

/// What a cube block declares: its material, visual and shape, then its tags.
pub open spec fn cube_block_requests(rel: Seq<char>, block: CubeBlockDoc) -> Seq<DeclarationModel> {
    seq![
        block_request(GeneratedDeclarationKind::Material, material_key(block.code@), rel, "blocktype"@),
        block_request(GeneratedDeclarationKind::BlockVisual, visual_key(block.code@), rel, "blocktype"@),
        block_request(GeneratedDeclarationKind::BlockShape, block_key(block.code@), rel, "shape"@),
    ] + tag_requests(block.tags@, rel, "tags"@)
}

/// The `[[materials]]` table of a cube block.
pub open spec fn cube_material_lines(block: CubeBlockDoc) -> Seq<Seq<char>> {
    seq![
        "[[materials]]"@,
        quoted_line("key = "@, material_key(block.code@)),
        quoted_line("texture = "@, block.texture@),
        "fallback_debug_tint_rgba = "@ + decimal(block.fallback_debug_tint_rgba as nat),
    ] + render_layer_text_lines(block.render_layer@, block.alpha_cutoff_u8) + lighting_lines(
        block.lighting,
    ) + seq![""@, ""@]
}

/// The `[[block_visuals]]` table of a cube block: every face shows its material.
pub open spec fn cube_visual_lines(block: CubeBlockDoc) -> Seq<Seq<char>> {
    seq![
        "[[block_visuals]]"@,
        quoted_line("key = "@, visual_key(block.code@)),
        quoted_line("target = "@, block_key(block.code@)),
        quoted_line("model = "@, model_key_for_ref(block.shape@)),
        ""@,
        "[block_visuals.materials]"@,
        quoted_line("all = "@, material_key(block.code@)),
    ]
}

/// The lines of a cube block's file: its material, its visual and its block shape.
pub open spec fn cube_block_lines(block: CubeBlockDoc, shape: ShapeDoc) -> Seq<Seq<char>> {
    manifest_header_lines() + cube_material_lines(block) + cube_visual_lines(block)
        + block_shape_lines(
        block_key(block.code@),
        shape,
        occludes_for_layer(shape.occludes, block.render_layer@),
    )
}

/// The file of a cube block.
pub open spec fn cube_block_text(block: CubeBlockDoc, shape: ShapeDoc) -> Seq<char> {
    join_lines(cube_block_lines(block, shape))
}

/// What a per-face block declares: its visual and shape, its tags, the grass
/// compatibility material (for `grass` only), then one material per slot.
pub open spec fn face_block_requests(rel: Seq<char>, block: FaceBlockDoc) -> Seq<DeclarationModel> {
    seq![
        block_request(GeneratedDeclarationKind::BlockVisual, visual_key(block.code@), rel, "visual"@),
        block_request(GeneratedDeclarationKind::BlockShape, block_key(block.code@), rel, "shape"@),
    ] + tag_requests(block.tags@, rel, "tags"@) + (if block.code@ == "grass"@ {
        seq![
            block_request(
                GeneratedDeclarationKind::Material,
                "freven.vanilla:block/grass"@,
                rel,
                "materials.compatibility"@,
            ),
        ]
    } else {
        Seq::empty()
    }) + slot_material_requests(block.material_slots@, rel)
}

/// One material request per face slot, in order.
pub open spec fn slot_material_requests(slots: Seq<FaceMaterialSlotDoc>, rel: Seq<char>) -> Seq<
    DeclarationModel,
> {
    slots.map_values(
        |slot: FaceMaterialSlotDoc|
            block_request(
                GeneratedDeclarationKind::Material,
                material_key(slot.code@),
                rel,
                "materials"@,
            ),
    )
}

/// The stable `freven.vanilla:block/grass` material kept for existing references.
pub open spec fn grass_compatibility_lines() -> Seq<Seq<char>> {
    seq![
        "[[materials]]"@,
        "key = \"freven.vanilla:block/grass\""@,
        "texture = \"freven.vanilla:textures/grass\""@,
        "fallback_debug_tint_rgba = 1067666943"@,
        "# generated_from = \"content/blocktypes/grass.toml\""@,
        "# grass compatibility material key"@,
        ""@,
    ]
}

pub open spec fn slot_material_lines(slot: FaceMaterialSlotDoc) -> Seq<Seq<char>> {
    seq![
        "[[materials]]"@,
        quoted_line("key = "@, material_key(slot.code@)),
        quoted_line("texture = "@, slot.texture@),
        "fallback_debug_tint_rgba = "@ + decimal(slot.fallback_debug_tint_rgba as nat),
    ] + render_layer_text_lines(slot.render_layer@, slot.alpha_cutoff_u8) + seq![""@, ""@]
}

pub open spec fn slot_material_lines_fn() -> spec_fn(FaceMaterialSlotDoc) -> Seq<Seq<char>> {
    |slot: FaceMaterialSlotDoc| slot_material_lines(slot)
}

pub open spec fn slot_binding_lines_fn() -> spec_fn(FaceMaterialSlotDoc) -> Seq<Seq<char>> {
    |slot: FaceMaterialSlotDoc| seq![quoted_line(slot.slot@ + " = "@, material_key(slot.code@))]
}

/// The visual of a per-face block, binding each slot to its material.
pub open spec fn face_visual_lines(block: FaceBlockDoc) -> Seq<Seq<char>> {
    seq![
        "[[block_visuals]]"@,
        quoted_line("key = "@, visual_key(block.code@)),
        quoted_line("target = "@, block_key(block.code@)),
        quoted_line("model = "@, model_key_for_ref(block.shape@)),
        ""@,
        "[block_visuals.materials]"@,
    ] + concat_map(block.material_slots@, slot_binding_lines_fn())
}

/// The lines of a per-face block's file: its materials, its visual and its
/// block shape.
pub open spec fn face_block_lines(block: FaceBlockDoc, shape: ShapeDoc) -> Seq<Seq<char>> {
    manifest_header_lines() + (if block.code@ == "grass"@ {
        grass_compatibility_lines()
    } else {
        Seq::empty()
    }) + concat_map(block.material_slots@, slot_material_lines_fn()) + face_visual_lines(block)
        + block_shape_lines(block_key(block.code@), shape, shape.occludes)
}

/// The file of a per-face block.
pub open spec fn face_block_text(block: FaceBlockDoc, shape: ShapeDoc) -> Seq<char> {
    join_lines(face_block_lines(block, shape))
}

impl SourceTreeCompiler {
    /// Declares one block tag per entry of `tags`.
    pub(crate) fn declare_tags(&mut self, tags: &Vec<String>, rel: &str, field: &str) -> (r: Result<
        (),
        SourceTreeCompileError,
    >)
        requires
            old(self).wf(),
        ensures
            final(self).wf(),
            compiled(
                old(self)@,
                final(self)@,
                failure_of(r),
                declare_all(tag_requests(tags@, rel@, field@)),
            ),
            final(self)@.files == old(self)@.files,
            final(self)@.tags == old(self)@.tags,
    {
        let ghost all = declare_all(tag_requests(tags@, rel@, field@));
        let mut i: usize = 0;
        proof {
            assert(all.take(0) =~= Seq::<CompileEvent>::empty());
            lemma_compiled_nothing(old(self)@, self@);
        }
        while i < tags.len()
            invariant
                0 <= i <= tags@.len(),
                all == declare_all(tag_requests(tags@, rel@, field@)),
                all.len() == tags@.len(),
                self.wf(),
                self@.files == old(self)@.files,
                self@.tags == old(self)@.tags,
                compiled(old(self)@, self@, None, all.take(i as int)),
            decreases tags.len() - i,
        {
            let ghost mid = self@;
            let r = self.declare(
                GeneratedDeclarationKind::BlockTag,
                tags[i].clone(),
                rel,
                AuthoringSourceKind::Blocktype,
                field,
            );
            proof {
                assert(all.take(i + 1) =~= all.take(i as int) + seq![all[i as int]]);
                lemma_compiled_chain(old(self)@, mid, self@, failure_of(r), all.take(i as int), seq![all[i as int]]);
            }
            if let Err(e) = r {
                proof {
                    assert(all =~= all.take(i + 1) + all.skip(i + 1));
                    lemma_compiled_fail_prefix(old(self)@, self@, e@, all.take(i + 1), all.skip(i + 1));
                }
                return Err(e);
            }
            i = i + 1;
        }
        assert(all.take(tags@.len() as int) =~= all);
        Ok(())
    }

    fn declare_cube_block(&mut self, rel: &str, block: &CubeBlockDoc) -> (r: Result<
        (),
        SourceTreeCompileError,
    >)
        requires
            old(self).wf(),
        ensures
            final(self).wf(),
            compiled(
                old(self)@,
                final(self)@,
                failure_of(r),
                declare_all(cube_block_requests(rel@, *block)),
            ),
            final(self)@.files == old(self)@.files,
            final(self)@.tags == old(self)@.tags,
    {
        let mkey = joined("freven.vanilla:block/", block.code.as_str());
        let vkey = joined("freven.vanilla:visuals/block/", block.code.as_str());
        let bkey = joined("freven.vanilla:", block.code.as_str());
        let ghost e1 = seq![CompileEvent::Declare(block_request(GeneratedDeclarationKind::Material, mkey@, rel@, "blocktype"@))];
        let ghost e2 = seq![CompileEvent::Declare(block_request(GeneratedDeclarationKind::BlockVisual, vkey@, rel@, "blocktype"@))];
        let ghost e3 = seq![CompileEvent::Declare(block_request(GeneratedDeclarationKind::BlockShape, bkey@, rel@, "shape"@))];
        let ghost et = declare_all(tag_requests(block.tags@, rel@, "tags"@));
        let ghost s0 = self@;
        proof {
            assert(declare_all(cube_block_requests(rel@, *block)) =~= e1 + e2 + e3 + et);
        }
        let r = self.declare(GeneratedDeclarationKind::Material, mkey, rel, AuthoringSourceKind::Blocktype, "blocktype");
        if let Err(e) = r {
            proof { lemma_compiled_fail_prefix(s0, self@, e@, e1, e2 + e3 + et); assert(e1 + (e2 + e3 + et) =~= e1 + e2 + e3 + et); }
            return Err(e);
        }
        let ghost s1 = self@;
        let r = self.declare(GeneratedDeclarationKind::BlockVisual, vkey, rel, AuthoringSourceKind::Blocktype, "blocktype");
        proof { lemma_compiled_chain(s0, s1, self@, failure_of(r), e1, e2); }
        if let Err(e) = r {
            proof { lemma_compiled_fail_prefix(s0, self@, e@, e1 + e2, e3 + et); assert(e1 + e2 + (e3 + et) =~= e1 + e2 + e3 + et); }
            return Err(e);
        }
        let ghost s2 = self@;
        let r = self.declare(GeneratedDeclarationKind::BlockShape, bkey, rel, AuthoringSourceKind::Blocktype, "shape");
        proof { lemma_compiled_chain(s0, s2, self@, failure_of(r), e1 + e2, e3); }
        if let Err(e) = r {
            proof { lemma_compiled_fail_prefix(s0, self@, e@, e1 + e2 + e3, et); }
            return Err(e);
        }
        let ghost s3 = self@;
        let r = self.declare_tags(&block.tags, rel, "tags");
        proof { lemma_compiled_chain(s0, s3, self@, failure_of(r), e1 + e2 + e3, et); }
        r
    }

    /// Declares and writes a cube block.
    pub fn compile_cube_block(&mut self, rel: &str, block: &CubeBlockDoc, shape: &ShapeDoc) -> (r:
        Result<String, SourceTreeCompileError>)
        requires
            old(self).wf(),
        ensures
            final(self).wf(),
            compiled(
                old(self)@,
                final(self)@,
                failure_of(r),
                declare_all(cube_block_requests(rel@, *block)),
            ),
            final(self)@.files == old(self)@.files,
            final(self)@.tags == old(self)@.tags,
            r is Ok ==> r->Ok_0@ == cube_block_text(*block, *shape),
    {
        self.declare_cube_block(rel, block)?;
        Ok(render_cube_block(block, shape))
    }
}

fn emit_cube_material(out: &mut LineBuffer, block: &CubeBlockDoc)
    requires
        old(out).wf(),
    ensures
        final(out).wf(),
        final(out).lines() == old(out).lines() + cube_material_lines(*block),
{
    let mkey = joined("freven.vanilla:block/", block.code.as_str());
    out.push("[[materials]]");
    out.push(quoted_line_string("key = ", mkey.as_str()).as_str());
    out.push(quoted_line_string("texture = ", block.texture.as_str()).as_str());
    out.push(decimal_line("fallback_debug_tint_rgba = ", block.fallback_debug_tint_rgba as u64).as_str());
    emit_render_layer(out, block.render_layer.as_str(), block.alpha_cutoff_u8);
    let lighting = block.lighting.as_ref();
    assert(match lighting { Some(l) => Some(*l), None => None } == block.lighting);
    emit_material_lighting(out, lighting);
    out.push("");
    out.push("");
    assert(out.lines() =~= old(out).lines() + cube_material_lines(*block));
}

fn emit_cube_visual(out: &mut LineBuffer, block: &CubeBlockDoc)
    requires
        old(out).wf(),
    ensures
        final(out).wf(),
        final(out).lines() == old(out).lines() + cube_visual_lines(*block),
{
    out.push("[[block_visuals]]");
    out.push(quoted_line_string("key = ", joined("freven.vanilla:visuals/block/", block.code.as_str()).as_str()).as_str());
    out.push(quoted_line_string("target = ", joined("freven.vanilla:", block.code.as_str()).as_str()).as_str());
    out.push(quoted_line_string("model = ", model_key_for_shape_ref(block.shape.as_str()).as_str()).as_str());
    out.push("");
    out.push("[block_visuals.materials]");
    out.push(quoted_line_string("all = ", joined("freven.vanilla:block/", block.code.as_str()).as_str()).as_str());
    assert(out.lines() =~= old(out).lines() + cube_visual_lines(*block));
}

fn render_cube_block(block: &CubeBlockDoc, shape: &ShapeDoc) -> (text: String)
    ensures
        text@ == cube_block_text(*block, *shape),
{
    let mut out = LineBuffer::new();
    emit_canonical_header(&mut out);
    emit_cube_material(&mut out, block);
    emit_cube_visual(&mut out, block);
    emit_block_shape(
        &mut out,
        joined("freven.vanilla:", block.code.as_str()).as_str(),
        shape,
        occludes_for_render_layer(shape.occludes, block.render_layer.as_str()),
    );
    assert(out.lines() =~= cube_block_lines(*block, *shape));
    out.into_string()
}

impl SourceTreeCompiler {
    fn declare_slot_materials(&mut self, slots: &Vec<FaceMaterialSlotDoc>, rel: &str) -> (r: Result<
        (),
        SourceTreeCompileError,
    >)
        requires
            old(self).wf(),
        ensures
            final(self).wf(),
            compiled(
                old(self)@,
                final(self)@,
                failure_of(r),
                declare_all(slot_material_requests(slots@, rel@)),
            ),
            final(self)@.files == old(self)@.files,
            final(self)@.tags == old(self)@.tags,
    {
        let ghost all = declare_all(slot_material_requests(slots@, rel@));
        let mut i: usize = 0;
        proof {
            assert(all.take(0) =~= Seq::<CompileEvent>::empty());
            lemma_compiled_nothing(old(self)@, self@);
        }
        while i < slots.len()
            invariant
                0 <= i <= slots@.len(),
                all == declare_all(slot_material_requests(slots@, rel@)),
                all.len() == slots@.len(),
                self.wf(),
                self@.files == old(self)@.files,
                self@.tags == old(self)@.tags,
                compiled(old(self)@, self@, None, all.take(i as int)),
            decreases slots.len() - i,
        {
            let ghost mid = self@;
            let r = self.declare(
                GeneratedDeclarationKind::Material,
                joined("freven.vanilla:block/", slots[i].code.as_str()),
                rel,
                AuthoringSourceKind::Blocktype,
                "materials",
            );
            proof {
                assert(all.take(i + 1) =~= all.take(i as int) + seq![all[i as int]]);
                lemma_compiled_chain(old(self)@, mid, self@, failure_of(r), all.take(i as int), seq![all[i as int]]);
            }
            if let Err(e) = r {
                proof {
                    assert(all =~= all.take(i + 1) + all.skip(i + 1));
                    lemma_compiled_fail_prefix(old(self)@, self@, e@, all.take(i + 1), all.skip(i + 1));
                }
                return Err(e);
            }
            i = i + 1;
        }
        assert(all.take(slots@.len() as int) =~= all);
        Ok(())
    }

    fn declare_face_block(&mut self, rel: &str, block: &FaceBlockDoc) -> (r: Result<
        (),
        SourceTreeCompileError,
    >)
        requires
            old(self).wf(),
        ensures
            final(self).wf(),
            compiled(
                old(self)@,
                final(self)@,
                failure_of(r),
                declare_all(face_block_requests(rel@, *block)),
            ),
            final(self)@.files == old(self)@.files,
            final(self)@.tags == old(self)@.tags,
    {
        let vkey = joined("freven.vanilla:visuals/block/", block.code.as_str());
        let bkey = joined("freven.vanilla:", block.code.as_str());
        let is_grass = str_eq(block.code.as_str(), "grass");
        let ghost e1 = seq![CompileEvent::Declare(block_request(GeneratedDeclarationKind::BlockVisual, vkey@, rel@, "visual"@))];
        let ghost e2 = seq![CompileEvent::Declare(block_request(GeneratedDeclarationKind::BlockShape, bkey@, rel@, "shape"@))];
        let ghost et = declare_all(tag_requests(block.tags@, rel@, "tags"@));
        let ghost eg = if is_grass {
            seq![CompileEvent::Declare(block_request(GeneratedDeclarationKind::Material, "freven.vanilla:block/grass"@, rel@, "materials.compatibility"@))]
        } else {
            Seq::<CompileEvent>::empty()
        };
        let ghost es = declare_all(slot_material_requests(block.material_slots@, rel@));
        let ghost s0 = self@;
        proof {
            assert(declare_all(face_block_requests(rel@, *block)) =~= e1 + e2 + et + eg + es);
        }
        let r = self.declare(GeneratedDeclarationKind::BlockVisual, vkey, rel, AuthoringSourceKind::Blocktype, "visual");
        if let Err(e) = r {
            proof { lemma_compiled_fail_prefix(s0, self@, e@, e1, e2 + et + eg + es); assert(e1 + (e2 + et + eg + es) =~= e1 + e2 + et + eg + es); }
            return Err(e);
        }
        let ghost s1 = self@;
        let r = self.declare(GeneratedDeclarationKind::BlockShape, bkey, rel, AuthoringSourceKind::Blocktype, "shape");
        proof { lemma_compiled_chain(s0, s1, self@, failure_of(r), e1, e2); }
        if let Err(e) = r {
            proof { lemma_compiled_fail_prefix(s0, self@, e@, e1 + e2, et + eg + es); assert(e1 + e2 + (et + eg + es) =~= e1 + e2 + et + eg + es); }
            return Err(e);
        }
        let ghost s2 = self@;
        let r = self.declare_tags(&block.tags, rel, "tags");
        proof { lemma_compiled_chain(s0, s2, self@, failure_of(r), e1 + e2, et); }
        if let Err(e) = r {
            proof { lemma_compiled_fail_prefix(s0, self@, e@, e1 + e2 + et, eg + es); assert(e1 + e2 + et + (eg + es) =~= e1 + e2 + et + eg + es); }
            return Err(e);
        }
        let ghost s3 = self@;
        if is_grass {
            let r = self.declare(
                GeneratedDeclarationKind::Material,
                string_of("freven.vanilla:block/grass"),
                rel,
                AuthoringSourceKind::Blocktype,
                "materials.compatibility",
            );
            proof { lemma_compiled_chain(s0, s3, self@, failure_of(r), e1 + e2 + et, eg); }
            if let Err(e) = r {
                proof { lemma_compiled_fail_prefix(s0, self@, e@, e1 + e2 + et + eg, es); }
                return Err(e);
            }
        } else {
            proof {
                lemma_compiled_nothing(s3, self@);
                lemma_compiled_chain(s0, s3, self@, None, e1 + e2 + et, eg);
            }
        }
        let ghost s4 = self@;
        let r = self.declare_slot_materials(&block.material_slots, rel);
        proof { lemma_compiled_chain(s0, s4, self@, failure_of(r), e1 + e2 + et + eg, es); }
        r
    }

    /// Declares and writes a per-face block.
    pub fn compile_face_block(&mut self, rel: &str, block: &FaceBlockDoc, shape: &ShapeDoc) -> (r:
        Result<String, SourceTreeCompileError>)
        requires
            old(self).wf(),
        ensures
            final(self).wf(),
            compiled(
                old(self)@,
                final(self)@,
                failure_of(r),
                declare_all(face_block_requests(rel@, *block)),
            ),
            final(self)@.files == old(self)@.files,
            final(self)@.tags == old(self)@.tags,
            r is Ok ==> r->Ok_0@ == face_block_text(*block, *shape),
    {
        self.declare_face_block(rel, block)?;
        Ok(render_face_block(block, shape))
    }
}

fn emit_slot_materials(out: &mut LineBuffer, slots: &Vec<FaceMaterialSlotDoc>)
    requires
        old(out).wf(),
    ensures
        final(out).wf(),
        final(out).lines() == old(out).lines() + concat_map(slots@, slot_material_lines_fn()),
{
    let ghost f = slot_material_lines_fn();
    let mut i: usize = 0;
    proof {
        lemma_concat_map_whole(slots@, f);
        assert(out.lines() =~= old(out).lines() + concat_map(slots@.take(0), f));
    }
    while i < slots.len()
        invariant
            0 <= i <= slots@.len(),
            f == slot_material_lines_fn(),
            out.wf(),
            out.lines() == old(out).lines() + concat_map(slots@.take(i as int), f),
        decreases slots.len() - i,
    {
        let slot = &slots[i];
        let ghost before = out.lines();
        out.push("[[materials]]");
        out.push(quoted_line_string("key = ", joined("freven.vanilla:block/", slot.code.as_str()).as_str()).as_str());
        out.push(quoted_line_string("texture = ", slot.texture.as_str()).as_str());
        out.push(decimal_line("fallback_debug_tint_rgba = ", slot.fallback_debug_tint_rgba as u64).as_str());
        emit_render_layer(out, slot.render_layer.as_str(), slot.alpha_cutoff_u8);
        out.push("");
        out.push("");
        proof {
            assert(out.lines() =~= before + slot_material_lines(*slot));
            lemma_concat_map_take_step(slots@, f, i as int);
        }
        i = i + 1;
    }
    proof {
        lemma_concat_map_whole(slots@, f);
    }
}

fn emit_face_visual(out: &mut LineBuffer, block: &FaceBlockDoc)
    requires
        old(out).wf(),
    ensures
        final(out).wf(),
        final(out).lines() == old(out).lines() + face_visual_lines(*block),
{
    out.push("[[block_visuals]]");
    out.push(quoted_line_string("key = ", joined("freven.vanilla:visuals/block/", block.code.as_str()).as_str()).as_str());
    out.push(quoted_line_string("target = ", joined("freven.vanilla:", block.code.as_str()).as_str()).as_str());
    out.push(quoted_line_string("model = ", model_key_for_shape_ref(block.shape.as_str()).as_str()).as_str());
    out.push("");
    out.push("[block_visuals.materials]");
    let ghost head = out.lines();
    let ghost f = slot_binding_lines_fn();
    let slots = &block.material_slots;
    let mut i: usize = 0;
    proof {
        lemma_concat_map_whole(slots@, f);
        assert(head =~= head + concat_map(slots@.take(0), f));
    }
    while i < slots.len()
        invariant
            0 <= i <= slots@.len(),
            slots@ == block.material_slots@,
            f == slot_binding_lines_fn(),
            out.wf(),
            out.lines() == head + concat_map(slots@.take(i as int), f),
        decreases slots.len() - i,
    {
        let slot = &slots[i];
        out.push(
            quoted_line_string(
                joined(slot.slot.as_str(), " = ").as_str(),
                joined("freven.vanilla:block/", slot.code.as_str()).as_str(),
            ).as_str(),
        );
        proof {
            lemma_concat_map_take_step(slots@, f, i as int);
        }
        i = i + 1;
    }
    proof {
        lemma_concat_map_whole(slots@, f);
    }
    assert(out.lines() =~= old(out).lines() + face_visual_lines(*block));
}

fn render_face_block(block: &FaceBlockDoc, shape: &ShapeDoc) -> (text: String)
    ensures
        text@ == face_block_text(*block, *shape),
{
    let mut out = LineBuffer::new();
    emit_canonical_header(&mut out);
    let ghost a = out.lines();
    if str_eq(block.code.as_str(), "grass") {
        out.push("[[materials]]");
        out.push("key = \"freven.vanilla:block/grass\"");
        out.push("texture = \"freven.vanilla:textures/grass\"");
        out.push("fallback_debug_tint_rgba = 1067666943");
        out.push("# generated_from = \"content/blocktypes/grass.toml\"");
        out.push("# grass compatibility material key");
        out.push("");
    }
    let ghost b = out.lines();
    assert(b =~= a + if block.code@ == "grass"@ { grass_compatibility_lines() } else { Seq::empty() });
    emit_slot_materials(&mut out, &block.material_slots);
    emit_face_visual(&mut out, block);
    emit_block_shape(&mut out, joined("freven.vanilla:", block.code.as_str()).as_str(), shape, shape.occludes);
    assert(out.lines() =~= face_block_lines(*block, *shape));
    out.into_string()
}

} // verus!
