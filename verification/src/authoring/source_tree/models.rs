//! The canonical models of the loaded shapes.

use vstd::prelude::*;
use super::{
    check, compiled, concat_map, event_outcome, failure_of, lemma_concat_map_take_step,
    lemma_concat_map_whole, lemma_items_step, profile_failure, shape_semantics_failure,
    validate_profile, validate_shape_semantics, CompileEvent, SourceErrorModel,
    SourceTreeCompileError, SourceTreeCompiler,
};
use super::docs::{Loaded, ShapeDoc, ShapeElementDoc, ShapeFaceDoc, ShapeFaceEntry};
use super::emit::{quoted_items_line, quoted_items_string, vec3_string, vec3_text, vec4_string, vec4_text};
use super::paths::{model_key_for_code, model_key_for_shape_code};
use crate::authoring::{decl, AuthoringSourceKind, DeclarationModel, GeneratedDeclarationKind};
use crate::authoring::fixture_compiler::manifest_header_lines;
use crate::text::{concat3, joined, join_lines, quoted_line, quoted_line_string, str_eq, LineBuffer};

verus! {

/// The `material_slots` line of a shape, when it names slots.
pub open spec fn slots_lines(slots: Seq<String>) -> Seq<Seq<char>> {
    if slots.len() == 0 {
        Seq::empty()
    } else {
        seq![quoted_items_line("material_slots = "@, slots.map_values(|s: String| s@))]
    }
}

/// A face is an overlay when it says so, or else when its element does.
pub open spec fn face_overlay(element: ShapeElementDoc, face: ShapeFaceDoc) -> bool {
    match face.overlay {
        Some(b) => b,
        None => element.overlay,
    }
}

/// A face's culling, or else its element's.
pub open spec fn face_cull(element: ShapeElementDoc, face: ShapeFaceDoc) -> Option<bool> {
    match face.cull {
        Some(c) => Some(c),
        None => element.cull,
    }
}

pub open spec fn part_face_lines(element: ShapeElementDoc, entry: ShapeFaceEntry) -> Seq<
    Seq<char>,
> {
    seq![
        ""@,
        "[models.parts.faces."@ + entry.name@ + "]"@,
        quoted_line("material = "@, entry.face.material@),
    ] + (if face_overlay(element, entry.face) {
        seq!["overlay = true"@]
    } else {
        Seq::empty()
    }) + (if face_cull(element, entry.face) == Some(false) {
        seq!["cull = false"@]
    } else {
        Seq::empty()
    }) + match entry.face.uv {
        Some(uv) => seq!["# source_uv = "@ + vec4_text(uv)],
        None => Seq::empty(),
    }
}

pub open spec fn part_face_lines_fn(element: ShapeElementDoc) -> spec_fn(ShapeFaceEntry) -> Seq<
    Seq<char>,
> {
    |entry: ShapeFaceEntry| part_face_lines(element, entry)
}

/// A `[[models.parts]]` table of an element and its faces.
pub open spec fn part_lines(element: ShapeElementDoc) -> Seq<Seq<char>> {
    seq![
        ""@,
        "[[models.parts]]"@,
        quoted_line("name = "@, element.name@),
        "from = "@ + vec3_text(element.from),
        "to = "@ + vec3_text(element.to),
    ] + concat_map(element.faces@, part_face_lines_fn(element))
}

pub open spec fn part_lines_fn() -> spec_fn(ShapeElementDoc) -> Seq<Seq<char>> {
    |element: ShapeElementDoc| part_lines(element)
}

/// The `[[models]]` table of a shape. Full cubes and per-face cubes keep
/// their greedy-meshable model kinds; every other shape (the topsoil overlay
/// among them) is `cuboid_parts` and lists its parts.
pub open spec fn model_lines(shape: ShapeDoc) -> Seq<Seq<char>> {
    let head = seq!["[[models]]"@, quoted_line("key = "@, model_key_for_code(shape.code@))];
    if shape.code@ == "block/cube"@ {
        head + seq!["kind = \"cube_all\""@] + slots_lines(shape.material_slots@) + seq![""@]
    } else if shape.code@ == "block/cube_faces"@ {
        head + seq!["kind = \"cube_faces\""@] + slots_lines(shape.material_slots@) + seq![""@]
    } else {
        head + seq![quoted_line("kind = "@, "cuboid_parts"@)] + slots_lines(shape.material_slots@) + concat_map(shape.elements@, part_lines_fn())
            + seq![""@]
    }
}

pub open spec fn model_lines_fn() -> spec_fn(Loaded<ShapeDoc>) -> Seq<Seq<char>> {
    |s: Loaded<ShapeDoc>| model_lines(s.doc)
}

/// What compiling one shape does: its profile and semantics are checked, then
/// its model is declared.
pub open spec fn shape_events(s: Loaded<ShapeDoc>) -> Seq<CompileEvent> {
    check(profile_failure(s.path@, s.doc.profile@, s.doc.kind@, "shape"@)) + check(
        shape_semantics_failure(s.path@, s.doc),
    ) + seq![
        CompileEvent::Declare(
            decl(
                GeneratedDeclarationKind::Model,
                model_key_for_code(s.doc.code@),
                s.rel@,
                AuthoringSourceKind::Shape,
                "shape"@,
            ),
        ),
    ]
}

pub open spec fn shape_events_fn() -> spec_fn(Loaded<ShapeDoc>) -> Seq<CompileEvent> {
    |s: Loaded<ShapeDoc>| shape_events(s)
}

/// The `models/common.toml` file of the loaded shapes.
pub open spec fn models_text(shapes: Seq<Loaded<ShapeDoc>>) -> Seq<char> {
    join_lines(manifest_header_lines() + concat_map(shapes, model_lines_fn()))
}

fn emit_slots(out: &mut LineBuffer, slots: &Vec<String>)
    requires
        old(out).wf(),
    ensures
        final(out).wf(),
        final(out).lines() == old(out).lines() + slots_lines(slots@),
{
    if slots.len() > 0 {
        out.push(quoted_items_string("material_slots = ", slots).as_str());
    }
    assert(out.lines() =~= old(out).lines() + slots_lines(slots@));
}

fn emit_part_face(out: &mut LineBuffer, element: &ShapeElementDoc, entry: &ShapeFaceEntry)
    requires
        old(out).wf(),
    ensures
        final(out).wf(),
        final(out).lines() == old(out).lines() + part_face_lines(*element, *entry),
{
    let face = &entry.face;
    out.push("");
    out.push(concat3("[models.parts.faces.", entry.name.as_str(), "]").as_str());
    out.push(quoted_line_string("material = ", face.material.as_str()).as_str());
    let ghost a = out.lines();
    let overlay = match face.overlay {
        Some(b) => b,
        None => element.overlay,
    };
    if overlay {
        out.push("overlay = true");
    }
    let ghost b = out.lines();
    let cull = match face.cull {
        Some(c) => Some(c),
        None => element.cull,
    };
    if cull == Some(false) {
        out.push("cull = false");
    }
    let ghost c = out.lines();
    if let Some(uv) = &face.uv {
        out.push(joined("# source_uv = ", vec4_string(uv).as_str()).as_str());
    }
    assert(out.lines() =~= old(out).lines() + part_face_lines(*element, *entry));
}

fn emit_part(out: &mut LineBuffer, element: &ShapeElementDoc)
    requires
        old(out).wf(),
    ensures
        final(out).wf(),
        final(out).lines() == old(out).lines() + part_lines(*element),
{
    out.push("");
    out.push("[[models.parts]]");
    out.push(quoted_line_string("name = ", element.name.as_str()).as_str());
    out.push(joined("from = ", vec3_string(&element.from).as_str()).as_str());
    out.push(joined("to = ", vec3_string(&element.to).as_str()).as_str());
    let ghost head = out.lines();
    let ghost f = part_face_lines_fn(*element);
    let mut i: usize = 0;
    proof {
        lemma_concat_map_whole(element.faces@, f);
    }
    while i < element.faces.len()
        invariant
            0 <= i <= element.faces@.len(),
            f == part_face_lines_fn(*element),
            out.wf(),
            out.lines() == head + concat_map(element.faces@.take(i as int), f),
        decreases element.faces.len() - i,
    {
        emit_part_face(out, element, &element.faces[i]);
        proof {
            lemma_concat_map_take_step(element.faces@, f, i as int);
        }
        i = i + 1;
    }
    proof {
        lemma_concat_map_whole(element.faces@, f);
    }
    assert(out.lines() =~= old(out).lines() + part_lines(*element));
}

fn emit_model(out: &mut LineBuffer, shape: &ShapeDoc, key: &str)
    requires
        old(out).wf(),
        key@ == model_key_for_code(shape.code@),
    ensures
        final(out).wf(),
        final(out).lines() == old(out).lines() + model_lines(*shape),
{
    out.push("[[models]]");
    out.push(quoted_line_string("key = ", key).as_str());
    let code = shape.code.as_str();
    if str_eq(code, "block/cube") {
        out.push("kind = \"cube_all\"");
        emit_slots(out, &shape.material_slots);
        out.push("");
        assert(out.lines() =~= old(out).lines() + model_lines(*shape));
        return ;
    }
    if str_eq(code, "block/cube_faces") {
        out.push("kind = \"cube_faces\"");
        emit_slots(out, &shape.material_slots);
        out.push("");
        assert(out.lines() =~= old(out).lines() + model_lines(*shape));
        return ;
    }
    out.push(quoted_line_string("kind = ", "cuboid_parts").as_str());
    emit_slots(out, &shape.material_slots);
    let ghost head = out.lines();
    let ghost f = part_lines_fn();
    let mut i: usize = 0;
    proof {
        lemma_concat_map_whole(shape.elements@, f);
    }
    while i < shape.elements.len()
        invariant
            0 <= i <= shape.elements@.len(),
            f == part_lines_fn(),
            out.wf(),
            out.lines() == head + concat_map(shape.elements@.take(i as int), f),
        decreases shape.elements.len() - i,
    {
        emit_part(out, &shape.elements[i]);
        proof {
            lemma_concat_map_take_step(shape.elements@, f, i as int);
        }
        i = i + 1;
    }
    proof {
        lemma_concat_map_whole(shape.elements@, f);
    }
    out.push("");
    assert(out.lines() =~= old(out).lines() + model_lines(*shape));
}

/// Writes the canonical header of a generated file.
pub fn emit_canonical_header(out: &mut LineBuffer)
    requires
        old(out).wf(),
    ensures
        final(out).wf(),
        final(out).lines() == old(out).lines() + manifest_header_lines(),
{
    out.push("schema = 1");
    out.push("# generated_from_profile = \"freven.vanilla:blocktypes_v1\"");
    out.push("# generated output is canonical content graph, not authoring source");
    out.push("");
    proof {
        reveal_strlit("schema = 1");
        reveal_strlit("schema = ");
        assert(crate::text::decimal(1) =~= seq!['1']);
        assert("schema = "@ + crate::text::decimal(1) =~= "schema = 1"@);
    }
    assert(out.lines() =~= old(out).lines() + manifest_header_lines());
}

impl SourceTreeCompiler {
    fn compile_model(&mut self, shape: &Loaded<ShapeDoc>, out: &mut LineBuffer) -> (r: Result<
        (),
        SourceTreeCompileError,
    >)
        requires
            old(self).wf(),
            old(out).wf(),
        ensures
            final(self).wf(),
            compiled(old(self)@, final(self)@, failure_of(r), shape_events(*shape)),
            final(self)@.files == old(self)@.files,
            final(self)@.tags == old(self)@.tags,
            final(out).wf(),
            r is Ok ==> final(out).lines() == old(out).lines() + model_lines(shape.doc),
    {
        let ghost base = self@.declarations;
        let ghost c1 = check(profile_failure(shape.path@, shape.doc.profile@, shape.doc.kind@, "shape"@));
        let ghost c2 = check(shape_semantics_failure(shape.path@, shape.doc));
        let key = model_key_for_shape_code(shape.doc.code.as_str());
        let ghost d = seq![
            CompileEvent::Declare(
                decl(
                    GeneratedDeclarationKind::Model,
                    key@,
                    shape.rel@,
                    AuthoringSourceKind::Shape,
                    "shape"@,
                ),
            ),
        ];
        proof {
            assert(shape_events(*shape) == c1 + c2 + d);
            super::lemma_event_outcome_concat(base, c1 + c2, d);
            super::lemma_event_outcome_concat(base, c1, c2);
            assert(c1 + Seq::<CompileEvent>::empty() =~= c1);
        }
        let r1 = validate_profile(
            shape.path.as_str(),
            shape.doc.profile.as_str(),
            shape.doc.kind.as_str(),
            "shape",
        );
        if let Err(e) = r1 {
            proof {
                assert(c1 =~= seq![CompileEvent::Fail(e@)]);
                assert(seq![CompileEvent::Fail(e@)].drop_last() =~= Seq::<CompileEvent>::empty());
                super::lemma_fail_first(base, e@);
            }
            return Err(e);
        }
        proof {
            assert(c1 =~= Seq::<CompileEvent>::empty());
        }
        let r2 = validate_shape_semantics(shape.path.as_str(), &shape.doc);
        if let Err(e) = r2 {
            proof {
                assert(c2 =~= seq![CompileEvent::Fail(e@)]);
                assert(seq![CompileEvent::Fail(e@)].drop_last() =~= Seq::<CompileEvent>::empty());
                assert(c1 + c2 =~= c2);
                super::lemma_fail_first(base, e@);
            }
            return Err(e);
        }
        proof {
            assert(c2 =~= Seq::<CompileEvent>::empty());
            assert(c1 + c2 =~= Seq::<CompileEvent>::empty());
        }
        let r3 = self.declare(
            GeneratedDeclarationKind::Model,
            key.clone(),
            shape.rel.as_str(),
            AuthoringSourceKind::Shape,
            "shape",
        );
        if let Err(e) = r3 {
            return Err(e);
        }
        emit_model(out, &shape.doc, key.as_str());
        Ok(())
    }

    /// Compiles the loaded shapes into the `models/common.toml` file: every
    /// shape, in order, is checked and declares its model.
    pub fn compile_models(&mut self, shapes: &Vec<Loaded<ShapeDoc>>) -> (r: Result<
        String,
        SourceTreeCompileError,
    >)
        requires
            old(self).wf(),
        ensures
            final(self).wf(),
            compiled(
                old(self)@,
                final(self)@,
                failure_of(r),
                concat_map(shapes@, shape_events_fn()),
            ),
            final(self)@.files == old(self)@.files,
            final(self)@.tags == old(self)@.tags,
            r is Ok ==> r->Ok_0@ == models_text(shapes@),
    {
        let ghost base = self@.declarations;
        let ghost fe = shape_events_fn();
        let ghost fl = model_lines_fn();
        let mut out = LineBuffer::new();
        emit_canonical_header(&mut out);
        proof {
            lemma_concat_map_whole(shapes@, fe);
            lemma_concat_map_whole(shapes@, fl);
            assert(out.lines() =~= manifest_header_lines() + concat_map(shapes@.take(0), fl));
        }
        let mut i: usize = 0;
        while i < shapes.len()
            invariant
                0 <= i <= shapes@.len(),
                fe == shape_events_fn(),
                fl == model_lines_fn(),
                self.wf(),
                out.wf(),
                self@.files == old(self)@.files,
                self@.tags == old(self)@.tags,
                base == old(self)@.declarations,
                event_outcome(base, concat_map(shapes@.take(i as int), fe)) == Ok::<
                    Seq<DeclarationModel>,
                    SourceErrorModel,
                >(self@.declarations),
                out.lines() == manifest_header_lines() + concat_map(shapes@.take(i as int), fl),
            decreases shapes.len() - i,
        {
            let ghost cur = self@.declarations;
            let r = self.compile_model(&shapes[i], &mut out);
            proof {
                lemma_items_step(base, shapes@, fe, i as int, cur, failure_of(r), self@.declarations);
                lemma_concat_map_take_step(shapes@, fl, i as int);
            }
            if let Err(e) = r {
                return Err(e);
            }
            i = i + 1;
        }
        proof {
            lemma_concat_map_whole(shapes@, fe);
            lemma_concat_map_whole(shapes@, fl);
        }
        Ok(out.into_string())
    }
}

} // verus!
