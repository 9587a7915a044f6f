//! Block families generated from a template and world-property variants:
//! rock families and topsoil (soil and grass) families.

use vstd::prelude::*;
use super::{
    check, compiled, concat_map, declare_all, failure_of, lemma_compiled_chain,
    lemma_compiled_fail_prefix, lemma_compiled_nothing, lemma_concat_map_take_step,
    lemma_concat_map_whole, shape_doc_for_ref, shape_for_ref, shape_ref_failure, CompileEvent,
    SourceTreeCompileError, SourceTreeCompiler,
};
use super::blocks::{block_key, block_request, tag_requests};
use super::docs::{Loaded, ShapeDoc, VariantFamilyDoc, WorldPropertyVariant};
use super::emit::{block_shape_lines, emit_block_shape, emit_template_material, template_material_lines};
use super::models::emit_canonical_header;
use super::paths::{model_key_for_ref, model_key_for_shape_ref};
use crate::authoring::{AuthoringSourceKind, DeclarationModel, GeneratedDeclarationKind};
use crate::authoring::fixture_compiler::{family_header_lines, family_key, manifest_header_lines};
use crate::text::{join_lines, joined, quoted_line, quoted_line_string, string_of, LineBuffer};

verus! {

/// The line `prefix "value"` when there is a value.
pub open spec fn opt_quoted_line(prefix: Seq<char>, value: Option<String>) -> Seq<Seq<char>> {
    match value {
        Some(v) => seq![quoted_line(prefix, v@)],
        None => Seq::empty(),
    }
}

pub fn emit_opt_quoted_line(out: &mut LineBuffer, prefix: &str, value: &Option<String>)
    requires
        old(out).wf(),
    ensures
        final(out).wf(),
        final(out).lines() == old(out).lines() + opt_quoted_line(prefix@, *value),
{
    if let Some(v) = value {
        out.push(quoted_line_string(prefix, v.as_str()).as_str());
    }
    assert(out.lines() =~= old(out).lines() + opt_quoted_line(prefix@, *value));
}

/// Writes the header of a `[[families]]` table and its first axis.
pub fn emit_family_header(out: &mut LineBuffer, key: &str, description: &str, axis: &str)
    requires
        old(out).wf(),
    ensures
        final(out).wf(),
        final(out).lines() == old(out).lines() + family_header_lines(key@, description@, axis@),
{
    out.push("[[families]]");
    out.push(quoted_line_string("key = ", key).as_str());
    out.push("");
    out.push("[families.family]");
    out.push("kind = \"content_family\"");
    out.push("namespace = \"freven.vanilla\"");
    out.push(quoted_line_string("description = ", description).as_str());
    out.push("");
    out.push("[[families.axes]]");
    out.push(quoted_line_string("name = ", axis).as_str());
    out.push("");
    assert(out.lines() =~= old(out).lines() + family_header_lines(key@, description@, axis@));
}

/// One block-shape request per variant.
pub open spec fn variant_shape_requests(variants: Seq<WorldPropertyVariant>, rel: Seq<char>) -> Seq<
    DeclarationModel,
> {
    variants.map_values(
        |v: WorldPropertyVariant|
            block_request(
                GeneratedDeclarationKind::BlockShape,
                block_key(v.id@),
                rel,
                "templates.shape"@,
            ),
    )
}

/// What a rock family declares: one block shape per rock, the family, its
/// material and visual templates, then its tags.
pub open spec fn rock_family_requests(
    rel: Seq<char>,
    family: VariantFamilyDoc,
    variants: Seq<WorldPropertyVariant>,
) -> Seq<DeclarationModel> {
    variant_shape_requests(variants, rel) + seq![
        block_request(GeneratedDeclarationKind::ContentFamily, family_key(family.code@), rel, "family"@),
        block_request(
            GeneratedDeclarationKind::Material,
            family.templates.material.key@,
            rel,
            "templates.material"@,
        ),
        block_request(
            GeneratedDeclarationKind::BlockVisual,
            family.templates.visual.key@,
            rel,
            "templates.visual"@,
        ),
    ] + tag_requests(family.tags@, rel, "templates.tags"@)
}

/// What compiling a rock family does: its visual template's shape must be
/// loaded, then it declares.
pub open spec fn rock_family_events(
    rel: Seq<char>,
    family: VariantFamilyDoc,
    variants: Seq<WorldPropertyVariant>,
    shapes: Seq<Loaded<ShapeDoc>>,
) -> Seq<CompileEvent> {
    check(shape_ref_failure(shapes, family.templates.visual.shape@, rel)) + declare_all(
        rock_family_requests(rel, family, variants),
    )
}

pub open spec fn rock_value_lines_fn() -> spec_fn(WorldPropertyVariant) -> Seq<Seq<char>> {
    |v: WorldPropertyVariant|
        seq![
            "[[families.axes.values]]"@,
            quoted_line("id = "@, v.id@),
            quoted_line("display = "@, v.display@),
        ] + opt_quoted_line("fallback_tint_rgba = "@, v.fallback_tint_rgba) + opt_quoted_line(
            "rock_group = "@,
            v.rock_group,
        ) + seq![""@]
}

pub open spec fn rock_tag_lines_fn() -> spec_fn(String) -> Seq<Seq<char>> {
    |tag: String|
        seq![
            "[[families.templates.tags]]"@,
            quoted_line("tag = "@, tag@),
            "value = \"{rock}\""@,
            ""@,
        ]
}

pub open spec fn variant_shape_lines_fn(shape: ShapeDoc) -> spec_fn(WorldPropertyVariant) -> Seq<
    Seq<char>,
> {
    |v: WorldPropertyVariant| block_shape_lines(block_key(v.id@), shape, shape.occludes)
}

/// The `[families.templates.visual]` table of a rock family.
pub open spec fn rock_visual_lines(family: VariantFamilyDoc) -> Seq<Seq<char>> {
    seq![
        "[families.templates.visual]"@,
        quoted_line("key = "@, family.templates.visual.key@),
        quoted_line("target = "@, family.templates.visual.target@),
        quoted_line("model = "@, model_key_for_ref(family.templates.visual.shape@)),
        quoted_line("material = "@, family.templates.visual.material@),
        ""@,
    ]
}

/// The lines of a rock family's file: the family and its rock axis, the
/// templates and tags, then the block shape of every rock.
pub open spec fn rock_family_lines(
    family: VariantFamilyDoc,
    variants: Seq<WorldPropertyVariant>,
    shape: ShapeDoc,
) -> Seq<Seq<char>> {
    manifest_header_lines() + family_header_lines(
        family_key(family.code@),
        "Generated from freven.vanilla:blocktypes_v1 rock blocktype source."@,
        "rock"@,
    ) + concat_map(variants, rock_value_lines_fn()) + template_material_lines(
        family.templates.material,
    ) + seq![""@] + rock_visual_lines(family) + concat_map(family.tags@, rock_tag_lines_fn())
        + concat_map(variants, variant_shape_lines_fn(shape))
}

pub open spec fn rock_family_text(
    family: VariantFamilyDoc,
    variants: Seq<WorldPropertyVariant>,
    shape: ShapeDoc,
) -> Seq<char> {
    join_lines(rock_family_lines(family, variants, shape))
}

impl SourceTreeCompiler {
    /// Declares the block shape of every variant.
    fn declare_variant_shapes(&mut self, variants: &Vec<WorldPropertyVariant>, rel: &str) -> (r:
        Result<(), SourceTreeCompileError>)
        requires
            old(self).wf(),
        ensures
            final(self).wf(),
            compiled(
                old(self)@,
                final(self)@,
                failure_of(r),
                declare_all(variant_shape_requests(variants@, rel@)),
            ),
            final(self)@.files == old(self)@.files,
            final(self)@.tags == old(self)@.tags,
    {
        let ghost all = declare_all(variant_shape_requests(variants@, rel@));
        let mut i: usize = 0;
        proof {
            assert(all.take(0) =~= Seq::<CompileEvent>::empty());
            lemma_compiled_nothing(old(self)@, self@);
        }
        while i < variants.len()
            invariant
                0 <= i <= variants@.len(),
                all == declare_all(variant_shape_requests(variants@, rel@)),
                all.len() == variants@.len(),
                self.wf(),
                self@.files == old(self)@.files,
                self@.tags == old(self)@.tags,
                compiled(old(self)@, self@, None, all.take(i as int)),
            decreases variants.len() - i,
        {
            let ghost mid = self@;
            let r = self.declare(
                GeneratedDeclarationKind::BlockShape,
                joined("freven.vanilla:", variants[i].id.as_str()),
                rel,
                AuthoringSourceKind::Blocktype,
                "templates.shape",
            );
            proof {
                assert(all.take(i + 1) =~= all.take(i as int) + seq![all[i as int]]);
                lemma_compiled_chain(old(self)@, mid, self@, failure_of(r), all.take(i as int), seq![all[i as int]]);
            }
            if let Err(e) = r {
                proof {
                    assert(all =~= all.take(i + 1) + all.skip(i + 1));
                    lemma_compiled_fail_prefix(old(self)@, self@, e@, all.take(i + 1), all.skip(i + 1));
                }
                return Err(e);
            }
            i = i + 1;
        }
        assert(all.take(variants@.len() as int) =~= all);
        Ok(())
    }

    /// Declares and writes a rock family over its world-property variants.
    pub fn compile_rock_family(
        &mut self,
        rel: &str,
        family: &VariantFamilyDoc,
        variants: &Vec<WorldPropertyVariant>,
        shapes: &Vec<Loaded<ShapeDoc>>,
    ) -> (r: Result<String, SourceTreeCompileError>)
        requires
            old(self).wf(),
        ensures
            final(self).wf(),
            compiled(
                old(self)@,
                final(self)@,
                failure_of(r),
                rock_family_events(rel@, *family, variants@, shapes@),
            ),
            final(self)@.files == old(self)@.files,
            final(self)@.tags == old(self)@.tags,
            r is Ok ==> r->Ok_0@ == rock_family_text(
                *family,
                variants@,
                shape_for_ref(shapes@, family.templates.visual.shape@),
            ),
    {
        let ghost s0 = self@;
        let ghost c = check(shape_ref_failure(shapes@, family.templates.visual.shape@, rel@));
        let ghost d = declare_all(rock_family_requests(rel@, *family, variants@));
        let shape = match shape_doc_for_ref(shapes, family.templates.visual.shape.as_str(), rel) {
            Ok(shape) => shape,
            Err(e) => {
                proof {
                    super::lemma_fail_first(s0.declarations, e@);
                    assert(c =~= seq![CompileEvent::Fail(e@)]);
                    lemma_compiled_fail_prefix(s0, self@, e@, c, d);
                }
                return Err(e);
            },
        };
        proof {
            assert(c =~= Seq::<CompileEvent>::empty());
            lemma_compiled_nothing(s0, self@);
        }
        let ghost dv = declare_all(variant_shape_requests(variants@, rel@));
        let fkey = joined("freven.vanilla:families/", family.code.as_str());
        let ghost e1 = seq![CompileEvent::Declare(block_request(GeneratedDeclarationKind::ContentFamily, fkey@, rel@, "family"@))];
        let ghost e2 = seq![CompileEvent::Declare(block_request(GeneratedDeclarationKind::Material, family.templates.material.key@, rel@, "templates.material"@))];
        let ghost e3 = seq![CompileEvent::Declare(block_request(GeneratedDeclarationKind::BlockVisual, family.templates.visual.key@, rel@, "templates.visual"@))];
        let ghost et = declare_all(tag_requests(family.tags@, rel@, "templates.tags"@));
        proof {
            assert(d =~= dv + e1 + e2 + e3 + et);
            assert(c + d =~= dv + e1 + e2 + e3 + et);
        }
        let ghost s1 = self@;
        let r = self.declare_variant_shapes(variants, rel);
        if let Err(e) = r {
            proof { lemma_compiled_fail_prefix(s1, self@, e@, dv, e1 + e2 + e3 + et); assert(dv + (e1 + e2 + e3 + et) =~= dv + e1 + e2 + e3 + et); }
            return Err(e);
        }
        let ghost s2 = self@;
        let r = self.declare(GeneratedDeclarationKind::ContentFamily, fkey, rel, AuthoringSourceKind::Blocktype, "family");
        proof { lemma_compiled_chain(s1, s2, self@, failure_of(r), dv, e1); }
        if let Err(e) = r {
            proof { lemma_compiled_fail_prefix(s1, self@, e@, dv + e1, e2 + e3 + et); assert(dv + e1 + (e2 + e3 + et) =~= dv + e1 + e2 + e3 + et); }
            return Err(e);
        }
        let ghost s3 = self@;
        let r = self.declare(GeneratedDeclarationKind::Material, family.templates.material.key.clone(), rel, AuthoringSourceKind::Blocktype, "templates.material");
        proof { lemma_compiled_chain(s1, s3, self@, failure_of(r), dv + e1, e2); }
        if let Err(e) = r {
            proof { lemma_compiled_fail_prefix(s1, self@, e@, dv + e1 + e2, e3 + et); assert(dv + e1 + e2 + (e3 + et) =~= dv + e1 + e2 + e3 + et); }
            return Err(e);
        }
        let ghost s4 = self@;
        let r = self.declare(GeneratedDeclarationKind::BlockVisual, family.templates.visual.key.clone(), rel, AuthoringSourceKind::Blocktype, "templates.visual");
        proof { lemma_compiled_chain(s1, s4, self@, failure_of(r), dv + e1 + e2, e3); }
        if let Err(e) = r {
            proof { lemma_compiled_fail_prefix(s1, self@, e@, dv + e1 + e2 + e3, et); }
            return Err(e);
        }
        let ghost s5 = self@;
        let r = self.declare_tags(&family.tags, rel, "templates.tags");
        proof {
            lemma_compiled_chain(s1, s5, self@, failure_of(r), dv + e1 + e2 + e3, et);
            lemma_compiled_chain(s0, s1, self@, failure_of(r), c, d);
        }
        if let Err(e) = r {
            return Err(e);
        }
        Ok(render_rock_family(family, variants, shape))
    }
}

fn render_rock_family(family: &VariantFamilyDoc, variants: &Vec<WorldPropertyVariant>, shape: &ShapeDoc) -> (text: String)
    ensures
        text@ == rock_family_text(*family, variants@, *shape),
{
    let mut out = LineBuffer::new();
    emit_canonical_header(&mut out);
    emit_family_header(
        &mut out,
        joined("freven.vanilla:families/", family.code.as_str()).as_str(),
        "Generated from freven.vanilla:blocktypes_v1 rock blocktype source.",
        "rock",
    );
    let ghost a = out.lines();
    let ghost fv = rock_value_lines_fn();
    let mut i: usize = 0;
    proof {
        lemma_concat_map_whole(variants@, fv);
        assert(a =~= a + concat_map(variants@.take(0), fv));
    }
    while i < variants.len()
        invariant
            0 <= i <= variants@.len(),
            fv == rock_value_lines_fn(),
            out.wf(),
            out.lines() == a + concat_map(variants@.take(i as int), fv),
        decreases variants.len() - i,
    {
        let v = &variants[i];
        let ghost before = out.lines();
        out.push("[[families.axes.values]]");
        out.push(quoted_line_string("id = ", v.id.as_str()).as_str());
        out.push(quoted_line_string("display = ", v.display.as_str()).as_str());
        emit_opt_quoted_line(&mut out, "fallback_tint_rgba = ", &v.fallback_tint_rgba);
        emit_opt_quoted_line(&mut out, "rock_group = ", &v.rock_group);
        out.push("");
        proof {
            assert(out.lines() =~= before + fv(*v));
            lemma_concat_map_take_step(variants@, fv, i as int);
        }
        i = i + 1;
    }
    proof {
        lemma_concat_map_whole(variants@, fv);
    }
    let ghost b = out.lines();
    emit_template_material(&mut out, &family.templates.material);
    out.push("");
    out.push("[families.templates.visual]");
    out.push(quoted_line_string("key = ", family.templates.visual.key.as_str()).as_str());
    out.push(quoted_line_string("target = ", family.templates.visual.target.as_str()).as_str());
    out.push(
        quoted_line_string(
            "model = ",
            model_key_for_shape_ref(family.templates.visual.shape.as_str()).as_str(),
        ).as_str(),
    );
    out.push(quoted_line_string("material = ", family.templates.visual.material.as_str()).as_str());
    out.push("");
    assert(out.lines() =~= b + template_material_lines(family.templates.material) + seq![""@]
        + rock_visual_lines(*family));
    let ghost c = out.lines();
    let ghost ft = rock_tag_lines_fn();
    let mut t: usize = 0;
    proof {
        lemma_concat_map_whole(family.tags@, ft);
        assert(c =~= c + concat_map(family.tags@.take(0), ft));
    }
    while t < family.tags.len()
        invariant
            0 <= t <= family.tags@.len(),
            ft == rock_tag_lines_fn(),
            out.wf(),
            out.lines() == c + concat_map(family.tags@.take(t as int), ft),
        decreases family.tags.len() - t,
    {
        out.push("[[families.templates.tags]]");
        out.push(quoted_line_string("tag = ", family.tags[t].as_str()).as_str());
        out.push("value = \"{rock}\"");
        out.push("");
        proof {
            lemma_concat_map_take_step(family.tags@, ft, t as int);
        }
        t = t + 1;
    }
    proof {
        lemma_concat_map_whole(family.tags@, ft);
    }
    let ghost d = out.lines();
    let ghost fs = variant_shape_lines_fn(*shape);
    let mut k: usize = 0;
    proof {
        lemma_concat_map_whole(variants@, fs);
        assert(d =~= d + concat_map(variants@.take(0), fs));
    }
    while k < variants.len()
        invariant
            0 <= k <= variants@.len(),
            fs == variant_shape_lines_fn(*shape),
            out.wf(),
            out.lines() == d + concat_map(variants@.take(k as int), fs),
        decreases variants.len() - k,
    {
        emit_block_shape(
            &mut out,
            joined("freven.vanilla:", variants[k].id.as_str()).as_str(),
            shape,
            shape.occludes,
        );
        proof {
            lemma_concat_map_take_step(variants@, fs, k as int);
        }
        k = k + 1;
    }
    proof {
        lemma_concat_map_whole(variants@, fs);
    }
    assert(out.lines() =~= rock_family_lines(*family, variants@, *shape));
    out.into_string()
}

} // verus!
