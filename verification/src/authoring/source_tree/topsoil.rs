//! Topsoil families: one soil block per fertility and coverage, with grass
//! surface layers on covered soil.

use vstd::prelude::*;
use super::{
    check, compiled, concat_map, declare_all, failure_of, invalid, lemma_compiled_chain,
    lemma_compiled_fail_prefix, lemma_compiled_items_step, lemma_compiled_nothing,
    lemma_concat_map_take_step, lemma_concat_map_whole, shape_doc_for_ref, shape_for_ref,
    shape_ref_failure, CompileEvent, SourceErrorModel, SourceTreeCompileError,
    SourceTreeCompiler,
};
use super::blocks::{block_request, tag_requests};
use super::docs::{
    Loaded, ShapeDoc, TopsoilCoverageEntry, TopsoilCoverageVisual, TopsoilFamilyDoc,
    WorldPropertyVariant,
};
use super::emit::{
    block_shape_lines, emit_block_shape, emit_template_material,
    emit_topsoil_surface_material_template, template_material_lines, topsoil_surface_lines,
};
use super::families::{emit_family_header, emit_opt_quoted_line, opt_quoted_line};
use super::models::emit_canonical_header;
use super::paths::{model_key_for_ref, model_key_for_shape_ref};
use crate::authoring::{AuthoringSourceKind, DeclarationModel, GeneratedDeclarationKind};
use crate::authoring::fixture_compiler::{family_header_lines, manifest_header_lines};
use crate::text::{
    concat3, concat5, join_lines, joined, quoted_line, quoted_line_string, str_eq, string_of,
    LineBuffer,
};

verus! {

/// The first coverage section for `id`, or `-1`.
pub open spec fn coverage_index(entries: Seq<TopsoilCoverageEntry>, id: Seq<char>) -> int
    decreases entries.len(),
{
    if entries.len() == 0 {
        -1
    } else {
        let i = coverage_index(entries.drop_last(), id);
        if i >= 0 {
            i
        } else if entries.last().id@ == id {
            entries.len() - 1
        } else {
            -1
        }
    }
}

/// A coverage variant the family has no section for.
pub open spec fn coverage_failure(rel: Seq<char>, family: TopsoilFamilyDoc, id: Seq<char>) -> Option<
    SourceErrorModel,
> {
    if coverage_index(family.coverage@, id) < 0 {
        Some(invalid(rel, "missing [coverage."@ + id + "] section"@))
    } else {
        None
    }
}

/// The section of a coverage variant (meaningful where there is one).
pub open spec fn coverage_visual(family: TopsoilFamilyDoc, id: Seq<char>) -> TopsoilCoverageVisual {
    family.coverage@[coverage_index(family.coverage@, id)].visual
}

proof fn lemma_coverage_index_prefix(entries: Seq<TopsoilCoverageEntry>, k: int, id: Seq<char>)
    requires
        0 <= k <= entries.len(),
        coverage_index(entries.take(k), id) >= 0,
    ensures
        coverage_index(entries, id) == coverage_index(entries.take(k), id),
    decreases entries.len(),
{
    if k < entries.len() {
        assert(entries.drop_last().take(k) =~= entries.take(k));
        lemma_coverage_index_prefix(entries.drop_last(), k, id);
    } else {
        assert(entries.take(k) =~= entries);
    }
}

fn coverage_section<'a>(rel: &str, family: &'a TopsoilFamilyDoc, id: &str) -> (r: Result<
    &'a TopsoilCoverageVisual,
    SourceTreeCompileError,
>)
    ensures
        failure_of(r) == coverage_failure(rel@, *family, id@),
        r is Ok ==> *r->Ok_0 == coverage_visual(*family, id@),
{
    let entries = &family.coverage;
    let mut i: usize = 0;
    assert(entries@.take(0) =~= Seq::<TopsoilCoverageEntry>::empty());
    while i < entries.len()
        invariant
            0 <= i <= entries@.len(),
            entries@ == family.coverage@,
            coverage_index(entries@.take(i as int), id@) == -1,
        decreases entries.len() - i,
    {
        proof {
            assert(entries@.take(i + 1).drop_last() =~= entries@.take(i as int));
        }
        if str_eq(entries[i].id.as_str(), id) {
            proof {
                lemma_coverage_index_prefix(entries@, i + 1, id@);
            }
            return Ok(&entries[i].visual);
        }
        i = i + 1;
    }
    assert(entries@.take(entries@.len() as int) =~= entries@);
    Err(
        SourceTreeCompileError::Invalid {
            path: string_of(rel),
            message: concat3("missing [coverage.", id, "] section"),
        },
    )
}

/// The family key of a topsoil family.
pub open spec fn topsoil_family_key(code: Seq<char>) -> Seq<char> {
    "freven.vanilla:families/"@ + code + "_grass"@
}

/// The block of a fertility and coverage.
pub open spec fn soil_block_key(fertility: Seq<char>, coverage: Seq<char>) -> Seq<char> {
    "freven.vanilla:soil_"@ + fertility + "_"@ + coverage
}

/// The block shapes declared for one fertility: one per coverage.
pub open spec fn soil_shape_events_fn(rel: Seq<char>, coverage: Seq<WorldPropertyVariant>) -> spec_fn(
    WorldPropertyVariant,
) -> Seq<CompileEvent> {
    |f: WorldPropertyVariant|
        declare_all(
            coverage.map_values(
                |c: WorldPropertyVariant|
                    block_request(
                        GeneratedDeclarationKind::BlockShape,
                        soil_block_key(f.id@, c.id@),
                        rel,
                        "coverage.shape"@,
                    ),
            ),
        )
}

/// What one coverage variant does: its section must exist, then it declares
/// its visual and the family tags.
pub open spec fn coverage_events_fn(rel: Seq<char>, family: TopsoilFamilyDoc) -> spec_fn(
    WorldPropertyVariant,
) -> Seq<CompileEvent> {
    |c: WorldPropertyVariant|
        check(coverage_failure(rel, family, c.id@)) + declare_all(
            seq![
                block_request(
                    GeneratedDeclarationKind::BlockVisual,
                    coverage_visual(family, c.id@).visual@,
                    rel,
                    "coverage.visual"@,
                ),
            ] + tag_requests(family.tags@, rel, "templates.tags"@),
        )
}

/// The shape of a coverage variant must be loaded.
pub open spec fn coverage_shape_checks_fn(
    rel: Seq<char>,
    family: TopsoilFamilyDoc,
    shapes: Seq<Loaded<ShapeDoc>>,
) -> spec_fn(WorldPropertyVariant) -> Seq<CompileEvent> {
    |c: WorldPropertyVariant|
        check(coverage_failure(rel, family, c.id@)) + check(
            shape_ref_failure(shapes, coverage_visual(family, c.id@).shape@, rel),
        )
}

pub open spec fn shape_checks_fn(
    rel: Seq<char>,
    family: TopsoilFamilyDoc,
    coverage: Seq<WorldPropertyVariant>,
    shapes: Seq<Loaded<ShapeDoc>>,
) -> spec_fn(WorldPropertyVariant) -> Seq<CompileEvent> {
    |f: WorldPropertyVariant| concat_map(coverage, coverage_shape_checks_fn(rel, family, shapes))
}

/// What compiling a topsoil family does: one block shape per fertility and
/// coverage, the family and its material template, each coverage variant,
/// and a loaded shape for every block.
pub open spec fn topsoil_family_events(
    rel: Seq<char>,
    family: TopsoilFamilyDoc,
    fertility: Seq<WorldPropertyVariant>,
    coverage: Seq<WorldPropertyVariant>,
    shapes: Seq<Loaded<ShapeDoc>>,
) -> Seq<CompileEvent> {
    concat_map(fertility, soil_shape_events_fn(rel, coverage)) + declare_all(
        seq![
            block_request(
                GeneratedDeclarationKind::ContentFamily,
                topsoil_family_key(family.code@),
                rel,
                "family"@,
            ),
            block_request(
                GeneratedDeclarationKind::Material,
                family.templates.material.key@,
                rel,
                "templates.material"@,
            ),
        ],
    ) + concat_map(coverage, coverage_events_fn(rel, family)) + concat_map(
        fertility,
        shape_checks_fn(rel, family, coverage, shapes),
    )
}

pub open spec fn fertility_value_lines_fn() -> spec_fn(WorldPropertyVariant) -> Seq<Seq<char>> {
    |v: WorldPropertyVariant|
        seq![
            "[[families.axes.values]]"@,
            quoted_line("id = "@, v.id@),
            quoted_line("display = "@, v.display@),
        ] + opt_quoted_line("fallback_tint_rgba = "@, v.fallback_tint_rgba) + seq![""@]
}

pub open spec fn coverage_value_lines_fn() -> spec_fn(WorldPropertyVariant) -> Seq<Seq<char>> {
    |v: WorldPropertyVariant|
        seq![
            "[[families.axes.values]]"@,
            quoted_line("id = "@, v.id@),
            quoted_line("display = "@, v.display@),
        ] + opt_quoted_line("top_fallback_tint_rgba = "@, v.top_fallback_tint_rgba)
            + opt_quoted_line("side_fallback_tint_rgba = "@, v.side_fallback_tint_rgba) + seq![
            ""@,
        ]
}

pub open spec fn variant_tag_lines_fn(id: Seq<char>) -> spec_fn(String) -> Seq<Seq<char>> {
    |tag: String|
        seq![
            "[[families.templates.variants.tags]]"@,
            quoted_line("tag = "@, tag@),
            quoted_line("value = "@, "soil_{fertility}_"@ + id),
            ""@,
        ]
}

/// The per-face materials of a coverage visual, when it names any.
pub open spec fn visual_material_lines(v: TopsoilCoverageVisual) -> Seq<Seq<char>> {
    if v.bottom is Some || v.side is Some || v.top is Some {
        seq![""@, "[families.templates.variants.visual.materials]"@] + opt_quoted_line(
            "bottom = "@,
            v.bottom,
        ) + opt_quoted_line("side = "@, v.side) + opt_quoted_line("top = "@, v.top)
    } else {
        Seq::empty()
    }
}

/// The head of a coverage variant's template: covered soil gets grass
/// surface layers on its side and top faces.
pub open spec fn variant_head_lines(id: Seq<char>) -> Seq<Seq<char>> {
    seq!["[[families.templates.variants]]"@, quoted_line("coverage = "@, id), ""@] + (if id
        != "bare"@ {
        topsoil_surface_lines(id, "side"@) + topsoil_surface_lines(id, "top"@)
    } else {
        Seq::empty()
    })
}

/// The visual of a coverage variant: bare soil keeps its shape's model,
/// covered soil binds the layered topsoil overlay model.
pub open spec fn variant_visual_lines(v: TopsoilCoverageVisual, id: Seq<char>) -> Seq<Seq<char>> {
    seq![
        "[families.templates.variants.visual]"@,
        quoted_line("key = "@, v.visual@),
        quoted_line("target = "@, "soil_{fertility}_"@ + id),
        quoted_line(
            "model = "@,
            if id == "bare"@ {
                model_key_for_ref(v.shape@)
            } else {
                "freven.vanilla:models/block/topsoil_overlay"@
            },
        ),
    ] + opt_quoted_line("material = "@, v.material) + visual_material_lines(v) + seq![""@, ""@]
}

/// The template of one coverage variant.
pub open spec fn variant_lines(family: TopsoilFamilyDoc, id: Seq<char>) -> Seq<Seq<char>> {
    variant_head_lines(id) + variant_visual_lines(coverage_visual(family, id), id) + concat_map(
        family.tags@,
        variant_tag_lines_fn(id),
    )
}

pub open spec fn variant_lines_fn(family: TopsoilFamilyDoc) -> spec_fn(WorldPropertyVariant) -> Seq<
    Seq<char>,
> {
    |c: WorldPropertyVariant| variant_lines(family, c.id@)
}

pub open spec fn soil_shape_lines_fn(
    family: TopsoilFamilyDoc,
    shapes: Seq<Loaded<ShapeDoc>>,
    fertility_id: Seq<char>,
) -> spec_fn(WorldPropertyVariant) -> Seq<Seq<char>> {
    |c: WorldPropertyVariant|
        block_shape_lines(
            soil_block_key(fertility_id, c.id@),
            shape_for_ref(shapes, coverage_visual(family, c.id@).shape@),
            shape_for_ref(shapes, coverage_visual(family, c.id@).shape@).occludes,
        )
}

pub open spec fn soil_shapes_lines_fn(
    family: TopsoilFamilyDoc,
    coverage: Seq<WorldPropertyVariant>,
    shapes: Seq<Loaded<ShapeDoc>>,
) -> spec_fn(WorldPropertyVariant) -> Seq<Seq<char>> {
    |f: WorldPropertyVariant| concat_map(coverage, soil_shape_lines_fn(family, shapes, f.id@))
}

/// The axes and material template of a topsoil family.
pub open spec fn topsoil_head_lines(
    family: TopsoilFamilyDoc,
    fertility: Seq<WorldPropertyVariant>,
    coverage: Seq<WorldPropertyVariant>,
) -> Seq<Seq<char>> {
    manifest_header_lines() + family_header_lines(
        topsoil_family_key(family.code@),
        "Generated from freven.vanilla:blocktypes_v1 soil blocktype and worldproperty source."@,
        "fertility"@,
    ) + concat_map(fertility, fertility_value_lines_fn()) + seq![
        "[[families.axes]]"@,
        "name = \"coverage\""@,
        ""@,
    ] + concat_map(coverage, coverage_value_lines_fn()) + template_material_lines(
        family.templates.material,
    ) + seq![""@]
}

/// The lines of a topsoil family's file.
pub open spec fn topsoil_family_lines(
    family: TopsoilFamilyDoc,
    fertility: Seq<WorldPropertyVariant>,
    coverage: Seq<WorldPropertyVariant>,
    shapes: Seq<Loaded<ShapeDoc>>,
) -> Seq<Seq<char>> {
    topsoil_head_lines(family, fertility, coverage) + concat_map(coverage, variant_lines_fn(family))
        + concat_map(fertility, soil_shapes_lines_fn(family, coverage, shapes))
}

pub open spec fn topsoil_family_text(
    family: TopsoilFamilyDoc,
    fertility: Seq<WorldPropertyVariant>,
    coverage: Seq<WorldPropertyVariant>,
    shapes: Seq<Loaded<ShapeDoc>>,
) -> Seq<char> {
    join_lines(topsoil_family_lines(family, fertility, coverage, shapes))
}

impl SourceTreeCompiler {
    fn declare_fertility_shapes(
        &mut self,
        rel: &str,
        fertility: &WorldPropertyVariant,
        coverage: &Vec<WorldPropertyVariant>,
    ) -> (r: Result<(), SourceTreeCompileError>)
        requires
            old(self).wf(),
        ensures
            final(self).wf(),
            compiled(
                old(self)@,
                final(self)@,
                failure_of(r),
                soil_shape_events_fn(rel@, coverage@)(*fertility),
            ),
            final(self)@.files == old(self)@.files,
            final(self)@.tags == old(self)@.tags,
    {
        let ghost all = soil_shape_events_fn(rel@, coverage@)(*fertility);
        let mut i: usize = 0;
        proof {
            assert(all.take(0) =~= Seq::<CompileEvent>::empty());
            lemma_compiled_nothing(old(self)@, self@);
        }
        while i < coverage.len()
            invariant
                0 <= i <= coverage@.len(),
                all == soil_shape_events_fn(rel@, coverage@)(*fertility),
                all.len() == coverage@.len(),
                self.wf(),
                self@.files == old(self)@.files,
                self@.tags == old(self)@.tags,
                compiled(old(self)@, self@, None, all.take(i as int)),
            decreases coverage.len() - i,
        {
            let ghost mid = self@;
            let r = self.declare(
                GeneratedDeclarationKind::BlockShape,
                concat5(
                    "freven.vanilla:soil_",
                    fertility.id.as_str(),
                    "_",
                    coverage[i].id.as_str(),
                    "",
                ),
                rel,
                AuthoringSourceKind::Blocktype,
                "coverage.shape",
            );
            proof {
                reveal_strlit("");
                assert(all[i as int] == CompileEvent::Declare(
                    block_request(
                        GeneratedDeclarationKind::BlockShape,
                        soil_block_key(fertility.id@, coverage@[i as int].id@),
                        rel@,
                        "coverage.shape"@,
                    ),
                ));
                assert(soil_block_key(fertility.id@, coverage@[i as int].id@) =~= "freven.vanilla:soil_"@
                    + fertility.id@ + "_"@ + coverage@[i as int].id@ + ""@);
                assert(all.take(i + 1) =~= all.take(i as int) + seq![all[i as int]]);
                lemma_compiled_chain(old(self)@, mid, self@, failure_of(r), all.take(i as int), seq![all[i as int]]);
            }
            if let Err(e) = r {
                proof {
                    assert(all =~= all.take(i + 1) + all.skip(i + 1));
                    lemma_compiled_fail_prefix(old(self)@, self@, e@, all.take(i + 1), all.skip(i + 1));
                }
                return Err(e);
            }
            i = i + 1;
        }
        assert(all.take(coverage@.len() as int) =~= all);
        Ok(())
    }

    fn declare_soil_shapes(
        &mut self,
        rel: &str,
        fertility: &Vec<WorldPropertyVariant>,
        coverage: &Vec<WorldPropertyVariant>,
    ) -> (r: Result<(), SourceTreeCompileError>)
        requires
            old(self).wf(),
        ensures
            final(self).wf(),
            compiled(
                old(self)@,
                final(self)@,
                failure_of(r),
                concat_map(fertility@, soil_shape_events_fn(rel@, coverage@)),
            ),
            final(self)@.files == old(self)@.files,
            final(self)@.tags == old(self)@.tags,
    {
        let ghost f = soil_shape_events_fn(rel@, coverage@);
        let mut i: usize = 0;
        proof {
            lemma_concat_map_whole(fertility@, f);
            lemma_compiled_nothing(old(self)@, self@);
        }
        while i < fertility.len()
            invariant
                0 <= i <= fertility@.len(),
                f == soil_shape_events_fn(rel@, coverage@),
                self.wf(),
                self@.files == old(self)@.files,
                self@.tags == old(self)@.tags,
                compiled(old(self)@, self@, None, concat_map(fertility@.take(i as int), f)),
            decreases fertility.len() - i,
        {
            let ghost mid = self@;
            let r = self.declare_fertility_shapes(rel, &fertility[i], coverage);
            proof {
                lemma_compiled_items_step(old(self)@, mid, self@, fertility@, f, i as int, failure_of(r));
            }
            if let Err(e) = r {
                return Err(e);
            }
            i = i + 1;
        }
        proof {
            lemma_concat_map_whole(fertility@, f);
        }
        Ok(())
    }

    /// Compiles one coverage variant of a topsoil family.
    fn compile_soil_variant(
        &mut self,
        rel: &str,
        family: &TopsoilFamilyDoc,
        coverage: &WorldPropertyVariant,
        out: &mut LineBuffer,
    ) -> (r: Result<(), SourceTreeCompileError>)
        requires
            old(self).wf(),
            old(out).wf(),
        ensures
            final(self).wf(),
            final(out).wf(),
            compiled(old(self)@, final(self)@, failure_of(r), coverage_events_fn(rel@, *family)(*coverage)),
            final(self)@.files == old(self)@.files,
            final(self)@.tags == old(self)@.tags,
            r is Ok ==> final(out).lines() == old(out).lines() + variant_lines(*family, coverage.id@),
    {
        let id = coverage.id.as_str();
        let ghost s0 = self@;
        let ghost c = check(coverage_failure(rel@, *family, id@));
        let visual = match coverage_section(rel, family, id) {
            Ok(v) => v,
            Err(e) => {
                proof {
                    super::lemma_fail_first(s0.declarations, e@);
                    assert(c =~= seq![CompileEvent::Fail(e@)]);
                    lemma_compiled_fail_prefix(s0, self@, e@, c, coverage_events_fn(rel@, *family)(*coverage).skip(1));
                    assert(coverage_events_fn(rel@, *family)(*coverage) =~= c + coverage_events_fn(rel@, *family)(*coverage).skip(1));
                }
                return Err(e);
            },
        };
        let ghost ev = seq![CompileEvent::Declare(block_request(GeneratedDeclarationKind::BlockVisual, visual.visual@, rel@, "coverage.visual"@))];
        let ghost et = declare_all(tag_requests(family.tags@, rel@, "templates.tags"@));
        proof {
            assert(c =~= Seq::<CompileEvent>::empty());
            assert(coverage_events_fn(rel@, *family)(*coverage) =~= c + (ev + et));
            assert(c + (ev + et) =~= ev + et);
        }
        let r = self.declare(
            GeneratedDeclarationKind::BlockVisual,
            visual.visual.clone(),
            rel,
            AuthoringSourceKind::Blocktype,
            "coverage.visual",
        );
        if let Err(e) = r {
            proof { lemma_compiled_fail_prefix(s0, self@, e@, ev, et); }
            return Err(e);
        }
        let ghost s1 = self@;
        let r = self.declare_tags(&family.tags, rel, "templates.tags");
        proof { lemma_compiled_chain(s0, s1, self@, failure_of(r), ev, et); }
        if let Err(e) = r {
            return Err(e);
        }
        emit_soil_variant(out, family, id, visual);
        Ok(())
    }

    /// Checks the shapes of the coverage variants of one fertility and writes
    /// their block shapes.
    fn emit_fertility_shapes(
        &mut self,
        rel: &str,
        family: &TopsoilFamilyDoc,
        fertility: &WorldPropertyVariant,
        coverage: &Vec<WorldPropertyVariant>,
        shapes: &Vec<Loaded<ShapeDoc>>,
        out: &mut LineBuffer,
    ) -> (r: Result<(), SourceTreeCompileError>)
        requires
            old(self).wf(),
            old(out).wf(),
        ensures
            *final(self) == *old(self),
            final(out).wf(),
            compiled(
                old(self)@,
                final(self)@,
                failure_of(r),
                shape_checks_fn(rel@, *family, coverage@, shapes@)(*fertility),
            ),
            r is Ok ==> final(out).lines() == old(out).lines() + soil_shapes_lines_fn(
                *family,
                coverage@,
                shapes@,
            )(*fertility),
    {
        let ghost fc = coverage_shape_checks_fn(rel@, *family, shapes@);
        let ghost fl = soil_shape_lines_fn(*family, shapes@, fertility.id@);
        let ghost start = out.lines();
        let mut i: usize = 0;
        proof {
            lemma_concat_map_whole(coverage@, fc);
            lemma_concat_map_whole(coverage@, fl);
            lemma_compiled_nothing(self@, self@);
            assert(start =~= start + concat_map(coverage@.take(0), fl));
        }
        while i < coverage.len()
            invariant
                0 <= i <= coverage@.len(),
                fc == coverage_shape_checks_fn(rel@, *family, shapes@),
                fl == soil_shape_lines_fn(*family, shapes@, fertility.id@),
                *self == *old(self),
                out.wf(),
                compiled(old(self)@, self@, None, concat_map(coverage@.take(i as int), fc)),
                out.lines() == start + concat_map(coverage@.take(i as int), fl),
            decreases coverage.len() - i,
        {
            let c = &coverage[i];
            let ghost c1 = check(coverage_failure(rel@, *family, c.id@));
            let ghost step = fc(*c);
            let visual = match coverage_section(rel, family, c.id.as_str()) {
                Ok(v) => v,
                Err(e) => {
                    proof {
                        super::lemma_fail_first(self@.declarations, e@);
                        assert(c1 =~= seq![CompileEvent::Fail(e@)]);
                        assert(step =~= c1 + step.skip(1));
                        lemma_compiled_fail_prefix(self@, self@, e@, c1, step.skip(1));
                        lemma_compiled_items_step(old(self)@, self@, self@, coverage@, fc, i as int, Some(e@));
                    }
                    return Err(e);
                },
            };
            let ghost c2 = check(shape_ref_failure(shapes@, visual.shape@, rel@));
            proof {
                assert(c1 =~= Seq::<CompileEvent>::empty());
                assert(step =~= c1 + c2);
                assert(c1 + c2 =~= c2);
            }
            let shape = match shape_doc_for_ref(shapes, visual.shape.as_str(), rel) {
                Ok(s) => s,
                Err(e) => {
                    proof {
                        super::lemma_fail_first(self@.declarations, e@);
                        assert(c2 =~= seq![CompileEvent::Fail(e@)]);
                        lemma_compiled_items_step(old(self)@, self@, self@, coverage@, fc, i as int, Some(e@));
                    }
                    return Err(e);
                },
            };
            proof {
                assert(c2 =~= Seq::<CompileEvent>::empty());
                lemma_compiled_nothing(self@, self@);
                lemma_compiled_items_step(old(self)@, self@, self@, coverage@, fc, i as int, None);
            }
            emit_block_shape(
                out,
                concat5("freven.vanilla:soil_", fertility.id.as_str(), "_", c.id.as_str(), "").as_str(),
                shape,
                shape.occludes,
            );
            proof {
                reveal_strlit("");
                assert(soil_block_key(fertility.id@, c.id@) =~= "freven.vanilla:soil_"@
                    + fertility.id@ + "_"@ + c.id@ + ""@);
                lemma_concat_map_take_step(coverage@, fl, i as int);
            }
            i = i + 1;
        }
        proof {
            lemma_concat_map_whole(coverage@, fc);
            lemma_concat_map_whole(coverage@, fl);
        }
        Ok(())
    }
}

fn emit_variant_head(out: &mut LineBuffer, id: &str)
    requires
        old(out).wf(),
    ensures
        final(out).wf(),
        final(out).lines() == old(out).lines() + variant_head_lines(id@),
{
    out.push("[[families.templates.variants]]");
    out.push(quoted_line_string("coverage = ", id).as_str());
    out.push("");
    if !str_eq(id, "bare") {
        emit_topsoil_surface_material_template(out, id, "side");
        emit_topsoil_surface_material_template(out, id, "top");
    }
    assert(out.lines() =~= old(out).lines() + variant_head_lines(id@));
}

fn emit_visual_materials(out: &mut LineBuffer, visual: &TopsoilCoverageVisual)
    requires
        old(out).wf(),
    ensures
        final(out).wf(),
        final(out).lines() == old(out).lines() + visual_material_lines(*visual),
{
    if visual.bottom.is_some() || visual.side.is_some() || visual.top.is_some() {
        out.push("");
        out.push("[families.templates.variants.visual.materials]");
        emit_opt_quoted_line(out, "bottom = ", &visual.bottom);
        emit_opt_quoted_line(out, "side = ", &visual.side);
        emit_opt_quoted_line(out, "top = ", &visual.top);
    }
    assert(out.lines() =~= old(out).lines() + visual_material_lines(*visual));
}

fn emit_variant_visual(out: &mut LineBuffer, visual: &TopsoilCoverageVisual, id: &str)
    requires
        old(out).wf(),
    ensures
        final(out).wf(),
        final(out).lines() == old(out).lines() + variant_visual_lines(*visual, id@),
{
    let model_key = if str_eq(id, "bare") {
        model_key_for_shape_ref(visual.shape.as_str())
    } else {
        string_of("freven.vanilla:models/block/topsoil_overlay")
    };
    let ghost head = seq![
        "[families.templates.variants.visual]"@,
        quoted_line("key = "@, visual.visual@),
        quoted_line("target = "@, "soil_{fertility}_"@ + id@),
        quoted_line("model = "@, model_key@),
    ];
    assert(variant_visual_lines(*visual, id@) == head + opt_quoted_line("material = "@, visual.material) + visual_material_lines(*visual) + seq![""@, ""@]);
    out.push("[families.templates.variants.visual]");
    out.push(quoted_line_string("key = ", visual.visual.as_str()).as_str());
    out.push(quoted_line_string("target = ", joined("soil_{fertility}_", id).as_str()).as_str());
    out.push(quoted_line_string("model = ", model_key.as_str()).as_str());
    assert(out.lines() =~= old(out).lines() + head);
    let ghost a = out.lines();
    emit_opt_quoted_line(out, "material = ", &visual.material);
    emit_visual_materials(out, visual);
    out.push("");
    out.push("");
    assert(out.lines() =~= a + opt_quoted_line("material = "@, visual.material) + visual_material_lines(*visual) + seq![""@, ""@]);
}

fn emit_soil_variant(
    out: &mut LineBuffer,
    family: &TopsoilFamilyDoc,
    id: &str,
    visual: &TopsoilCoverageVisual,
)
    requires
        old(out).wf(),
        *visual == coverage_visual(*family, id@),
    ensures
        final(out).wf(),
        final(out).lines() == old(out).lines() + variant_lines(*family, id@),
{
    emit_variant_head(out, id);
    emit_variant_visual(out, visual, id);
    let ghost d = out.lines();
    let ghost ft = variant_tag_lines_fn(id@);
    let mut t: usize = 0;
    proof {
        lemma_concat_map_whole(family.tags@, ft);
        assert(d =~= d + concat_map(family.tags@.take(0), ft));
    }
    while t < family.tags.len()
        invariant
            0 <= t <= family.tags@.len(),
            ft == variant_tag_lines_fn(id@),
            out.wf(),
            out.lines() == d + concat_map(family.tags@.take(t as int), ft),
        decreases family.tags.len() - t,
    {
        out.push("[[families.templates.variants.tags]]");
        out.push(quoted_line_string("tag = ", family.tags[t].as_str()).as_str());
        out.push(quoted_line_string("value = ", joined("soil_{fertility}_", id).as_str()).as_str());
        out.push("");
        proof {
            lemma_concat_map_take_step(family.tags@, ft, t as int);
        }
        t = t + 1;
    }
    proof {
        lemma_concat_map_whole(family.tags@, ft);
    }
    assert(out.lines() =~= old(out).lines() + variant_lines(*family, id@));
}

fn emit_fertility_values(out: &mut LineBuffer, values: &Vec<WorldPropertyVariant>)
    requires
        old(out).wf(),
    ensures
        final(out).wf(),
        final(out).lines() == old(out).lines() + concat_map(values@, fertility_value_lines_fn()),
{
    let ghost f = fertility_value_lines_fn();
    let mut i: usize = 0;
    proof {
        lemma_concat_map_whole(values@, f);
        assert(out.lines() =~= old(out).lines() + concat_map(values@.take(0), f));
    }
    while i < values.len()
        invariant
            0 <= i <= values@.len(),
            f == fertility_value_lines_fn(),
            out.wf(),
            out.lines() == old(out).lines() + concat_map(values@.take(i as int), f),
        decreases values.len() - i,
    {
        let v = &values[i];
        let ghost before = out.lines();
        out.push("[[families.axes.values]]");
        out.push(quoted_line_string("id = ", v.id.as_str()).as_str());
        out.push(quoted_line_string("display = ", v.display.as_str()).as_str());
        emit_opt_quoted_line(out, "fallback_tint_rgba = ", &v.fallback_tint_rgba);
        out.push("");
        proof {
            assert(out.lines() =~= before + f(*v));
            lemma_concat_map_take_step(values@, f, i as int);
        }
        i = i + 1;
    }
    proof {
        lemma_concat_map_whole(values@, f);
    }
}

fn emit_coverage_values(out: &mut LineBuffer, values: &Vec<WorldPropertyVariant>)
    requires
        old(out).wf(),
    ensures
        final(out).wf(),
        final(out).lines() == old(out).lines() + concat_map(values@, coverage_value_lines_fn()),
{
    let ghost f = coverage_value_lines_fn();
    let mut i: usize = 0;
    proof {
        lemma_concat_map_whole(values@, f);
        assert(out.lines() =~= old(out).lines() + concat_map(values@.take(0), f));
    }
    while i < values.len()
        invariant
            0 <= i <= values@.len(),
            f == coverage_value_lines_fn(),
            out.wf(),
            out.lines() == old(out).lines() + concat_map(values@.take(i as int), f),
        decreases values.len() - i,
    {
        let v = &values[i];
        let ghost before = out.lines();
        out.push("[[families.axes.values]]");
        out.push(quoted_line_string("id = ", v.id.as_str()).as_str());
        out.push(quoted_line_string("display = ", v.display.as_str()).as_str());
        emit_opt_quoted_line(out, "top_fallback_tint_rgba = ", &v.top_fallback_tint_rgba);
        emit_opt_quoted_line(out, "side_fallback_tint_rgba = ", &v.side_fallback_tint_rgba);
        out.push("");
        proof {
            assert(out.lines() =~= before + f(*v));
            lemma_concat_map_take_step(values@, f, i as int);
        }
        i = i + 1;
    }
    proof {
        lemma_concat_map_whole(values@, f);
    }
}

fn emit_topsoil_head(
    out: &mut LineBuffer,
    family: &TopsoilFamilyDoc,
    fertility: &Vec<WorldPropertyVariant>,
    coverage: &Vec<WorldPropertyVariant>,
)
    requires
        old(out).wf(),
        old(out).lines() == Seq::<Seq<char>>::empty(),
    ensures
        final(out).wf(),
        final(out).lines() == topsoil_head_lines(*family, fertility@, coverage@),
{
    emit_canonical_header(out);
    emit_family_header(
        out,
        concat3("freven.vanilla:families/", family.code.as_str(), "_grass").as_str(),
        "Generated from freven.vanilla:blocktypes_v1 soil blocktype and worldproperty source.",
        "fertility",
    );
    emit_fertility_values(out, fertility);
    out.push("[[families.axes]]");
    out.push("name = \"coverage\"");
    out.push("");
    emit_coverage_values(out, coverage);
    emit_template_material(out, &family.templates.material);
    out.push("");
    assert(out.lines() =~= topsoil_head_lines(*family, fertility@, coverage@));
}

impl SourceTreeCompiler {
    fn declare_topsoil_templates(&mut self, rel: &str, family: &TopsoilFamilyDoc) -> (r: Result<
        (),
        SourceTreeCompileError,
    >)
        requires
            old(self).wf(),
        ensures
            final(self).wf(),
            compiled(
                old(self)@,
                final(self)@,
                failure_of(r),
                declare_all(
                    seq![
                        block_request(
                            GeneratedDeclarationKind::ContentFamily,
                            topsoil_family_key(family.code@),
                            rel@,
                            "family"@,
                        ),
                        block_request(
                            GeneratedDeclarationKind::Material,
                            family.templates.material.key@,
                            rel@,
                            "templates.material"@,
                        ),
                    ],
                ),
            ),
            final(self)@.files == old(self)@.files,
            final(self)@.tags == old(self)@.tags,
    {
        let fkey = concat3("freven.vanilla:families/", family.code.as_str(), "_grass");
        let ghost e1 = seq![CompileEvent::Declare(block_request(GeneratedDeclarationKind::ContentFamily, fkey@, rel@, "family"@))];
        let ghost e2 = seq![CompileEvent::Declare(block_request(GeneratedDeclarationKind::Material, family.templates.material.key@, rel@, "templates.material"@))];
        let ghost s0 = self@;
        proof {
            assert(declare_all(
                seq![
                    block_request(
                        GeneratedDeclarationKind::ContentFamily,
                        topsoil_family_key(family.code@),
                        rel@,
                        "family"@,
                    ),
                    block_request(
                        GeneratedDeclarationKind::Material,
                        family.templates.material.key@,
                        rel@,
                        "templates.material"@,
                    ),
                ],
            ) =~= e1 + e2);
        }
        let r = self.declare(GeneratedDeclarationKind::ContentFamily, fkey, rel, AuthoringSourceKind::Blocktype, "family");
        if let Err(e) = r {
            proof { lemma_compiled_fail_prefix(s0, self@, e@, e1, e2); }
            return Err(e);
        }
        let ghost s1 = self@;
        let r = self.declare(
            GeneratedDeclarationKind::Material,
            family.templates.material.key.clone(),
            rel,
            AuthoringSourceKind::Blocktype,
            "templates.material",
        );
        proof { lemma_compiled_chain(s0, s1, self@, failure_of(r), e1, e2); }
        r
    }

    fn compile_soil_variants(
        &mut self,
        rel: &str,
        family: &TopsoilFamilyDoc,
        coverage: &Vec<WorldPropertyVariant>,
        out: &mut LineBuffer,
    ) -> (r: Result<(), SourceTreeCompileError>)
        requires
            old(self).wf(),
            old(out).wf(),
        ensures
            final(self).wf(),
            final(out).wf(),
            compiled(
                old(self)@,
                final(self)@,
                failure_of(r),
                concat_map(coverage@, coverage_events_fn(rel@, *family)),
            ),
            final(self)@.files == old(self)@.files,
            final(self)@.tags == old(self)@.tags,
            r is Ok ==> final(out).lines() == old(out).lines() + concat_map(
                coverage@,
                variant_lines_fn(*family),
            ),
    {
        let ghost fe = coverage_events_fn(rel@, *family);
        let ghost fl = variant_lines_fn(*family);
        let mut i: usize = 0;
        proof {
            lemma_concat_map_whole(coverage@, fe);
            lemma_concat_map_whole(coverage@, fl);
            lemma_compiled_nothing(old(self)@, self@);
            assert(out.lines() =~= old(out).lines() + concat_map(coverage@.take(0), fl));
        }
        while i < coverage.len()
            invariant
                0 <= i <= coverage@.len(),
                fe == coverage_events_fn(rel@, *family),
                fl == variant_lines_fn(*family),
                self.wf(),
                out.wf(),
                self@.files == old(self)@.files,
                self@.tags == old(self)@.tags,
                compiled(old(self)@, self@, None, concat_map(coverage@.take(i as int), fe)),
                out.lines() == old(out).lines() + concat_map(coverage@.take(i as int), fl),
            decreases coverage.len() - i,
        {
            let ghost mid = self@;
            let r = self.compile_soil_variant(rel, family, &coverage[i], out);
            proof {
                lemma_compiled_items_step(old(self)@, mid, self@, coverage@, fe, i as int, failure_of(r));
                lemma_concat_map_take_step(coverage@, fl, i as int);
            }
            if let Err(e) = r {
                return Err(e);
            }
            i = i + 1;
        }
        proof {
            lemma_concat_map_whole(coverage@, fe);
            lemma_concat_map_whole(coverage@, fl);
        }
        Ok(())
    }

    fn emit_soil_shapes(
        &mut self,
        rel: &str,
        family: &TopsoilFamilyDoc,
        fertility: &Vec<WorldPropertyVariant>,
        coverage: &Vec<WorldPropertyVariant>,
        shapes: &Vec<Loaded<ShapeDoc>>,
        out: &mut LineBuffer,
    ) -> (r: Result<(), SourceTreeCompileError>)
        requires
            old(self).wf(),
            old(out).wf(),
        ensures
            *final(self) == *old(self),
            final(out).wf(),
            compiled(
                old(self)@,
                final(self)@,
                failure_of(r),
                concat_map(fertility@, shape_checks_fn(rel@, *family, coverage@, shapes@)),
            ),
            r is Ok ==> final(out).lines() == old(out).lines() + concat_map(
                fertility@,
                soil_shapes_lines_fn(*family, coverage@, shapes@),
            ),
    {
        let ghost fe = shape_checks_fn(rel@, *family, coverage@, shapes@);
        let ghost fl = soil_shapes_lines_fn(*family, coverage@, shapes@);
        let mut k: usize = 0;
        proof {
            lemma_concat_map_whole(fertility@, fe);
            lemma_concat_map_whole(fertility@, fl);
            lemma_compiled_nothing(self@, self@);
            assert(out.lines() =~= old(out).lines() + concat_map(fertility@.take(0), fl));
        }
        while k < fertility.len()
            invariant
                0 <= k <= fertility@.len(),
                fe == shape_checks_fn(rel@, *family, coverage@, shapes@),
                fl == soil_shapes_lines_fn(*family, coverage@, shapes@),
                self.wf(),
                out.wf(),
                *self == *old(self),
                compiled(old(self)@, self@, None, concat_map(fertility@.take(k as int), fe)),
                out.lines() == old(out).lines() + concat_map(fertility@.take(k as int), fl),
            decreases fertility.len() - k,
        {
            let ghost mid = self@;
            let r = self.emit_fertility_shapes(rel, family, &fertility[k], coverage, shapes, out);
            proof {
                lemma_compiled_items_step(old(self)@, mid, self@, fertility@, fe, k as int, failure_of(r));
                lemma_concat_map_take_step(fertility@, fl, k as int);
            }
            if let Err(e) = r {
                return Err(e);
            }
            k = k + 1;
        }
        proof {
            lemma_concat_map_whole(fertility@, fe);
            lemma_concat_map_whole(fertility@, fl);
        }
        Ok(())
    }

    /// Declares and writes a topsoil family over its fertility and coverage
    /// variants.
    pub fn compile_topsoil_family(
        &mut self,
        rel: &str,
        family: &TopsoilFamilyDoc,
        fertility: &Vec<WorldPropertyVariant>,
        coverage: &Vec<WorldPropertyVariant>,
        shapes: &Vec<Loaded<ShapeDoc>>,
    ) -> (r: Result<String, SourceTreeCompileError>)
        requires
            old(self).wf(),
        ensures
            final(self).wf(),
            compiled(
                old(self)@,
                final(self)@,
                failure_of(r),
                topsoil_family_events(rel@, *family, fertility@, coverage@, shapes@),
            ),
            final(self)@.files == old(self)@.files,
            final(self)@.tags == old(self)@.tags,
            r is Ok ==> r->Ok_0@ == topsoil_family_text(*family, fertility@, coverage@, shapes@),
    {
        let ghost s0 = self@;
        let ghost e1 = concat_map(fertility@, soil_shape_events_fn(rel@, coverage@));
        let ghost e2 = declare_all(
            seq![
                block_request(
                    GeneratedDeclarationKind::ContentFamily,
                    topsoil_family_key(family.code@),
                    rel@,
                    "family"@,
                ),
                block_request(
                    GeneratedDeclarationKind::Material,
                    family.templates.material.key@,
                    rel@,
                    "templates.material"@,
                ),
            ],
        );
        let ghost e3 = concat_map(coverage@, coverage_events_fn(rel@, *family));
        let ghost e4 = concat_map(fertility@, shape_checks_fn(rel@, *family, coverage@, shapes@));
        proof {
            assert(topsoil_family_events(rel@, *family, fertility@, coverage@, shapes@) == e1 + e2 + e3 + e4);
        }
        let r = self.declare_soil_shapes(rel, fertility, coverage);
        if let Err(e) = r {
            proof { lemma_compiled_fail_prefix(s0, self@, e@, e1, e2 + e3 + e4); assert(e1 + (e2 + e3 + e4) =~= e1 + e2 + e3 + e4); }
            return Err(e);
        }
        let ghost s1 = self@;
        let r = self.declare_topsoil_templates(rel, family);
        proof { lemma_compiled_chain(s0, s1, self@, failure_of(r), e1, e2); }
        if let Err(e) = r {
            proof { lemma_compiled_fail_prefix(s0, self@, e@, e1 + e2, e3 + e4); assert(e1 + e2 + (e3 + e4) =~= e1 + e2 + e3 + e4); }
            return Err(e);
        }
        let ghost s2 = self@;
        let mut out = LineBuffer::new();
        emit_topsoil_head(&mut out, family, fertility, coverage);
        let r = self.compile_soil_variants(rel, family, coverage, &mut out);
        proof { lemma_compiled_chain(s0, s2, self@, failure_of(r), e1 + e2, e3); }
        if let Err(e) = r {
            proof { lemma_compiled_fail_prefix(s0, self@, e@, e1 + e2 + e3, e4); }
            return Err(e);
        }
        let ghost s3 = self@;
        let r = self.emit_soil_shapes(rel, family, fertility, coverage, shapes, &mut out);
        proof { lemma_compiled_chain(s0, s3, self@, failure_of(r), e1 + e2 + e3, e4); }
        if let Err(e) = r {
            return Err(e);
        }
        assert(out.lines() =~= topsoil_family_lines(*family, fertility@, coverage@, shapes@));
        Ok(out.into_string())
    }
}

} // verus!
