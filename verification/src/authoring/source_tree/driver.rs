//! The steps of a source-tree compilation, in the order the tree is read:
//! world properties and block headers are checked as they are loaded, the
//! shapes become the models file, and every block-type source becomes its
//! own file.

use vstd::prelude::*;
use super::{
    check, compiled, failure_of, file_model, invalid, lemma_compiled_chain,
    lemma_compiled_fail_prefix, lemma_compiled_nothing, lemma_fail_first, profile_failure,
    shape_doc_for_ref, shape_for_ref, shape_ref_failure, stored_file, tags_after,
    validate_profile, CompileEvent, SourceErrorModel, SourceTreeCompileError,
    SourceTreeCompiler, declare_all,
};
use super::blocks::{cube_block_requests, cube_block_text, face_block_requests, face_block_text};
use super::docs::{
    BlockDoc, CubeBlockDoc, FaceBlockDoc, Loaded, ShapeDoc, SourceHeader, TopsoilFamilyDoc,
    VariantFamilyDoc, WorldPropertyDoc, WorldPropertyVariant,
};
use super::families::{rock_family_events, rock_family_text};
use super::files::{canonical_manifest, inserted_after_equal_paths, sorted_by_path};
use super::models::{emit_canonical_header, models_text, shape_events_fn};
use super::paths::{join_path, normalize_rel, normalized_rel, path_join};
use super::tags::{index_ascending, tag_tables_lines, TagIndex};
use super::topsoil::{topsoil_family_events, topsoil_family_text};
use super::concat_map;
use crate::authoring::{
    decl_models, CompiledVanillaProfile, GeneratedFile, CANONICAL_MANIFEST_SCHEMA,
    VANILLA_BLOCKTYPES_PROFILE_V1,
};
use crate::authoring::fixture_compiler::manifest_header_lines;
use crate::text::{
    concat3, concat5, is_unicode_whitespace, join_lines, joined, str_eq, string_of, LineBuffer,
};
use vstd::string::StrSliceExecFns;

verus! {

/// A world-property source as read, with the stem of its file name when it
/// is valid text.
#[derive(Debug, Clone)]
pub struct LoadedWorldProperty {
    pub rel: String,
    pub path: String,
    pub file_stem: Option<String>,
    pub doc: WorldPropertyDoc,
}

/// The first failure `f` finds among `items`.
pub open spec fn first_failure<T>(items: Seq<T>, f: spec_fn(T) -> Option<SourceErrorModel>) -> Option<
    SourceErrorModel,
>
    decreases items.len(),
{
    if items.len() == 0 {
        None
    } else {
        match first_failure(items.drop_last(), f) {
            Some(e) => Some(e),
            None => f(items.last()),
        }
    }
}

proof fn lemma_first_failure_step<T>(
    items: Seq<T>,
    f: spec_fn(T) -> Option<SourceErrorModel>,
    i: int,
)
    requires
        0 <= i < items.len(),
        first_failure(items.take(i), f) is None,
    ensures
        first_failure(items.take(i + 1), f) == f(items[i]),
        f(items[i]) is Some ==> first_failure(items, f) == f(items[i]),
    decreases items.len(),
{
    assert(items.take(i + 1).drop_last() =~= items.take(i));
    assert(items.take(i + 1).last() == items[i]);
    if f(items[i]) is Some {
        lemma_first_failure_prefix(items, f, i + 1);
    }
}

proof fn lemma_first_failure_prefix<T>(items: Seq<T>, f: spec_fn(T) -> Option<SourceErrorModel>, k: int)
    requires
        0 <= k <= items.len(),
        first_failure(items.take(k), f) is Some,
    ensures
        first_failure(items, f) == first_failure(items.take(k), f),
    decreases items.len(),
{
    if k < items.len() {
        assert(items.drop_last().take(k) =~= items.take(k));
        lemma_first_failure_prefix(items.drop_last(), f, k);
    } else {
        assert(items.take(k) =~= items);
    }
}

/// A world-property source declares this profile and the `worldproperty`
/// kind, and its code is the stem of its file name.
pub open spec fn worldproperty_failure(w: LoadedWorldProperty) -> Option<SourceErrorModel> {
    match profile_failure(w.path@, w.doc.profile@, w.doc.kind@, "worldproperty"@) {
        Some(e) => Some(e),
        None => match w.file_stem {
            None => Some(invalid(w.path@, "worldproperty source must have a valid file stem"@)),
            Some(stem) => if w.doc.code@ != stem@ {
                Some(
                    invalid(
                        w.path@,
                        "worldproperty code '"@ + w.doc.code@ + "' must match file stem '"@
                            + stem@ + "'"@,
                    ),
                )
            } else {
                None
            },
        },
    }
}

pub open spec fn worldproperty_failure_fn() -> spec_fn(LoadedWorldProperty) -> Option<SourceErrorModel> {
    |w: LoadedWorldProperty| worldproperty_failure(w)
}

/// Checks every loaded world property, in order; the checked ones keep their
/// paths and documents.
pub fn validate_worldproperties(loaded: Vec<LoadedWorldProperty>) -> (r: Result<
    Vec<Loaded<WorldPropertyDoc>>,
    SourceTreeCompileError,
>)
    ensures
        failure_of(r) == first_failure(loaded@, worldproperty_failure_fn()),
        r is Ok ==> r->Ok_0@.len() == loaded@.len() && forall|i: int|
            0 <= i < loaded@.len() ==> (#[trigger] r->Ok_0@[i]).rel == loaded@[i].rel
                && r->Ok_0@[i].path == loaded@[i].path && r->Ok_0@[i].doc == loaded@[i].doc,
{
    let ghost f = worldproperty_failure_fn();
    let mut i: usize = 0;
    assert(loaded@.take(0) =~= Seq::<LoadedWorldProperty>::empty());
    while i < loaded.len()
        invariant
            0 <= i <= loaded@.len(),
            f == worldproperty_failure_fn(),
            first_failure(loaded@.take(i as int), f) is None,
        decreases loaded.len() - i,
    {
        let w = &loaded[i];
        proof {
            lemma_first_failure_step(loaded@, f, i as int);
        }
        validate_profile(w.path.as_str(), w.doc.profile.as_str(), w.doc.kind.as_str(), "worldproperty")?;
        let stem = match &w.file_stem {
            Some(stem) => stem,
            None => {
                return Err(
                    SourceTreeCompileError::Invalid {
                        path: w.path.clone(),
                        message: string_of("worldproperty source must have a valid file stem"),
                    },
                );
            },
        };
        if !str_eq(w.doc.code.as_str(), stem.as_str()) {
            let message = concat5(
                "worldproperty code '",
                w.doc.code.as_str(),
                "' must match file stem '",
                stem.as_str(),
                "'",
            );
            return Err(SourceTreeCompileError::Invalid { path: w.path.clone(), message });
        }
        i = i + 1;
    }
    assert(loaded@.take(loaded@.len() as int) =~= loaded@);
    let ghost all = loaded@;
    let mut rest = loaded;
    let mut out: Vec<Loaded<WorldPropertyDoc>> = Vec::new();
    while rest.len() > 0
        invariant
            out@.len() + rest@.len() == all.len(),
            rest@ == all.skip(out@.len() as int),
            forall|j: int|
                0 <= j < out@.len() ==> (#[trigger] out@[j]).rel == all[j].rel && out@[j].path
                    == all[j].path && out@[j].doc == all[j].doc,
        decreases rest.len(),
    {
        let ghost k = out@.len() as int;
        let w = rest.remove(0);
        proof {
            assert(w == all[k]);
            assert(rest@ =~= all.skip(k + 1));
        }
        out.push(Loaded { rel: w.rel, path: w.path, doc: w.doc });
        proof {
            assert(out@[k].doc == all[k].doc);
        }
    }
    Ok(out)
}

/// The last loaded world property with this path, or `-1` (a later source
/// with the same path replaces an earlier one).
pub open spec fn worldproperty_index(wps: Seq<Loaded<WorldPropertyDoc>>, rel: Seq<char>) -> int
    decreases wps.len(),
{
    if wps.len() == 0 {
        -1
    } else if wps.last().rel@ == rel {
        wps.len() - 1
    } else {
        worldproperty_index(wps.drop_last(), rel)
    }
}

/// A world-property reference that names no loaded source.
pub open spec fn worldproperty_ref_failure(
    content_root: Seq<char>,
    wps: Seq<Loaded<WorldPropertyDoc>>,
    reference: Seq<char>,
) -> Option<SourceErrorModel> {
    if worldproperty_index(wps, normalized_rel(reference)) < 0 {
        Some(
            invalid(
                path_join(content_root, reference),
                "worldproperty source '"@ + reference + "' was not loaded"@,
            ),
        )
    } else {
        None
    }
}

/// The variants of the world property a reference names (meaningful where
/// it names one).
pub open spec fn worldproperty_variants(
    wps: Seq<Loaded<WorldPropertyDoc>>,
    reference: Seq<char>,
) -> Seq<WorldPropertyVariant> {
    wps[worldproperty_index(wps, normalized_rel(reference))].doc.variants@
}

pub fn load_worldproperty_ref<'a>(
    content_root: &str,
    wps: &'a Vec<Loaded<WorldPropertyDoc>>,
    reference: &str,
) -> (r: Result<&'a Vec<WorldPropertyVariant>, SourceTreeCompileError>)
    ensures
        failure_of(r) == worldproperty_ref_failure(content_root@, wps@, reference@),
        r is Ok ==> r->Ok_0@ == worldproperty_variants(wps@, reference@),
{
    let normalized = normalize_rel(reference);
    let mut i: usize = wps.len();
    assert(wps@.take(wps@.len() as int) =~= wps@);
    while i > 0
        invariant
            0 <= i <= wps@.len(),
            normalized@ == normalized_rel(reference@),
            worldproperty_index(wps@, normalized@) == worldproperty_index(wps@.take(i as int), normalized@),
        decreases i,
    {
        proof {
            assert(wps@.take(i as int).drop_last() =~= wps@.take(i - 1));
            assert(wps@.take(i as int).last() == wps@[i - 1]);
        }
        if str_eq(wps[i - 1].rel.as_str(), normalized.as_str()) {
            return Ok(&wps[i - 1].doc.variants);
        }
        i = i - 1;
    }
    Err(
        SourceTreeCompileError::Invalid {
            path: join_path(content_root, reference),
            message: concat3("worldproperty source '", reference, "' was not loaded"),
        },
    )
}

/// Every character of `s` is whitespace (so `s` trims to nothing).
pub open spec fn all_whitespace(s: Seq<char>) -> bool {
    forall|i: int| 0 <= i < s.len() ==> is_unicode_whitespace(#[trigger] s[i])
}

/// A block-type source declares this profile and a kind.
pub open spec fn header_failure(h: Loaded<SourceHeader>) -> Option<SourceErrorModel> {
    if h.doc.profile@ != VANILLA_BLOCKTYPES_PROFILE_V1@ {
        Some(
            invalid(
                h.path@,
                "blocktype source must declare profile '"@ + VANILLA_BLOCKTYPES_PROFILE_V1@
                    + "', got '"@ + h.doc.profile@ + "'"@,
            ),
        )
    } else if all_whitespace(h.doc.kind@) {
        Some(invalid(h.path@, "blocktype kind must not be empty"@))
    } else {
        None
    }
}

pub open spec fn header_failure_fn() -> spec_fn(Loaded<SourceHeader>) -> Option<SourceErrorModel> {
    |h: Loaded<SourceHeader>| header_failure(h)
}

fn is_blank(s: &str) -> (b: bool)
    ensures
        b == all_whitespace(s@),
{
    let n = s.unicode_len();
    let mut i: usize = 0;
    while i < n
        invariant
            0 <= i <= n,
            n == s@.len(),
            forall|j: int| 0 <= j < i ==> is_unicode_whitespace(#[trigger] s@[j]),
        decreases n - i,
    {
        let c = s.get_char(i);
        if !crate::text::is_whitespace_char(c) {
            return false;
        }
        i = i + 1;
    }
    true
}

/// Checks every block-type header, in order.
pub fn validate_block_headers(headers: &Vec<Loaded<SourceHeader>>) -> (r: Result<
    (),
    SourceTreeCompileError,
>)
    ensures
        failure_of(r) == first_failure(headers@, header_failure_fn()),
{
    let ghost f = header_failure_fn();
    let mut i: usize = 0;
    assert(headers@.take(0) =~= Seq::<Loaded<SourceHeader>>::empty());
    while i < headers.len()
        invariant
            0 <= i <= headers@.len(),
            f == header_failure_fn(),
            first_failure(headers@.take(i as int), f) is None,
        decreases headers.len() - i,
    {
        let h = &headers[i];
        proof {
            lemma_first_failure_step(headers@, f, i as int);
        }
        if !str_eq(h.doc.profile.as_str(), VANILLA_BLOCKTYPES_PROFILE_V1) {
            let mut message = concat5(
                "blocktype source must declare profile '",
                VANILLA_BLOCKTYPES_PROFILE_V1,
                "', got '",
                h.doc.profile.as_str(),
                "'",
            );
            return Err(SourceTreeCompileError::Invalid { path: h.path.clone(), message });
        }
        if is_blank(h.doc.kind.as_str()) {
            return Err(
                SourceTreeCompileError::Invalid {
                    path: h.path.clone(),
                    message: string_of("blocktype kind must not be empty"),
                },
            );
        }
        i = i + 1;
    }
    assert(headers@.take(headers@.len() as int) =~= headers@);
    Ok(())
}

/// Which document a block-type header's kind names.
#[derive(Debug, Clone, Copy, PartialEq, Eq, Structural)]
pub enum BlockDocKind {
    Cube,
    Face,
    VariantFamily,
    TopsoilFamily,
    Unsupported,
}

pub open spec fn spec_block_doc_kind(kind: Seq<char>) -> BlockDocKind {
    if kind == "cube_block"@ {
        BlockDocKind::Cube
    } else if kind == "face_block"@ {
        BlockDocKind::Face
    } else if kind == "variant_family"@ {
        BlockDocKind::VariantFamily
    } else if kind == "topsoil_family"@ {
        BlockDocKind::TopsoilFamily
    } else {
        BlockDocKind::Unsupported
    }
}

pub fn block_doc_kind(kind: &str) -> (k: BlockDocKind)
    ensures
        k == spec_block_doc_kind(kind@),
{
    if str_eq(kind, "cube_block") {
        BlockDocKind::Cube
    } else if str_eq(kind, "face_block") {
        BlockDocKind::Face
    } else if str_eq(kind, "variant_family") {
        BlockDocKind::VariantFamily
    } else if str_eq(kind, "topsoil_family") {
        BlockDocKind::TopsoilFamily
    } else {
        BlockDocKind::Unsupported
    }
}


/// What compiling one block-type source does, by the document it holds.
pub open spec fn block_events(
    block: Loaded<BlockDoc>,
    shapes: Seq<Loaded<ShapeDoc>>,
    wps: Seq<Loaded<WorldPropertyDoc>>,
    content_root: Seq<char>,
) -> Seq<CompileEvent> {
    match block.doc {
        BlockDoc::Cube(doc) => check(
            profile_failure(block.path@, doc.profile@, doc.kind@, "cube_block"@),
        ) + check(shape_ref_failure(shapes, doc.shape@, block.path@)) + declare_all(
            cube_block_requests(block.rel@, doc),
        ),
        BlockDoc::Face(doc) => check(
            profile_failure(block.path@, doc.profile@, doc.kind@, "face_block"@),
        ) + check(shape_ref_failure(shapes, doc.shape@, block.path@)) + declare_all(
            face_block_requests(block.rel@, doc),
        ),
        BlockDoc::VariantFamily(doc) => check(
            profile_failure(block.path@, doc.profile@, doc.kind@, "variant_family"@),
        ) + check(worldproperty_ref_failure(content_root, wps, doc.variant_group@))
            + rock_family_events(
            block.rel@,
            doc,
            worldproperty_variants(wps, doc.variant_group@),
            shapes,
        ),
        BlockDoc::TopsoilFamily(doc) => check(
            profile_failure(block.path@, doc.profile@, doc.kind@, "topsoil_family"@),
        ) + check(worldproperty_ref_failure(content_root, wps, doc.fertility_group@)) + check(
            worldproperty_ref_failure(content_root, wps, doc.coverage_group@),
        ) + topsoil_family_events(
            block.rel@,
            doc,
            worldproperty_variants(wps, doc.fertility_group@),
            worldproperty_variants(wps, doc.coverage_group@),
            shapes,
        ),
        BlockDoc::Unsupported(kind) => seq![
            CompileEvent::Fail(
                invalid(block.path@, "unsupported blocktype kind '"@ + kind@ + "'"@),
            ),
        ],
    }
}

/// The file a compiled block-type source adds: its path and contents.
pub open spec fn block_file(
    block: Loaded<BlockDoc>,
    shapes: Seq<Loaded<ShapeDoc>>,
    wps: Seq<Loaded<WorldPropertyDoc>>,
) -> (Seq<char>, Seq<char>) {
    match block.doc {
        BlockDoc::Cube(doc) => (
            "blocktypes/"@ + doc.code@ + ".toml"@,
            cube_block_text(doc, shape_for_ref(shapes, doc.shape@)),
        ),
        BlockDoc::Face(doc) => (
            "blocktypes/"@ + doc.code@ + ".toml"@,
            face_block_text(doc, shape_for_ref(shapes, doc.shape@)),
        ),
        BlockDoc::VariantFamily(doc) => (
            "families/"@ + doc.code@ + ".toml"@,
            rock_family_text(
                doc,
                worldproperty_variants(wps, doc.variant_group@),
                shape_for_ref(shapes, doc.templates.visual.shape@),
            ),
        ),
        BlockDoc::TopsoilFamily(doc) => (
            "families/soil_grass.toml"@,
            topsoil_family_text(
                doc,
                worldproperty_variants(wps, doc.fertility_group@),
                worldproperty_variants(wps, doc.coverage_group@),
                shapes,
            ),
        ),
        BlockDoc::Unsupported(_) => (Seq::empty(), Seq::empty()),
    }
}

/// The tags after a compiled block-type source: cube and per-face blocks
/// record their tags on their block.
pub open spec fn block_tags(
    index: Seq<(Seq<char>, Seq<Seq<char>>)>,
    block: Loaded<BlockDoc>,
) -> Seq<(Seq<char>, Seq<Seq<char>>)> {
    match block.doc {
        BlockDoc::Cube(doc) => tags_after(index, doc.tags@, "freven.vanilla:"@ + doc.code@),
        BlockDoc::Face(doc) => tags_after(index, doc.tags@, "freven.vanilla:"@ + doc.code@),
        _ => index,
    }
}

/// Runs a check inside a compilation step: nothing changes, and a failure
/// is the step's failure.
proof fn lemma_check_step(
    s: super::CompilerModel,
    r: Option<SourceErrorModel>,
    rest: Seq<CompileEvent>,
)
    requires
        r is Some,
    ensures
        compiled(s, s, r, check(r) + rest),
{
    lemma_fail_first(s.declarations, r->Some_0);
    assert(check(r) =~= seq![CompileEvent::Fail(r->Some_0)]);
    lemma_compiled_fail_prefix(s, s, r->Some_0, check(r), rest);
}

impl SourceTreeCompiler {
    /// Compiles the loaded shapes into `models/common.toml`.
    pub fn compile_models_file(&mut self, shapes: &Vec<Loaded<ShapeDoc>>) -> (r: Result<
        (),
        SourceTreeCompileError,
    >)
        requires
            old(self).wf(),
        ensures
            final(self).wf(),
            compiled(
                old(self)@,
                final(self)@,
                failure_of(r),
                concat_map(shapes@, shape_events_fn()),
            ),
            final(self)@.tags == old(self)@.tags,
            r is Ok ==> exists|f: GeneratedFile|
                file_model(f) == stored_file("models/common.toml"@, models_text(shapes@))
                    && inserted_after_equal_paths(old(self)@.files, f, final(self)@.files),
    {
        let models = self.compile_models(shapes)?;
        self.add_file(string_of("models/common.toml"), models.as_str());
        Ok(())
    }

    /// Compiles one block-type source, parsed as the document its header
    /// names: the source is checked, declares what it generates, adds its
    /// file, and (for cube and per-face blocks) records its tags.
    pub fn compile_block(
        &mut self,
        block: &Loaded<BlockDoc>,
        shapes: &Vec<Loaded<ShapeDoc>>,
        wps: &Vec<Loaded<WorldPropertyDoc>>,
        content_root: &str,
    ) -> (r: Result<(), SourceTreeCompileError>)
        requires
            old(self).wf(),
        ensures
            final(self).wf(),
            compiled(
                old(self)@,
                final(self)@,
                failure_of(r),
                block_events(*block, shapes@, wps@, content_root@),
            ),
            r is Ok ==> final(self)@.tags == block_tags(old(self)@.tags, *block),
            r is Ok ==> exists|f: GeneratedFile|
                file_model(f) == stored_file(
                    block_file(*block, shapes@, wps@).0,
                    block_file(*block, shapes@, wps@).1,
                ) && inserted_after_equal_paths(old(self)@.files, f, final(self)@.files),
    {
        let path = block.path.as_str();
        let rel = block.rel.as_str();
        let ghost s0 = self@;
        match &block.doc {
            BlockDoc::Cube(doc) => {
                let ghost c1 = check(profile_failure(path@, doc.profile@, doc.kind@, "cube_block"@));
                let ghost c2 = check(shape_ref_failure(shapes@, doc.shape@, path@));
                let ghost d = declare_all(cube_block_requests(rel@, *doc));
                let r1 = validate_profile(path, doc.profile.as_str(), doc.kind.as_str(), "cube_block");
                if let Err(e) = r1 {
                    proof { lemma_check_step(s0, Some(e@), c2 + d); assert(c1 + (c2 + d) =~= c1 + c2 + d); }
                    return Err(e);
                }
                let shape = match shape_doc_for_ref(shapes, doc.shape.as_str(), path) {
                    Ok(shape) => shape,
                    Err(e) => {
                        proof { lemma_check_step(s0, Some(e@), d); assert(c1 =~= Seq::<CompileEvent>::empty()); assert(c1 + c2 + d =~= c2 + d); }
                        return Err(e);
                    },
                };
                proof { assert(c1 + c2 + d =~= d); }
                let rendered = self.compile_cube_block(rel, doc, shape)?;
                self.record_tags(&doc.tags, joined("freven.vanilla:", doc.code.as_str()).as_str());
                self.add_file(concat3("blocktypes/", doc.code.as_str(), ".toml"), rendered.as_str());
                Ok(())
            },
            BlockDoc::Face(doc) => {
                let ghost c1 = check(profile_failure(path@, doc.profile@, doc.kind@, "face_block"@));
                let ghost c2 = check(shape_ref_failure(shapes@, doc.shape@, path@));
                let ghost d = declare_all(face_block_requests(rel@, *doc));
                let r1 = validate_profile(path, doc.profile.as_str(), doc.kind.as_str(), "face_block");
                if let Err(e) = r1 {
                    proof { lemma_check_step(s0, Some(e@), c2 + d); assert(c1 + (c2 + d) =~= c1 + c2 + d); }
                    return Err(e);
                }
                let shape = match shape_doc_for_ref(shapes, doc.shape.as_str(), path) {
                    Ok(shape) => shape,
                    Err(e) => {
                        proof { lemma_check_step(s0, Some(e@), d); assert(c1 =~= Seq::<CompileEvent>::empty()); assert(c1 + c2 + d =~= c2 + d); }
                        return Err(e);
                    },
                };
                proof { assert(c1 + c2 + d =~= d); }
                let rendered = self.compile_face_block(rel, doc, shape)?;
                self.record_tags(&doc.tags, joined("freven.vanilla:", doc.code.as_str()).as_str());
                self.add_file(concat3("blocktypes/", doc.code.as_str(), ".toml"), rendered.as_str());
                Ok(())
            },
            BlockDoc::VariantFamily(doc) => {
                let ghost c1 = check(profile_failure(path@, doc.profile@, doc.kind@, "variant_family"@));
                let ghost c2 = check(worldproperty_ref_failure(content_root@, wps@, doc.variant_group@));
                let ghost d = rock_family_events(rel@, *doc, worldproperty_variants(wps@, doc.variant_group@), shapes@);
                let r1 = validate_profile(path, doc.profile.as_str(), doc.kind.as_str(), "variant_family");
                if let Err(e) = r1 {
                    proof { lemma_check_step(s0, Some(e@), c2 + d); assert(c1 + (c2 + d) =~= c1 + c2 + d); }
                    return Err(e);
                }
                let variants = match load_worldproperty_ref(content_root, wps, doc.variant_group.as_str()) {
                    Ok(v) => v,
                    Err(e) => {
                        proof { lemma_check_step(s0, Some(e@), d); assert(c1 =~= Seq::<CompileEvent>::empty()); assert(c1 + c2 + d =~= c2 + d); }
                        return Err(e);
                    },
                };
                proof { assert(c1 + c2 + d =~= d); }
                let rendered = self.compile_rock_family(rel, doc, variants, shapes)?;
                self.add_file(concat3("families/", doc.code.as_str(), ".toml"), rendered.as_str());
                Ok(())
            },
            BlockDoc::TopsoilFamily(doc) => {
                let ghost c1 = check(profile_failure(path@, doc.profile@, doc.kind@, "topsoil_family"@));
                let ghost c2 = check(worldproperty_ref_failure(content_root@, wps@, doc.fertility_group@));
                let ghost c3 = check(worldproperty_ref_failure(content_root@, wps@, doc.coverage_group@));
                let ghost d = topsoil_family_events(
                    rel@,
                    *doc,
                    worldproperty_variants(wps@, doc.fertility_group@),
                    worldproperty_variants(wps@, doc.coverage_group@),
                    shapes@,
                );
                let r1 = validate_profile(path, doc.profile.as_str(), doc.kind.as_str(), "topsoil_family");
                if let Err(e) = r1 {
                    proof { lemma_check_step(s0, Some(e@), c2 + c3 + d); assert(c1 + (c2 + c3 + d) =~= c1 + c2 + c3 + d); }
                    return Err(e);
                }
                let fertility = match load_worldproperty_ref(content_root, wps, doc.fertility_group.as_str()) {
                    Ok(v) => v,
                    Err(e) => {
                        proof { lemma_check_step(s0, Some(e@), c3 + d); assert(c1 =~= Seq::<CompileEvent>::empty()); assert(c1 + c2 + c3 + d =~= c2 + (c3 + d)); }
                        return Err(e);
                    },
                };
                let coverage = match load_worldproperty_ref(content_root, wps, doc.coverage_group.as_str()) {
                    Ok(v) => v,
                    Err(e) => {
                        proof { lemma_check_step(s0, Some(e@), d); assert(c1 =~= Seq::<CompileEvent>::empty()); assert(c2 =~= Seq::<CompileEvent>::empty()); assert(c1 + c2 + c3 + d =~= c3 + d); }
                        return Err(e);
                    },
                };
                proof { assert(c1 + c2 + c3 + d =~= d); }
                let rendered = self.compile_topsoil_family(rel, doc, fertility, coverage, shapes)?;
                self.add_file(string_of("families/soil_grass.toml"), rendered.as_str());
                Ok(())
            },
            BlockDoc::Unsupported(kind) => {
                proof {
                    lemma_fail_first(s0.declarations, invalid(path@, "unsupported blocktype kind '"@ + kind@ + "'"@));
                }
                Err(
                    SourceTreeCompileError::Invalid {
                        path: string_of(path),
                        message: concat3("unsupported blocktype kind '", kind.as_str(), "'"),
                    },
                )
            },
        }
    }
}

/// The README of the compiled output directory.
pub const COMPILED_README: &'static str = "# Checked compiled Vanilla blocktypes v1 output\n\nDo not edit these files by hand for normal Vanilla content changes. The engine/runtime consumes this canonical graph today. Edit the high-level source instead:\n\n- `content/blocktypes/`\n- `content/worldproperties/`\n- `content/shapes/`\n\nThis directory is a checked runtime bridge for the current rc10 canonical loader. It is generated from `freven.vanilla:blocktypes_v1` source.\n";

/// The `tags/terrain.toml` file: one `[[block_tags]]` table per tag, listing
/// its blocks.
pub open spec fn tags_text(tags: Seq<(Seq<char>, Seq<Seq<char>>)>) -> Seq<char> {
    join_lines(manifest_header_lines() + tag_tables_lines(tags))
}

pub fn render_tags(index: &TagIndex) -> (text: String)
    ensures
        text@ == tags_text(index@),
        index_ascending(index@),
{
    proof {
        use_type_invariant(index);
    }
    let mut out = LineBuffer::new();
    emit_canonical_header(&mut out);
    index.emit_tables(&mut out);
    out.into_string()
}

impl SourceTreeCompiler {
    /// Adds the tags file and the README, and returns the compiled profile.
    pub fn finish_source_tree(self) -> (profile: CompiledVanillaProfile)
        requires
            self.wf(),
        ensures
            decl_models(profile.declarations@) == self@.declarations,
            exists|mid: Seq<GeneratedFile>, tags_file: GeneratedFile, readme: GeneratedFile|
                file_model(tags_file) == stored_file("tags/terrain.toml"@, tags_text(self@.tags))
                    && inserted_after_equal_paths(self@.files, tags_file, mid) && file_model(readme)
                    == stored_file("README.md"@, COMPILED_README@) && inserted_after_equal_paths(
                    mid,
                    readme,
                    profile.generated_files@,
                ),
            sorted_by_path(profile.generated_files@),
            profile.canonical_manifest_source@ == canonical_manifest(profile.generated_files@),
            profile.profile_id@ == VANILLA_BLOCKTYPES_PROFILE_V1@,
            profile.canonical_schema == CANONICAL_MANIFEST_SCHEMA,
    {
        let mut compiler = self;
        let tags = render_tags(compiler.tag_index());
        compiler.add_file(string_of("tags/terrain.toml"), tags.as_str());
        let ghost mid = compiler@.files;
        compiler.add_file(string_of("README.md"), COMPILED_README);
        compiler.finish()
    }
}
} // verus!
