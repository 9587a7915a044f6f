//! Compiler of the `freven.vanilla:blocktypes_v1` authoring source tree
//! (shapes, world properties and block types) into the canonical content
//! graph files.

use vstd::prelude::*;
use crate::authoring::{
    add_declaration, decl, GeneratedFile, decl_models, first_rejection, ledger_outcome, lemma_ledger_outcome_concat,
    AuthoringSourceKind, AuthoringSourceRef, DeclarationModel, DuplicateModel,
    DuplicateModelWitness, GeneratedDeclaration, GeneratedDeclarationKind, SourceRefModel,
    CompiledVanillaProfile, CANONICAL_MANIFEST_SCHEMA, VANILLA_BLOCKTYPES_PROFILE_V1,
};
use crate::text::{concat3, concat5, decimal, str_eq, string_of, trim_end, trimmed_end};
use files::{
    canonical_manifest, canonical_manifest_of, inserted_after_equal_paths, insert_by_path,
    sorted_by_path,
};
use tags::{index_ascending, index_insert, lemma_index_insert_ascending, TagIndex};
use docs::{Loaded, ShapeBoxDoc, ShapeDoc};
use paths::{shape_code_of_ref, shape_ref_code};
use vstd::string::StringExecFns;

pub mod blocks;
pub mod docs;
pub mod driver;
pub mod emit;
pub mod families;
pub mod files;
pub mod models;
pub mod paths;
pub mod tags;
pub mod topsoil;
pub mod tree;

verus! {

pub const VANILLA_BLOCKTYPES_COMPILED_DIR: &'static str = "content/_compiled/vanilla_blocktypes_v1";

/// Why a source tree does not compile.
#[derive(Debug, Clone)]
pub enum SourceTreeCompileError {
    /// A source breaks a rule of the profile.
    Invalid { path: String, message: String },
    /// Two sources generate the same declaration.
    DuplicateGeneratedDeclaration {
        kind: GeneratedDeclarationKind,
        key: String,
        first_source: Box<AuthoringSourceRef>,
        second_source: Box<AuthoringSourceRef>,
    },
}

/// Mathematical value of a [`SourceTreeCompileError`].
pub enum SourceErrorModel {
    Invalid { path: Seq<char>, message: Seq<char> },
    Duplicate(DuplicateModel),
}

impl View for SourceTreeCompileError {
    type V = SourceErrorModel;

    open spec fn view(&self) -> SourceErrorModel {
        match self {
            SourceTreeCompileError::Invalid { path, message } => SourceErrorModel::Invalid {
                path: path@,
                message: message@,
            },
            SourceTreeCompileError::DuplicateGeneratedDeclaration {
                kind,
                key,
                first_source,
                second_source,
            } => SourceErrorModel::Duplicate(
                DuplicateModel {
                    kind: *kind,
                    key: key@,
                    first_source: first_source@,
                    second_source: second_source@,
                },
            ),
        }
    }
}

/// One step of a compilation: a check that failed, or a declaration request.
pub enum CompileEvent {
    Fail(SourceErrorModel),
    Declare(DeclarationModel),
}

/// Outcome of the steps `events` on top of the accepted declarations `base`:
/// the first failure or refused request, or all accepted declarations.
pub open spec fn event_outcome(base: Seq<DeclarationModel>, events: Seq<CompileEvent>) -> Result<
    Seq<DeclarationModel>,
    SourceErrorModel,
>
    decreases events.len(),
{
    if events.len() == 0 {
        Ok(base)
    } else {
        match event_outcome(base, events.drop_last()) {
            Err(e) => Err(e),
            Ok(d) => match events.last() {
                CompileEvent::Fail(e) => Err(e),
                CompileEvent::Declare(req) => match ledger_outcome(d, seq![req]) {
                    Ok(d2) => Ok(d2),
                    Err(dup) => Err(SourceErrorModel::Duplicate(dup)),
                },
            },
        }
    }
}

/// The steps of a check: nothing when it passes, its failure otherwise.
pub open spec fn check(failure: Option<SourceErrorModel>) -> Seq<CompileEvent> {
    match failure {
        Some(e) => seq![CompileEvent::Fail(e)],
        None => Seq::empty(),
    }
}

/// The steps of declaration requests.
pub open spec fn declare_all(reqs: Seq<DeclarationModel>) -> Seq<CompileEvent> {
    reqs.map_values(|r: DeclarationModel| CompileEvent::Declare(r))
}

pub open spec fn invalid(path: Seq<char>, message: Seq<char>) -> SourceErrorModel {
    SourceErrorModel::Invalid { path, message }
}

/// The failure a result carries, if any.
pub open spec fn failure_of<T>(r: Result<T, SourceTreeCompileError>) -> Option<SourceErrorModel> {
    match r {
        Ok(_) => None,
        Err(e) => Some(e@),
    }
}

/// Doing `a` then `b` is doing `a + b`.
pub proof fn lemma_event_outcome_concat(
    base: Seq<DeclarationModel>,
    a: Seq<CompileEvent>,
    b: Seq<CompileEvent>,
)
    ensures
        event_outcome(base, a + b) == match event_outcome(base, a) {
            Err(e) => Err(e),
            Ok(d) => event_outcome(d, b),
        },
    decreases b.len(),
{
    if b.len() == 0 {
        assert(a + b =~= a);
    } else {
        lemma_event_outcome_concat(base, a, b.drop_last());
        assert((a + b).drop_last() =~= a + b.drop_last());
        assert((a + b).last() == b.last());
    }
}

/// A failing check fails the compilation.
pub proof fn lemma_fail_first(base: Seq<DeclarationModel>, e: SourceErrorModel)
    ensures
        event_outcome(base, seq![CompileEvent::Fail(e)]) == Err::<
            Seq<DeclarationModel>,
            SourceErrorModel,
        >(e),
        event_outcome(base, Seq::<CompileEvent>::empty()) == Ok::<
            Seq<DeclarationModel>,
            SourceErrorModel,
        >(base),
{
    assert(seq![CompileEvent::Fail(e)].drop_last() =~= Seq::<CompileEvent>::empty());
}

/// Accepted declarations never hold a refusal.
pub proof fn lemma_event_outcome_clean(base: Seq<DeclarationModel>, events: Seq<CompileEvent>)
    requires
        first_rejection(base) is None,
    ensures
        event_outcome(base, events) is Ok ==> first_rejection(event_outcome(base, events)->Ok_0)
            is None,
    decreases events.len(),
{
    if events.len() > 0 {
        lemma_event_outcome_clean(base, events.drop_last());
    }
}

/// A compilation that succeeds generates each declaration once, except
/// block tags, which many sources may share.
pub proof fn lemma_compiled_declarations_unique(
    base: Seq<DeclarationModel>,
    events: Seq<CompileEvent>,
)
    requires
        first_rejection(base) is None,
        event_outcome(base, events) is Ok,
    ensures
        ({
            let d = event_outcome(base, events)->Ok_0;
            forall|i: int, j: int|
                #![trigger d[i], d[j]]
                0 <= i < j < d.len() && d[j].kind != GeneratedDeclarationKind::BlockTag ==> !(
                d[i].kind == d[j].kind && d[i].key == d[j].key)
        }),
{
    let d = event_outcome(base, events)->Ok_0;
    lemma_event_outcome_clean(base, events);
    assert(d + Seq::<DeclarationModel>::empty() =~= d);
    crate::authoring::lemma_accepted_declarations_unique(d, Seq::empty());
}

/// A failure is the outcome of everything after it too.
pub proof fn lemma_event_outcome_err_prefix(
    base: Seq<DeclarationModel>,
    a: Seq<CompileEvent>,
    b: Seq<CompileEvent>,
)
    requires
        event_outcome(base, a) is Err,
    ensures
        event_outcome(base, a + b) == event_outcome(base, a),
{
    lemma_event_outcome_concat(base, a, b);
}

/// The declared requests accepted on top of `base` are those of the ledger.
pub proof fn lemma_declare_all_outcome(base: Seq<DeclarationModel>, reqs: Seq<DeclarationModel>)
    requires
        first_rejection(base) is None,
    ensures
        event_outcome(base, declare_all(reqs)) == match ledger_outcome(base, reqs) {
            Ok(d) => Ok::<Seq<DeclarationModel>, SourceErrorModel>(d),
            Err(dup) => Err(SourceErrorModel::Duplicate(dup)),
        },
    decreases reqs.len(),
{
    if reqs.len() == 0 {
        assert(base + reqs =~= base);
        assert(declare_all(reqs) =~= Seq::<CompileEvent>::empty());
    } else {
        let init = reqs.drop_last();
        lemma_declare_all_outcome(base, init);
        assert(declare_all(reqs).drop_last() =~= declare_all(init));
        assert(reqs =~= init + seq![reqs.last()]);
        lemma_ledger_outcome_concat(base, init, seq![reqs.last()]);
        if ledger_outcome(base, init) is Ok {
            crate::authoring::lemma_outcome_ok_clean(base, init);
        }
    }
}

/// The sequences `f` gives for each item, one after the other.
pub open spec fn concat_map<T, U>(items: Seq<T>, f: spec_fn(T) -> Seq<U>) -> Seq<U>
    decreases items.len(),
{
    if items.len() == 0 {
        Seq::empty()
    } else {
        concat_map(items.drop_last(), f) + f(items.last())
    }
}

pub proof fn lemma_concat_map_take_step<T, U>(items: Seq<T>, f: spec_fn(T) -> Seq<U>, i: int)
    requires
        0 <= i < items.len(),
    ensures
        concat_map(items.take(i + 1), f) == concat_map(items.take(i), f) + f(items[i]),
{
    assert(items.take(i + 1).drop_last() =~= items.take(i));
    assert(items.take(i + 1).last() == items[i]);
}

pub proof fn lemma_concat_map_whole<T, U>(items: Seq<T>, f: spec_fn(T) -> Seq<U>)
    ensures
        concat_map(items.take(items.len() as int), f) == concat_map(items, f),
        concat_map(items.take(0), f) == Seq::<U>::empty(),
{
    assert(items.take(items.len() as int) =~= items);
    assert(items.take(0) =~= Seq::<T>::empty());
}

pub proof fn lemma_concat_map_append<T, U>(a: Seq<T>, b: Seq<T>, f: spec_fn(T) -> Seq<U>)
    ensures
        concat_map(a + b, f) == concat_map(a, f) + concat_map(b, f),
    decreases b.len(),
{
    if b.len() == 0 {
        assert(a + b =~= a);
        assert(concat_map(a, f) + concat_map(b, f) =~= concat_map(a, f));
    } else {
        lemma_concat_map_append(a, b.drop_last(), f);
        assert((a + b).drop_last() =~= a + b.drop_last());
        assert((a + b).last() == b.last());
        assert(concat_map(a + b, f) =~= concat_map(a, f) + concat_map(b, f));
    }
}

/// One more item processed: a failure of its steps is the outcome of all
/// items, and otherwise the items so far lead to its declarations.
pub proof fn lemma_items_step<T>(
    base: Seq<DeclarationModel>,
    items: Seq<T>,
    f: spec_fn(T) -> Seq<CompileEvent>,
    i: int,
    cur: Seq<DeclarationModel>,
    failure: Option<SourceErrorModel>,
    next: Seq<DeclarationModel>,
)
    requires
        0 <= i < items.len(),
        event_outcome(base, concat_map(items.take(i), f)) == Ok::<
            Seq<DeclarationModel>,
            SourceErrorModel,
        >(cur),
        match event_outcome(cur, f(items[i])) {
            Err(e) => failure == Some(e),
            Ok(d) => failure is None && next == d,
        },
    ensures
        failure matches Some(e) ==> event_outcome(base, concat_map(items, f)) == Err::<
            Seq<DeclarationModel>,
            SourceErrorModel,
        >(e),
        failure is None ==> event_outcome(base, concat_map(items.take(i + 1), f)) == Ok::<
            Seq<DeclarationModel>,
            SourceErrorModel,
        >(next),
{
    lemma_concat_map_take_step(items, f, i);
    lemma_event_outcome_concat(base, concat_map(items.take(i), f), f(items[i]));
    if failure is Some {
        assert(items =~= items.take(i + 1) + items.skip(i + 1));
        lemma_concat_map_append(items.take(i + 1), items.skip(i + 1), f);
        lemma_event_outcome_err_prefix(
            base,
            concat_map(items.take(i + 1), f),
            concat_map(items.skip(i + 1), f),
        );
    }
}

/// Checks that a source declares this profile and the expected kind.
pub open spec fn profile_failure(
    path: Seq<char>,
    profile: Seq<char>,
    actual_kind: Seq<char>,
    expected_kind: Seq<char>,
) -> Option<SourceErrorModel> {
    if profile != VANILLA_BLOCKTYPES_PROFILE_V1@ {
        Some(
            invalid(
                path,
                "expected profile '"@ + VANILLA_BLOCKTYPES_PROFILE_V1@ + "', got '"@ + profile
                    + "'"@,
            ),
        )
    } else if actual_kind != expected_kind {
        Some(invalid(path, "expected kind '"@ + expected_kind + "', got '"@ + actual_kind + "'"@))
    } else {
        None
    }
}

pub fn validate_profile(path: &str, profile: &str, actual_kind: &str, expected_kind: &str) -> (r:
    Result<(), SourceTreeCompileError>)
    ensures
        failure_of(r) == profile_failure(path@, profile@, actual_kind@, expected_kind@),
{
    if !str_eq(profile, VANILLA_BLOCKTYPES_PROFILE_V1) {
        return Err(
            SourceTreeCompileError::Invalid {
                path: string_of(path),
                message: concat5(
                    "expected profile '",
                    VANILLA_BLOCKTYPES_PROFILE_V1,
                    "', got '",
                    profile,
                    "'",
                ),
            },
        );
    }
    if !str_eq(actual_kind, expected_kind) {
        return Err(
            SourceTreeCompileError::Invalid {
                path: string_of(path),
                message: concat5("expected kind '", expected_kind, "', got '", actual_kind, "'"),
            },
        );
    }
    Ok(())
}


/// The box axis that leaves the unit cube first, if any.
pub open spec fn bad_axis(b: ShapeBoxDoc) -> Option<nat> {
    if !b.axis_in_unit_range@[0] {
        Some(0)
    } else if !b.axis_in_unit_range@[1] {
        Some(1)
    } else if !b.axis_in_unit_range@[2] {
        Some(2)
    } else {
        None
    }
}

/// The first box, and its first axis, that leaves the unit cube.
pub open spec fn first_bad_box(boxes: Seq<ShapeBoxDoc>) -> Option<(nat, nat)>
    decreases boxes.len(),
{
    if boxes.len() == 0 {
        None
    } else {
        match first_bad_box(boxes.drop_last()) {
            Some(found) => Some(found),
            None => match bad_axis(boxes.last()) {
                Some(axis) => Some(((boxes.len() - 1) as nat, axis)),
                None => None,
            },
        }
    }
}

pub open spec fn box_message(code: Seq<char>, kind: Seq<char>, index: nat, axis: nat) -> Seq<char> {
    "shape '"@ + code + "' "@ + kind + "["@ + decimal(index) + "] axis "@ + decimal(axis)
        + " must satisfy 0.0 <= min < max <= 1.0"@
}

/// A shape has a collision and a selection box, and every box lies in the
/// unit cube.
pub open spec fn shape_semantics_failure(path: Seq<char>, shape: ShapeDoc) -> Option<
    SourceErrorModel,
> {
    if shape.collision_boxes@.len() == 0 {
        Some(
            invalid(
                path,
                "shape '"@ + shape.code@ + "' must declare at least one collision box"@,
            ),
        )
    } else if shape.selection_boxes@.len() == 0 {
        Some(
            invalid(
                path,
                "shape '"@ + shape.code@ + "' must declare at least one selection box"@,
            ),
        )
    } else {
        match first_bad_box(shape.collision_boxes@) {
            Some((index, axis)) => Some(
                invalid(path, box_message(shape.code@, "collision_boxes"@, index, axis)),
            ),
            None => match first_bad_box(shape.selection_boxes@) {
                Some((index, axis)) => Some(
                    invalid(path, box_message(shape.code@, "selection_boxes"@, index, axis)),
                ),
                None => None,
            },
        }
    }
}

fn validate_boxes(path: &str, code: &str, kind: &str, boxes: &Vec<ShapeBoxDoc>) -> (r: Result<
    (),
    SourceTreeCompileError,
>)
    ensures
        failure_of(r) == match first_bad_box(boxes@) {
            Some((index, axis)) => Some(invalid(path@, box_message(code@, kind@, index, axis))),
            None => None,
        },
{
    let mut i: usize = 0;
    assert(boxes@.take(0) =~= Seq::<ShapeBoxDoc>::empty());
    while i < boxes.len()
        invariant
            0 <= i <= boxes@.len(),
            first_bad_box(boxes@.take(i as int)) is None,
        decreases boxes.len() - i,
    {
        let b = &boxes[i];
        proof {
            assert(boxes@.take(i + 1).drop_last() =~= boxes@.take(i as int));
            assert(boxes@.take(i + 1).last() == *b);
        }
        let mut axis: usize = 0;
        while axis < 3
            invariant
                0 <= axis <= 3,
                0 <= i < boxes@.len(),
                *b == boxes@[i as int],
                first_bad_box(boxes@.take(i as int)) is None,
                boxes@.take(i + 1).drop_last() == boxes@.take(i as int),
                boxes@.take(i + 1).last() == *b,
                forall|a: int| 0 <= a < axis ==> b.axis_in_unit_range@[a],
            decreases 3 - axis,
        {
            if !b.axis_in_unit_range[axis] {
                proof {
                    assert(bad_axis(*b) == Some(axis as nat));
                    assert(first_bad_box(boxes@.take(i + 1)) == Some((i as nat, axis as nat)));
                    lemma_first_bad_box_prefix(boxes@, i + 1);
                }
                let mut message = concat5("shape '", code, "' ", kind, "[");
                crate::text::push_decimal(&mut message, i as u64);
                message.append("] axis ");
                crate::text::push_decimal(&mut message, axis as u64);
                message.append(" must satisfy 0.0 <= min < max <= 1.0");
                return Err(SourceTreeCompileError::Invalid { path: string_of(path), message });
            }
            axis = axis + 1;
        }
        i = i + 1;
    }
    assert(boxes@.take(boxes@.len() as int) =~= boxes@);
    Ok(())
}

/// A bad box among the first `k` is the first bad box of all.
proof fn lemma_first_bad_box_prefix(boxes: Seq<ShapeBoxDoc>, k: int)
    requires
        0 <= k <= boxes.len(),
        first_bad_box(boxes.take(k)) is Some,
    ensures
        first_bad_box(boxes) == first_bad_box(boxes.take(k)),
    decreases boxes.len(),
{
    if k < boxes.len() {
        assert(boxes.drop_last().take(k) =~= boxes.take(k));
        lemma_first_bad_box_prefix(boxes.drop_last(), k);
    } else {
        assert(boxes.take(k) =~= boxes);
    }
}

pub fn validate_shape_semantics(path: &str, shape: &ShapeDoc) -> (r: Result<
    (),
    SourceTreeCompileError,
>)
    ensures
        failure_of(r) == shape_semantics_failure(path@, *shape),
{
    if shape.collision_boxes.len() == 0 {
        return Err(
            SourceTreeCompileError::Invalid {
                path: string_of(path),
                message: concat3(
                    "shape '",
                    shape.code.as_str(),
                    "' must declare at least one collision box",
                ),
            },
        );
    }
    if shape.selection_boxes.len() == 0 {
        return Err(
            SourceTreeCompileError::Invalid {
                path: string_of(path),
                message: concat3(
                    "shape '",
                    shape.code.as_str(),
                    "' must declare at least one selection box",
                ),
            },
        );
    }
    validate_boxes(path, shape.code.as_str(), "collision_boxes", &shape.collision_boxes)?;
    validate_boxes(path, shape.code.as_str(), "selection_boxes", &shape.selection_boxes)
}

/// The first loaded shape whose code the reference names.
pub open spec fn shape_index(shapes: Seq<Loaded<ShapeDoc>>, shape_ref: Seq<char>) -> int
    decreases shapes.len(),
{
    if shapes.len() == 0 {
        -1
    } else {
        let i = shape_index(shapes.drop_last(), shape_ref);
        if i >= 0 {
            i
        } else if shapes.last().doc.code@ == shape_code_of_ref(shape_ref) {
            shapes.len() - 1
        } else {
            -1
        }
    }
}

/// A shape reference that names no loaded shape.
pub open spec fn shape_ref_failure(
    shapes: Seq<Loaded<ShapeDoc>>,
    shape_ref: Seq<char>,
    path: Seq<char>,
) -> Option<SourceErrorModel> {
    if shape_index(shapes, shape_ref) < 0 {
        Some(invalid(path, "shape reference '"@ + shape_ref + "' was not loaded"@))
    } else {
        None
    }
}

/// The shape a reference names (meaningful where it names one).
pub open spec fn shape_for_ref(shapes: Seq<Loaded<ShapeDoc>>, shape_ref: Seq<char>) -> ShapeDoc {
    shapes[shape_index(shapes, shape_ref)].doc
}

pub fn shape_doc_for_ref<'a>(shapes: &'a Vec<Loaded<ShapeDoc>>, shape_ref: &str, path: &str) -> (r:
    Result<&'a ShapeDoc, SourceTreeCompileError>)
    ensures
        failure_of(r) == shape_ref_failure(shapes@, shape_ref@, path@),
        r is Ok ==> *r->Ok_0 == shape_for_ref(shapes@, shape_ref@),
{
    let code = shape_ref_code(shape_ref);
    let mut i: usize = 0;
    assert(shapes@.take(0) =~= Seq::<Loaded<ShapeDoc>>::empty());
    while i < shapes.len()
        invariant
            0 <= i <= shapes@.len(),
            code@ == shape_code_of_ref(shape_ref@),
            shape_index(shapes@.take(i as int), shape_ref@) == -1,
        decreases shapes.len() - i,
    {
        proof {
            assert(shapes@.take(i + 1).drop_last() =~= shapes@.take(i as int));
        }
        if str_eq(shapes[i].doc.code.as_str(), code) {
            proof {
                lemma_shape_index_prefix(shapes@, i + 1, shape_ref@);
            }
            return Ok(&shapes[i].doc);
        }
        i = i + 1;
    }
    assert(shapes@.take(shapes@.len() as int) =~= shapes@);
    Err(
        SourceTreeCompileError::Invalid {
            path: string_of(path),
            message: concat3("shape reference '", shape_ref, "' was not loaded"),
        },
    )
}

/// A shape found among the first `k` is the one found among all.
proof fn lemma_shape_index_prefix(shapes: Seq<Loaded<ShapeDoc>>, k: int, shape_ref: Seq<char>)
    requires
        0 <= k <= shapes.len(),
        shape_index(shapes.take(k), shape_ref) >= 0,
    ensures
        shape_index(shapes, shape_ref) == shape_index(shapes.take(k), shape_ref),
    decreases shapes.len(),
{
    if k < shapes.len() {
        assert(shapes.drop_last().take(k) =~= shapes.take(k));
        lemma_shape_index_prefix(shapes.drop_last(), k, shape_ref);
    } else {
        assert(shapes.take(k) =~= shapes);
    }
}

/// The state of a source-tree compilation: the generated declarations, the
/// generated files in path order, and the blocks each tag was given to.
pub struct SourceTreeCompiler {
    declarations: Vec<GeneratedDeclaration>,
    generated_files: Vec<GeneratedFile>,
    tag_blocks: TagIndex,
}

/// Mathematical value of a [`SourceTreeCompiler`].
pub struct CompilerModel {
    pub declarations: Seq<DeclarationModel>,
    pub files: Seq<GeneratedFile>,
    pub tags: Seq<(Seq<char>, Seq<Seq<char>>)>,
}

impl View for SourceTreeCompiler {
    type V = CompilerModel;

    closed spec fn view(&self) -> CompilerModel {
        CompilerModel {
            declarations: decl_models(self.declarations@),
            files: self.generated_files@,
            tags: self.tag_blocks@,
        }
    }
}

/// The declarations after `events`, or the failure the result reports.
pub open spec fn compiled(
    old: CompilerModel,
    new: CompilerModel,
    failure: Option<SourceErrorModel>,
    events: Seq<CompileEvent>,
) -> bool {
    match event_outcome(old.declarations, events) {
        Err(e) => failure == Some(e),
        Ok(d) => failure is None && new.declarations == d,
    }
}

/// Steps `a` that succeed, then steps `b`, are steps `a + b`.
pub proof fn lemma_compiled_chain(
    old: CompilerModel,
    mid: CompilerModel,
    new: CompilerModel,
    failure: Option<SourceErrorModel>,
    a: Seq<CompileEvent>,
    b: Seq<CompileEvent>,
)
    requires
        compiled(old, mid, None, a),
        compiled(mid, new, failure, b),
    ensures
        compiled(old, new, failure, a + b),
{
    lemma_event_outcome_concat(old.declarations, a, b);
}

/// Steps `a` that fail fail any steps that begin with them.
pub proof fn lemma_compiled_fail_prefix(
    old: CompilerModel,
    new: CompilerModel,
    e: SourceErrorModel,
    a: Seq<CompileEvent>,
    b: Seq<CompileEvent>,
)
    requires
        compiled(old, new, Some(e), a),
    ensures
        compiled(old, new, Some(e), a + b),
{
    lemma_event_outcome_concat(old.declarations, a, b);
}

/// No steps change nothing.
pub proof fn lemma_compiled_nothing(old: CompilerModel, new: CompilerModel)
    requires
        new.declarations == old.declarations,
    ensures
        compiled(old, new, None, Seq::empty()),
{
}

/// One more item compiled in a loop over `items`: a failure is the outcome of
/// all items, and otherwise the items so far are done.
pub proof fn lemma_compiled_items_step<T>(
    s0: CompilerModel,
    mid: CompilerModel,
    new: CompilerModel,
    items: Seq<T>,
    f: spec_fn(T) -> Seq<CompileEvent>,
    i: int,
    failure: Option<SourceErrorModel>,
)
    requires
        0 <= i < items.len(),
        compiled(s0, mid, None, concat_map(items.take(i), f)),
        compiled(mid, new, failure, f(items[i])),
    ensures
        failure is None ==> compiled(s0, new, None, concat_map(items.take(i + 1), f)),
        failure is Some ==> compiled(s0, new, failure, concat_map(items, f)),
{
    lemma_concat_map_take_step(items, f, i);
    lemma_compiled_chain(s0, mid, new, failure, concat_map(items.take(i), f), f(items[i]));
    if let Some(e) = failure {
        assert(items =~= items.take(i + 1) + items.skip(i + 1));
        lemma_concat_map_append(items.take(i + 1), items.skip(i + 1), f);
        lemma_compiled_fail_prefix(
            s0,
            new,
            e,
            concat_map(items.take(i + 1), f),
            concat_map(items.skip(i + 1), f),
        );
    }
}

/// A generated file as it is stored: its contents without trailing
/// whitespace, then one newline.
pub open spec fn stored_file(relative_path: Seq<char>, contents: Seq<char>) -> (Seq<char>, Seq<char>) {
    (relative_path, trim_end(contents) + "\n"@)
}

pub open spec fn file_model(f: GeneratedFile) -> (Seq<char>, Seq<char>) {
    (f.relative_path@, f.contents@)
}

impl SourceTreeCompiler {
    pub closed spec fn wf(&self) -> bool {
        &&& first_rejection(decl_models(self.declarations@)) is None
        &&& sorted_by_path(self.generated_files@)
    }

    pub fn new() -> (c: Self)
        ensures
            c.wf(),
            c@.declarations == Seq::<DeclarationModel>::empty(),
            c@.files == Seq::<GeneratedFile>::empty(),
            c@.tags == Seq::<(Seq<char>, Seq<Seq<char>>)>::empty(),
    {
        let c = SourceTreeCompiler {
            declarations: Vec::new(),
            generated_files: Vec::new(),
            tag_blocks: TagIndex::new(),
        };
        assert(decl_models(c.declarations@) =~= Seq::<DeclarationModel>::empty());
        c
    }

    /// Adds a generated file; files stay in path order, and files with equal
    /// paths in the order they were added.
    pub fn add_file(&mut self, relative_path: String, contents: &str)
        requires
            old(self).wf(),
        ensures
            final(self).wf(),
            final(self)@.declarations == old(self)@.declarations,
            final(self)@.tags == old(self)@.tags,
            exists|f: GeneratedFile|
                file_model(f) == stored_file(relative_path@, contents@)
                    && inserted_after_equal_paths(old(self)@.files, f, final(self)@.files),
    {
        let mut stored = string_of(trimmed_end(contents));
        stored.append("\n");
        let file = GeneratedFile { relative_path, contents: stored };
        let ghost added = file;
        proof {
            reveal_strlit("\n");
            assert(file_model(added) == stored_file(relative_path@, contents@));
        }
        insert_by_path(&mut self.generated_files, file);
        assert(inserted_after_equal_paths(old(self)@.files, added, self@.files));
    }

    /// Makes one declaration request from an authoring source.
    fn declare(
        &mut self,
        kind: GeneratedDeclarationKind,
        key: String,
        rel: &str,
        src_kind: AuthoringSourceKind,
        field_path: &str,
    ) -> (r: Result<(), SourceTreeCompileError>)
        requires
            old(self).wf(),
        ensures
            final(self).wf(),
            compiled(
                old(self)@,
                final(self)@,
                failure_of(r),
                seq![CompileEvent::Declare(decl(kind, key@, rel@, src_kind, field_path@))],
            ),
            final(self)@.files == old(self)@.files,
            final(self)@.tags == old(self)@.tags,
    {
        let source = AuthoringSourceRef::new(rel, src_kind, field_path);
        let ghost base = decl_models(self.declarations@);
        let ghost req = decl(kind, key@, rel@, src_kind, field_path@);
        proof {
            assert(seq![CompileEvent::Declare(req)].drop_last() =~= Seq::<CompileEvent>::empty());
            assert(source@ == req.source);
            let ev = seq![CompileEvent::Declare(req)];
            assert(event_outcome(base, ev.drop_last()) == Ok::<Seq<DeclarationModel>, SourceErrorModel>(base));
            assert(ev.last() == CompileEvent::Declare(req));
        }
        match add_declaration(&mut self.declarations, kind, key, source) {
            Ok(()) => {
                proof {
                    crate::authoring::lemma_outcome_ok_clean(base, seq![req]);
                }
                Ok(())
            },
            Err(DuplicateModelWitness { kind, key, first_source, second_source }) => Err(
                SourceTreeCompileError::DuplicateGeneratedDeclaration {
                    kind,
                    key,
                    first_source: Box::new(first_source),
                    second_source: Box::new(second_source),
                },
            ),
        }
    }
}

/// The tag index after recording that `block` carries each of `tags`.
pub open spec fn tags_after(
    index: Seq<(Seq<char>, Seq<Seq<char>>)>,
    tags: Seq<String>,
    block: Seq<char>,
) -> Seq<(Seq<char>, Seq<Seq<char>>)>
    decreases tags.len(),
{
    if tags.len() == 0 {
        index
    } else {
        index_insert(tags_after(index, tags.drop_last(), block), tags.last()@, block)
    }
}

/// Recording blocks for tags keeps the tag index ascending: each tag once,
/// in ascending order, with its blocks once each, in ascending order.
pub proof fn lemma_tags_after_ascending(
    index: Seq<(Seq<char>, Seq<Seq<char>>)>,
    tags: Seq<String>,
    block: Seq<char>,
)
    requires
        index_ascending(index),
    ensures
        index_ascending(tags_after(index, tags, block)),
    decreases tags.len(),
{
    if tags.len() > 0 {
        lemma_tags_after_ascending(index, tags.drop_last(), block);
        lemma_index_insert_ascending(tags_after(index, tags.drop_last(), block), tags.last()@, block);
    }
}

impl SourceTreeCompiler {
    /// Records that `block` carries each of `tags`.
    pub fn record_tags(&mut self, tags: &Vec<String>, block: &str)
        requires
            old(self).wf(),
        ensures
            final(self).wf(),
            final(self)@.declarations == old(self)@.declarations,
            final(self)@.files == old(self)@.files,
            final(self)@.tags == tags_after(old(self)@.tags, tags@, block@),
    {
        let mut i: usize = 0;
        assert(tags@.take(0) =~= Seq::<String>::empty());
        while i < tags.len()
            invariant
                0 <= i <= tags@.len(),
                self.wf(),
                self@.declarations == old(self)@.declarations,
                self@.files == old(self)@.files,
                self@.tags == tags_after(old(self)@.tags, tags@.take(i as int), block@),
            decreases tags.len() - i,
        {
            self.tag_blocks.insert(tags[i].as_str(), string_of(block));
            proof {
                assert(tags@.take(i + 1).drop_last() =~= tags@.take(i as int));
                assert(tags@.take(i + 1).last() == tags@[i as int]);
            }
            i = i + 1;
        }
        assert(tags@.take(tags@.len() as int) =~= tags@);
    }

    /// The tag index, for rendering.
    pub fn tag_index(&self) -> (index: &TagIndex)
        ensures
            index@ == self@.tags,
    {
        &self.tag_blocks
    }

    /// The compiled profile: the declarations, the generated files, and the
    /// canonical manifest of their TOML files.
    pub fn finish(self) -> (profile: CompiledVanillaProfile)
        requires
            self.wf(),
        ensures
            decl_models(profile.declarations@) == self@.declarations,
            profile.generated_files@ == self@.files,
            sorted_by_path(profile.generated_files@),
            profile.canonical_manifest_source@ == canonical_manifest(self@.files),
            profile.profile_id@ == VANILLA_BLOCKTYPES_PROFILE_V1@,
            profile.canonical_schema == CANONICAL_MANIFEST_SCHEMA,
    {
        let canonical_manifest_source = canonical_manifest_of(&self.generated_files);
        CompiledVanillaProfile {
            profile_id: VANILLA_BLOCKTYPES_PROFILE_V1,
            canonical_schema: CANONICAL_MANIFEST_SCHEMA,
            declarations: self.declarations,
            canonical_manifest_source,
            generated_files: self.generated_files,
        }
    }
}
} // verus!
