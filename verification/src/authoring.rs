//! Vanilla-owned authoring compiler foundation.
//!
//! The `freven.vanilla:blocktypes_v1` profile compiles high-level block-type,
//! world-property and shape sources into the canonical Freven content graph
//! (materials, models, block shapes, block visuals, content families and
//! block tags), recording for every generated declaration the authoring
//! source it came from.

use vstd::prelude::*;
use crate::text::str_eq;

pub mod fixtures;
pub mod fixture_compiler;
pub mod source_tree;

verus! {

pub const VANILLA_BLOCKTYPES_PROFILE_V1: &'static str = "freven.vanilla:blocktypes_v1";

pub const CANONICAL_MANIFEST_SCHEMA: u32 = 1;

#[derive(Debug, Clone, Copy, PartialEq, Eq, PartialOrd, Ord, Structural)]
pub enum AuthoringSourceKind {
    Blocktype,
    Worldproperty,
    Shape,
}

pub open spec fn spec_source_kind_str(kind: AuthoringSourceKind) -> &'static str {
    match kind {
        AuthoringSourceKind::Blocktype => "blocktype",
        AuthoringSourceKind::Worldproperty => "worldproperty",
        AuthoringSourceKind::Shape => "shape",
    }
}

impl AuthoringSourceKind {
    pub fn as_str(self) -> (s: &'static str)
        ensures
            s == spec_source_kind_str(self),
    {
        match self {
            AuthoringSourceKind::Blocktype => "blocktype",
            AuthoringSourceKind::Worldproperty => "worldproperty",
            AuthoringSourceKind::Shape => "shape",
        }
    }
}

#[derive(Debug, Clone, PartialEq, Eq, PartialOrd, Ord)]
pub struct AuthoringSourceRef {
    pub file: String,
    pub kind: AuthoringSourceKind,
    pub field_path: String,
}

/// Mathematical value of a source reference.
pub struct SourceRefModel {
    pub file: Seq<char>,
    pub kind: AuthoringSourceKind,
    pub field_path: Seq<char>,
}

impl View for AuthoringSourceRef {
    type V = SourceRefModel;

    open spec fn view(&self) -> SourceRefModel {
        SourceRefModel { file: self.file@, kind: self.kind, field_path: self.field_path@ }
    }
}

impl AuthoringSourceRef {
    pub fn new(file: &str, kind: AuthoringSourceKind, field_path: &str) -> (r: Self)
        ensures
            r@ == (SourceRefModel { file: file@, kind, field_path: field_path@ }),
    {
        AuthoringSourceRef {
            file: crate::text::string_of(file),
            kind,
            field_path: crate::text::string_of(field_path),
        }
    }
}

#[derive(Debug, Clone, Copy, PartialEq, Eq, PartialOrd, Ord, Structural)]
pub enum GeneratedDeclarationKind {
    Material,
    Model,
    BlockShape,
    BlockVisual,
    ContentFamily,
    BlockTag,
}

pub open spec fn spec_declaration_kind_str(kind: GeneratedDeclarationKind) -> &'static str {
    match kind {
        GeneratedDeclarationKind::Material => "materials",
        GeneratedDeclarationKind::Model => "models",
        GeneratedDeclarationKind::BlockShape => "block_shapes",
        GeneratedDeclarationKind::BlockVisual => "block_visuals",
        GeneratedDeclarationKind::ContentFamily => "families",
        GeneratedDeclarationKind::BlockTag => "block_tags",
    }
}

impl GeneratedDeclarationKind {
    pub fn as_str(self) -> (s: &'static str)
        ensures
            s == spec_declaration_kind_str(self),
    {
        match self {
            GeneratedDeclarationKind::Material => "materials",
            GeneratedDeclarationKind::Model => "models",
            GeneratedDeclarationKind::BlockShape => "block_shapes",
            GeneratedDeclarationKind::BlockVisual => "block_visuals",
            GeneratedDeclarationKind::ContentFamily => "families",
            GeneratedDeclarationKind::BlockTag => "block_tags",
        }
    }
}

#[derive(Debug, Clone, PartialEq, Eq)]
pub struct GeneratedDeclaration {
    pub kind: GeneratedDeclarationKind,
    pub key: String,
    pub source: AuthoringSourceRef,
}

/// Mathematical value of a generated declaration.
pub struct DeclarationModel {
    pub kind: GeneratedDeclarationKind,
    pub key: Seq<char>,
    pub source: SourceRefModel,
}

impl View for GeneratedDeclaration {
    type V = DeclarationModel;

    open spec fn view(&self) -> DeclarationModel {
        DeclarationModel { kind: self.kind, key: self.key@, source: self.source@ }
    }
}

/// A declaration request: what a compiler asks to generate, and from where.
pub open spec fn decl(
    kind: GeneratedDeclarationKind,
    key: Seq<char>,
    file: Seq<char>,
    src_kind: AuthoringSourceKind,
    field_path: Seq<char>,
) -> DeclarationModel {
    DeclarationModel {
        kind,
        key,
        source: SourceRefModel { file, kind: src_kind, field_path },
    }
}

#[derive(Debug, Clone, PartialEq, Eq)]
pub struct GeneratedFile {
    pub relative_path: String,
    pub contents: String,
}

#[derive(Debug, Clone, PartialEq, Eq)]
pub struct CompiledVanillaProfile {
    pub profile_id: &'static str,
    pub canonical_schema: u32,
    pub declarations: Vec<GeneratedDeclaration>,
    pub canonical_manifest_source: String,
    pub generated_files: Vec<GeneratedFile>,
}

/// The declarations of a profile as mathematical values.
pub open spec fn decl_models(decls: Seq<GeneratedDeclaration>) -> Seq<DeclarationModel> {
    decls.map_values(|d: GeneratedDeclaration| d@)
}

/// Keys of the declarations of one kind, in declaration order.
pub open spec fn keys_of(decls: Seq<DeclarationModel>, kind: GeneratedDeclarationKind) -> Seq<
    Seq<char>,
>
    decreases decls.len(),
{
    if decls.len() == 0 {
        Seq::empty()
    } else {
        keys_of(decls.drop_last(), kind) + if decls.last().kind == kind {
            seq![decls.last().key]
        } else {
            Seq::empty()
        }
    }
}

/// Declaration `i` has the given kind and key.
pub open spec fn decl_matches(
    decls: Seq<DeclarationModel>,
    i: int,
    kind: GeneratedDeclarationKind,
    key: Seq<char>,
) -> bool {
    decls[i].kind == kind && decls[i].key == key
}

impl CompiledVanillaProfile {
    /// Keys of all generated declarations of `kind`, in declaration order.
    pub fn keys_for(&self, kind: GeneratedDeclarationKind) -> (keys: Vec<&str>)
        ensures
            keys@.map_values(|k: &str| k@) == keys_of(decl_models(self.declarations@), kind),
    {
        let ghost all = decl_models(self.declarations@);
        let mut keys: Vec<&str> = Vec::new();
        let mut i: usize = 0;
        while i < self.declarations.len()
            invariant
                0 <= i <= self.declarations@.len(),
                all == decl_models(self.declarations@),
                keys@.map_values(|k: &str| k@) == keys_of(all.take(i as int), kind),
            decreases self.declarations.len() - i,
        {
            let d = &self.declarations[i];
            proof {
                assert(all.take(i + 1).drop_last() =~= all.take(i as int));
                assert(all.take(i + 1).last() == d@);
            }
            if d.kind == kind {
                keys.push(d.key.as_str());
                assert(keys@.map_values(|k: &str| k@) =~= keys_of(all.take(i + 1), kind));
            } else {
                assert(keys@.map_values(|k: &str| k@) =~= keys_of(all.take(i + 1), kind));
            }
            i = i + 1;
        }
        assert(all.take(self.declarations@.len() as int) =~= all);
        keys
    }

    /// The source of the first declaration of `kind` with `key`, if any.
    pub fn source_for(&self, kind: GeneratedDeclarationKind, key: &str) -> (source: Option<
        &AuthoringSourceRef,
    >)
        ensures
            match source {
                Some(s) => exists|i: int|
                    0 <= i < self.declarations@.len() && decl_matches(
                        decl_models(self.declarations@),
                        i,
                        kind,
                        key@,
                    ) && (forall|j: int|
                        0 <= j < i ==> !decl_matches(decl_models(self.declarations@), j, kind, key@))
                        && s@ == self.declarations@[i].source@,
                None => forall|j: int|
                    0 <= j < self.declarations@.len() ==> !decl_matches(
                        decl_models(self.declarations@),
                        j,
                        kind,
                        key@,
                    ),
            },
    {
        let ghost all = decl_models(self.declarations@);
        let mut i: usize = 0;
        while i < self.declarations.len()
            invariant
                0 <= i <= self.declarations@.len(),
                all == decl_models(self.declarations@),
                forall|j: int| 0 <= j < i ==> !decl_matches(all, j, kind, key@),
            decreases self.declarations.len() - i,
        {
            let d = &self.declarations[i];
            if d.kind == kind && str_eq(d.key.as_str(), key) {
                assert(decl_matches(all, i as int, kind, key@));
                return Some(&d.source);
            }
            i = i + 1;
        }
        None
    }
}

#[derive(Debug, Clone, PartialEq, Eq)]
pub enum VanillaAuthoringError {
    DuplicateGeneratedDeclaration {
        kind: GeneratedDeclarationKind,
        key: String,
        first_source: Box<AuthoringSourceRef>,
        second_source: Box<AuthoringSourceRef>,
    },
}


// ---------------------------------------------------------------------------
// Declaration ledger: duplicate detection shared by both compilers
// ---------------------------------------------------------------------------

/// Index of the first request with this kind and key, or `-1`.
pub open spec fn first_index_of(
    reqs: Seq<DeclarationModel>,
    kind: GeneratedDeclarationKind,
    key: Seq<char>,
) -> int
    decreases reqs.len(),
{
    if reqs.len() == 0 {
        -1
    } else {
        let r = first_index_of(reqs.drop_last(), kind, key);
        if r >= 0 {
            r
        } else if reqs.last().kind == kind && reqs.last().key == key {
            reqs.len() - 1
        } else {
            -1
        }
    }
}

/// Request `j` is refused: it repeats the kind and key of an earlier request
/// and is not a block tag (tags may be declared by many sources).
pub open spec fn rejects_at(reqs: Seq<DeclarationModel>, j: int) -> bool {
    &&& 0 <= j < reqs.len()
    &&& reqs[j].kind != GeneratedDeclarationKind::BlockTag
    &&& first_index_of(reqs.take(j), reqs[j].kind, reqs[j].key) >= 0
}

/// The first refused request, if any.
pub open spec fn first_rejection(reqs: Seq<DeclarationModel>) -> Option<int>
    decreases reqs.len(),
{
    if reqs.len() == 0 {
        None
    } else {
        match first_rejection(reqs.drop_last()) {
            Some(j) => Some(j),
            None => if rejects_at(reqs, reqs.len() - 1) {
                Some(reqs.len() - 1)
            } else {
                None
            },
        }
    }
}

/// What a refused request reports: its kind and key, the source of the first
/// request with that kind and key, and its own source.
pub struct DuplicateModel {
    pub kind: GeneratedDeclarationKind,
    pub key: Seq<char>,
    pub first_source: SourceRefModel,
    pub second_source: SourceRefModel,
}

pub open spec fn duplicate_at(reqs: Seq<DeclarationModel>, j: int) -> DuplicateModel {
    DuplicateModel {
        kind: reqs[j].kind,
        key: reqs[j].key,
        first_source: reqs[first_index_of(reqs.take(j), reqs[j].kind, reqs[j].key)].source,
        second_source: reqs[j].source,
    }
}

/// Outcome of making `reqs` on top of the accepted declarations `base`: the
/// first refusal, or all declarations accepted in order.
pub open spec fn ledger_outcome(base: Seq<DeclarationModel>, reqs: Seq<DeclarationModel>) -> Result<
    Seq<DeclarationModel>,
    DuplicateModel,
> {
    match first_rejection(base + reqs) {
        Some(j) => Err(duplicate_at(base + reqs, j)),
        None => Ok(base + reqs),
    }
}

impl View for VanillaAuthoringError {
    type V = DuplicateModel;

    open spec fn view(&self) -> DuplicateModel {
        match self {
            VanillaAuthoringError::DuplicateGeneratedDeclaration {
                kind,
                key,
                first_source,
                second_source,
            } => DuplicateModel {
                kind: *kind,
                key: key@,
                first_source: first_source@,
                second_source: second_source@,
            },
        }
    }
}

proof fn lemma_first_index_of_bounds(s: Seq<DeclarationModel>, kind: GeneratedDeclarationKind, key: Seq<char>)
    ensures
        -1 <= first_index_of(s, kind, key) < s.len(),
        first_index_of(s, kind, key) >= 0 ==> s[first_index_of(s, kind, key)].kind == kind
            && s[first_index_of(s, kind, key)].key == key,
        first_index_of(s, kind, key) < 0 ==> forall|i: int|
            0 <= i < s.len() ==> !(s[i].kind == kind && s[i].key == key),
    decreases s.len(),
{
    if s.len() > 0 {
        lemma_first_index_of_bounds(s.drop_last(), kind, key);
        assert forall|i: int| 0 <= i < s.len() - 1 implies s[i] == s.drop_last()[i] by {}
    }
}

proof fn lemma_first_index_of_is(s: Seq<DeclarationModel>, i: int, kind: GeneratedDeclarationKind, key: Seq<char>)
    requires
        0 <= i < s.len(),
        s[i].kind == kind && s[i].key == key,
        forall|j: int| 0 <= j < i ==> !(s[j].kind == kind && s[j].key == key),
    ensures
        first_index_of(s, kind, key) == i,
    decreases s.len(),
{
    if i < s.len() - 1 {
        assert forall|j: int| 0 <= j <= i implies s[j] == s.drop_last()[j] by {}
        lemma_first_index_of_is(s.drop_last(), i, kind, key);
    } else {
        lemma_first_index_of_bounds(s.drop_last(), kind, key);
        assert forall|j: int| 0 <= j < s.len() - 1 implies s[j] == s.drop_last()[j] by {}
    }
}

/// A refusal within a prefix stays the first refusal of any extension.
proof fn lemma_first_rejection_prefix(s: Seq<DeclarationModel>, n: int)
    requires
        0 <= n <= s.len(),
        first_rejection(s.take(n)) is Some,
    ensures
        first_rejection(s) == first_rejection(s.take(n)),
    decreases s.len(),
{
    if n < s.len() {
        assert(s.drop_last().take(n) =~= s.take(n));
        lemma_first_rejection_prefix(s.drop_last(), n);
    } else {
        assert(s.take(n) =~= s);
    }
}

proof fn lemma_first_rejection_bound(s: Seq<DeclarationModel>)
    ensures
        first_rejection(s) matches Some(j) ==> 0 <= j < s.len() && rejects_at(s, j),
    decreases s.len(),
{
    if s.len() > 0 {
        lemma_first_rejection_bound(s.drop_last());
        if let Some(j) = first_rejection(s.drop_last()) {
            assert(s.drop_last().take(j) =~= s.take(j));
            assert(s.drop_last()[j] == s[j]);
        }
    }
}

/// Making `a` then `b` is making `a + b`.
pub proof fn lemma_ledger_outcome_concat(
    base: Seq<DeclarationModel>,
    a: Seq<DeclarationModel>,
    b: Seq<DeclarationModel>,
)
    requires
        first_rejection(base) is None,
    ensures
        ledger_outcome(base, a + b) == match ledger_outcome(base, a) {
            Err(e) => Err(e),
            Ok(base2) => ledger_outcome(base2, b),
        },
{
    let s = base + (a + b);
    assert(base + a + b =~= s);
    assert(s.take((base + a).len() as int) =~= base + a);
    match first_rejection(base + a) {
        Some(j) => {
            lemma_first_rejection_prefix(s, (base + a).len() as int);
            lemma_first_rejection_bound(base + a);
            assert(s.take(j) =~= (base + a).take(j));
            assert(s[j] == (base + a)[j]);
            let f = first_index_of(s.take(j), s[j].kind, s[j].key);
            lemma_first_index_of_bounds(s.take(j), s[j].kind, s[j].key);
            assert(s[f] == (base + a)[f]);
        },
        None => {
        },
    }
}

/// A new source reference with the same value.
pub fn clone_source(s: &AuthoringSourceRef) -> (r: AuthoringSourceRef)
    ensures
        r@ == s@,
{
    AuthoringSourceRef { file: s.file.clone(), kind: s.kind, field_path: s.field_path.clone() }
}

/// Makes one declaration request: refused with the first source when it
/// repeats the kind and key of an accepted declaration (unless it is a block
/// tag), accepted otherwise.
pub fn add_declaration(
    decls: &mut Vec<GeneratedDeclaration>,
    kind: GeneratedDeclarationKind,
    key: String,
    source: AuthoringSourceRef,
) -> (r: Result<(), DuplicateModelWitness>)
    requires
        first_rejection(decl_models(old(decls)@)) is None,
    ensures
        match ledger_outcome(
            decl_models(old(decls)@),
            seq![DeclarationModel { kind, key: key@, source: source@ }],
        ) {
            Ok(after) => r is Ok && decl_models(final(decls)@) == after,
            Err(dup) => r is Err && r->Err_0.first_source@ == dup.first_source && r->Err_0.kind
                == dup.kind && r->Err_0.key@ == dup.key && r->Err_0.second_source@
                == dup.second_source && final(decls)@ == old(decls)@,
        },
{
    let ghost base = decl_models(decls@);
    let ghost req = DeclarationModel { kind, key: key@, source: source@ };
    let ghost s = base.push(req);
    assert(base + seq![req] =~= s);
    assert(s.take(base.len() as int) =~= base);
    assert(s.drop_last() =~= base);
    let mut i: usize = 0;
    while i < decls.len()
        invariant
            0 <= i <= decls@.len(),
            decls@ == old(decls)@,
            base == decl_models(decls@),
            base == decl_models(old(decls)@),
            req == (DeclarationModel { kind, key: key@, source: source@ }),
            s == base.push(req),
            base + seq![req] == s,
            s.take(base.len() as int) == base,
            s.drop_last() == base,
            first_rejection(base) is None,
            forall|j: int| 0 <= j < i ==> !(base[j].kind == kind && base[j].key == key@),
        decreases decls.len() - i,
    {
        if decls[i].kind == kind && decls[i].key == key {
            proof {
                lemma_first_index_of_is(base, i as int, kind, key@);
            }
            if kind == GeneratedDeclarationKind::BlockTag {
                decls.push(GeneratedDeclaration { kind, key, source });
                assert(decl_models(decls@) =~= s);
                return Ok(());
            }
            let first_source = clone_source(&decls[i].source);
            return Err(
                DuplicateModelWitness { kind, key, first_source, second_source: source },
            );
        }
        i = i + 1;
    }
    proof {
        lemma_first_index_of_bounds(base, kind, key@);
    }
    decls.push(GeneratedDeclaration { kind, key, source });
    assert(decl_models(decls@) =~= s);
    Ok(())
}

/// The parts of a refused declaration request, as returned by [`add_declaration`].
pub struct DuplicateModelWitness {
    pub kind: GeneratedDeclarationKind,
    pub key: String,
    pub first_source: AuthoringSourceRef,
    pub second_source: AuthoringSourceRef,
}


/// Making the first `i + 1` requests is making the first `i`, then request `i`.
pub proof fn lemma_outcome_step(base: Seq<DeclarationModel>, reqs: Seq<DeclarationModel>, i: int)
    requires
        first_rejection(base) is None,
        0 <= i < reqs.len(),
    ensures
        ledger_outcome(base, reqs.take(i + 1)) == match ledger_outcome(base, reqs.take(i)) {
            Err(e) => Err(e),
            Ok(b) => ledger_outcome(b, seq![reqs[i]]),
        },
{
    assert(reqs.take(i + 1) =~= reqs.take(i) + seq![reqs[i]]);
    lemma_ledger_outcome_concat(base, reqs.take(i), seq![reqs[i]]);
}

/// A refusal among the first `k` requests is the outcome of all of them.
pub proof fn lemma_outcome_prefix(base: Seq<DeclarationModel>, reqs: Seq<DeclarationModel>, k: int)
    requires
        first_rejection(base) is None,
        0 <= k <= reqs.len(),
        ledger_outcome(base, reqs.take(k)) is Err,
    ensures
        ledger_outcome(base, reqs) == ledger_outcome(base, reqs.take(k)),
{
    assert(reqs =~= reqs.take(k) + reqs.skip(k));
    lemma_ledger_outcome_concat(base, reqs.take(k), reqs.skip(k));
}

/// Accepted declarations never hold a refusal.
pub proof fn lemma_outcome_ok_clean(base: Seq<DeclarationModel>, reqs: Seq<DeclarationModel>)
    requires
        ledger_outcome(base, reqs) is Ok,
    ensures
        first_rejection(ledger_outcome(base, reqs)->Ok_0) is None,
{
}

/// Without a first refusal, no request is refused.
proof fn lemma_no_rejection(s: Seq<DeclarationModel>)
    requires
        first_rejection(s) is None,
    ensures
        forall|j: int| 0 <= j < s.len() ==> !rejects_at(s, j),
    decreases s.len(),
{
    if s.len() > 0 {
        let d = s.drop_last();
        lemma_no_rejection(d);
        assert forall|j: int| 0 <= j < s.len() implies !rejects_at(s, j) by {
            if j < s.len() - 1 {
                assert(s.take(j) =~= d.take(j));
                assert(s[j] == d[j]);
                assert(!rejects_at(d, j));
            }
        }
    }
}

/// Accepted declarations never repeat a kind and key, except block tags: a
/// block tag may be declared by many sources, every other generated
/// declaration exactly once.
pub proof fn lemma_accepted_declarations_unique(
    base: Seq<DeclarationModel>,
    reqs: Seq<DeclarationModel>,
)
    requires
        ledger_outcome(base, reqs) is Ok,
    ensures
        ({
            let d = ledger_outcome(base, reqs)->Ok_0;
            forall|i: int, j: int|
                #![trigger d[i], d[j]]
                0 <= i < j < d.len() && d[j].kind != GeneratedDeclarationKind::BlockTag ==> !(
                d[i].kind == d[j].kind && d[i].key == d[j].key)
        }),
{
    let s = base + reqs;
    assert(ledger_outcome(base, reqs)->Ok_0 == s);
    lemma_no_rejection(s);
    assert forall|i: int, j: int|
        0 <= i < j < s.len() && s[j].kind != GeneratedDeclarationKind::BlockTag implies !(
    s[i].kind == s[j].kind && s[i].key == s[j].key) by {
        assert(!rejects_at(s, j));
        lemma_first_index_of_bounds(s.take(j), s[j].kind, s[j].key);
        assert(s.take(j)[i] == s[i]);
    }
}

/// A refused request names what it repeats: the refusal is the first request
/// `j` whose kind and key were already declared and that is not a block tag;
/// it reports that kind and key, the source of the first declaration `i` with
/// them, and its own source; everything before `j` was accepted.
pub proof fn lemma_refusal_reports_first_and_second_source(
    base: Seq<DeclarationModel>,
    reqs: Seq<DeclarationModel>,
)
    requires
        ledger_outcome(base, reqs) is Err,
    ensures
        ({
            let s = base + reqs;
            let dup = ledger_outcome(base, reqs)->Err_0;
            exists|i: int, j: int|
                #![trigger s[i], s[j]]
                0 <= i < j < s.len() && dup.kind != GeneratedDeclarationKind::BlockTag && s[i].kind
                    == dup.kind && s[j].kind == dup.kind && s[i].key == dup.key && s[j].key
                    == dup.key && dup.first_source == s[i].source && dup.second_source
                    == s[j].source && (forall|k: int|
                    0 <= k < i ==> !(s[k].kind == dup.kind && s[k].key == dup.key))
                    && first_rejection(s.take(j)) is None
        }),
{
    let s = base + reqs;
    let j = first_rejection(s)->Some_0;
    lemma_first_rejection_bound(s);
    lemma_first_rejection_take(s);
    let i = first_index_of(s.take(j), s[j].kind, s[j].key);
    lemma_first_index_of_bounds(s.take(j), s[j].kind, s[j].key);
    assert(s.take(j)[i] == s[i]);
    assert forall|k: int| 0 <= k < i implies !(s[k].kind == s[j].kind && s[k].key == s[j].key) by {
        lemma_first_index_of_below(s.take(j), s[j].kind, s[j].key, k);
        assert(s.take(j)[k] == s[k]);
    }
}

/// Before the first refusal, nothing is refused.
proof fn lemma_first_rejection_take(s: Seq<DeclarationModel>)
    requires
        first_rejection(s) is Some,
    ensures
        first_rejection(s.take(first_rejection(s)->Some_0)) is None,
    decreases s.len(),
{
    let d = s.drop_last();
    match first_rejection(d) {
        Some(j) => {
            lemma_first_rejection_take(d);
            lemma_first_rejection_bound(d);
            assert(d.take(j) =~= s.take(j));
        },
        None => {
            assert(s.take(s.len() - 1) =~= d);
        },
    }
}

/// No request before the first match has the kind and key.
proof fn lemma_first_index_of_below(
    s: Seq<DeclarationModel>,
    kind: GeneratedDeclarationKind,
    key: Seq<char>,
    k: int,
)
    requires
        0 <= k < first_index_of(s, kind, key),
    ensures
        !(s[k].kind == kind && s[k].key == key),
    decreases s.len(),
{
    let d = s.drop_last();
    lemma_first_index_of_bounds(d, kind, key);
    if first_index_of(d, kind, key) >= 0 {
        lemma_first_index_of_below(d, kind, key, k);
        assert(d[k] == s[k]);
    } else {
        assert(d[k] == s[k]);
    }
}

/// A block-tag request is never refused.
pub proof fn lemma_block_tag_accepted(base: Seq<DeclarationModel>, req: DeclarationModel)
    requires
        first_rejection(base) is None,
        req.kind == GeneratedDeclarationKind::BlockTag,
    ensures
        ledger_outcome(base, seq![req]) == Ok::<Seq<DeclarationModel>, DuplicateModel>(
            base.push(req),
        ),
{
    assert(base + seq![req] =~= base.push(req));
    assert(base.push(req).drop_last() =~= base);
}

/// A request whose kind and key were not declared yet is accepted.
pub proof fn lemma_fresh_request_accepted(base: Seq<DeclarationModel>, req: DeclarationModel)
    requires
        first_rejection(base) is None,
        forall|i: int| 0 <= i < base.len() ==> !(base[i].kind == req.kind && base[i].key == req.key),
    ensures
        ledger_outcome(base, seq![req]) == Ok::<Seq<DeclarationModel>, DuplicateModel>(
            base.push(req),
        ),
{
    let s = base.push(req);
    assert(base + seq![req] =~= s);
    assert(s.drop_last() =~= base);
    assert(s.take(base.len() as int) =~= base);
    lemma_first_index_of_bounds(base, req.kind, req.key);
    if first_index_of(base, req.kind, req.key) >= 0 {
        let f = first_index_of(base, req.kind, req.key);
        assert(base[f].kind == req.kind && base[f].key == req.key);
    }
}
} // verus!
