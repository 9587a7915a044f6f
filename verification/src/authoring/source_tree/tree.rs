//! A whole source tree compiled at once: the shapes become the models file,
//! each block-type source in turn adds its declarations, file and tags, and
//! the tags file and README close the output.

use vstd::prelude::*;
use super::{
    compiled, event_outcome, file_model, lemma_compiled_chain, lemma_compiled_fail_prefix,
    lemma_compiled_items_step, lemma_compiled_declarations_unique, stored_file, CompileEvent, CompilerModel, SourceErrorModel,
    SourceTreeCompileError, SourceTreeCompiler, concat_map,
};
use super::docs::{BlockDoc, Loaded, ShapeDoc, WorldPropertyDoc};
use super::driver::{block_events, block_file, block_tags, tags_text, COMPILED_README};
use super::files::{canonical_manifest, inserted_after_equal_paths, sorted_by_path};
use super::models::{models_text, shape_events_fn};
use crate::authoring::{
    decl_models, first_rejection, CompiledVanillaProfile, GeneratedDeclarationKind, DeclarationModel, GeneratedFile,
    CANONICAL_MANIFEST_SCHEMA, VANILLA_BLOCKTYPES_PROFILE_V1,
};
use crate::text::text_le;
use super::tags::index_ascending;
use super::lemma_tags_after_ascending;

verus! {

/// Paths and contents of generated files.
pub open spec fn file_models(files: Seq<GeneratedFile>) -> Seq<(Seq<char>, Seq<char>)> {
    files.map_values(|f: GeneratedFile| file_model(f))
}

/// Where a file with `path` goes among `files`: after the last file, counted
/// from the end, whose path is not greater than `path`.
pub open spec fn insert_index(files: Seq<(Seq<char>, Seq<char>)>, path: Seq<char>) -> int
    decreases files.len(),
{
    if files.len() == 0 {
        0
    } else if text_le(files.last().0, path) {
        files.len() as int
    } else {
        insert_index(files.drop_last(), path)
    }
}

/// `files` with `file` added in path order, after the files with equal
/// paths.
pub open spec fn with_file(
    files: Seq<(Seq<char>, Seq<char>)>,
    file: (Seq<char>, Seq<char>),
) -> Seq<(Seq<char>, Seq<char>)> {
    files.insert(insert_index(files, file.0), file)
}

proof fn lemma_insert_index_is(files: Seq<(Seq<char>, Seq<char>)>, path: Seq<char>, k: int)
    requires
        0 <= k <= files.len(),
        forall|i: int| 0 <= i < k ==> text_le(#[trigger] files[i].0, path),
        forall|i: int| k <= i < files.len() ==> !text_le(#[trigger] files[i].0, path),
    ensures
        insert_index(files, path) == k,
    decreases files.len(),
{
    if files.len() > 0 && k < files.len() {
        assert(!text_le(files[files.len() - 1].0, path));
        let shorter = files.drop_last();
        assert forall|i: int| 0 <= i < k implies text_le(#[trigger] shorter[i].0, path) by {
            assert(shorter[i] == files[i]);
        }
        assert forall|i: int| k <= i < shorter.len() implies !text_le(#[trigger] shorter[i].0, path) by {
            assert(shorter[i] == files[i]);
        }
        lemma_insert_index_is(shorter, path, k);
    } else if files.len() > 0 {
        assert(text_le(files[files.len() - 1].0, path));
    }
}

/// A file inserted after the files with equal paths is the file added by
/// [`with_file`].
pub proof fn lemma_inserted_is_with_file(
    before: Seq<GeneratedFile>,
    f: GeneratedFile,
    after: Seq<GeneratedFile>,
)
    requires
        inserted_after_equal_paths(before, f, after),
    ensures
        file_models(after) == with_file(file_models(before), file_model(f)),
{
    let k = choose|k: int|
        0 <= k <= before.len() && after == before.insert(k, f) && (forall|i: int|
            0 <= i < k ==> text_le(#[trigger] before[i].relative_path@, f.relative_path@)) && (
        forall|i: int|
            k <= i < before.len() ==> !text_le(
                #[trigger] before[i].relative_path@,
                f.relative_path@,
            ));
    let models = file_models(before);
    assert forall|i: int| 0 <= i < k implies text_le(#[trigger] models[i].0, f.relative_path@) by {
        assert(models[i] == file_model(before[i]));
        assert(text_le(before[i].relative_path@, f.relative_path@));
    }
    assert forall|i: int| k <= i < models.len() implies !text_le(
        #[trigger] models[i].0,
        f.relative_path@,
    ) by {
        assert(models[i] == file_model(before[i]));
        assert(!text_le(before[i].relative_path@, f.relative_path@));
    }
    lemma_insert_index_is(models, f.relative_path@, k);
    assert(file_models(after) =~= models.insert(k, file_model(f)));
}

/// What compiling one block-type source does, for each source.
#[verifier::opaque]
pub open spec fn block_events_fn(
    shapes: Seq<Loaded<ShapeDoc>>,
    wps: Seq<Loaded<WorldPropertyDoc>>,
    content_root: Seq<char>,
) -> spec_fn(Loaded<BlockDoc>) -> Seq<CompileEvent> {
    |b: Loaded<BlockDoc>| block_events(b, shapes, wps, content_root)
}

proof fn lemma_block_events_fn(
    shapes: Seq<Loaded<ShapeDoc>>,
    wps: Seq<Loaded<WorldPropertyDoc>>,
    content_root: Seq<char>,
    b: Loaded<BlockDoc>,
)
    ensures
        block_events_fn(shapes, wps, content_root)(b) == block_events(b, shapes, wps, content_root),
{
    reveal(block_events_fn);
}

/// One more block compiled: a failure is the outcome of all blocks, and
/// otherwise the blocks so far are done.
proof fn lemma_block_step(
    s1: CompilerModel,
    before: CompilerModel,
    new: CompilerModel,
    shapes: Seq<Loaded<ShapeDoc>>,
    wps: Seq<Loaded<WorldPropertyDoc>>,
    content_root: Seq<char>,
    blocks: Seq<Loaded<BlockDoc>>,
    i: int,
    failure: Option<SourceErrorModel>,
)
    requires
        0 <= i < blocks.len(),
        compiled(s1, before, None, concat_map(blocks.take(i), block_events_fn(shapes, wps, content_root))),
        compiled(before, new, failure, block_events(blocks[i], shapes, wps, content_root)),
    ensures
        failure is None ==> compiled(s1, new, None, concat_map(blocks.take(i + 1), block_events_fn(shapes, wps, content_root))),
        failure is Some ==> compiled(s1, new, failure, concat_map(blocks, block_events_fn(shapes, wps, content_root))),
{
    lemma_block_events_fn(shapes, wps, content_root, blocks[i]);
    lemma_compiled_items_step(s1, before, new, blocks, block_events_fn(shapes, wps, content_root), i, failure);
}

/// Everything a source tree asks for, in order: the models of its shapes,
/// then each block-type source.
pub open spec fn tree_events(
    content_root: Seq<char>,
    shapes: Seq<Loaded<ShapeDoc>>,
    wps: Seq<Loaded<WorldPropertyDoc>>,
    blocks: Seq<Loaded<BlockDoc>>,
) -> Seq<CompileEvent> {
    concat_map(shapes, shape_events_fn()) + concat_map(blocks, block_events_fn(shapes, wps, content_root))
}

/// The files after `blocks` each added theirs to `files`.
pub open spec fn blocks_files(
    files: Seq<(Seq<char>, Seq<char>)>,
    blocks: Seq<Loaded<BlockDoc>>,
    shapes: Seq<Loaded<ShapeDoc>>,
    wps: Seq<Loaded<WorldPropertyDoc>>,
) -> Seq<(Seq<char>, Seq<char>)>
    decreases blocks.len(),
{
    if blocks.len() == 0 {
        files
    } else {
        let b = block_file(blocks.last(), shapes, wps);
        with_file(blocks_files(files, blocks.drop_last(), shapes, wps), stored_file(b.0, b.1))
    }
}

/// The tag index after `blocks` each recorded their tags.
pub open spec fn blocks_tags(blocks: Seq<Loaded<BlockDoc>>) -> Seq<(Seq<char>, Seq<Seq<char>>)>
    decreases blocks.len(),
{
    if blocks.len() == 0 {
        Seq::empty()
    } else {
        block_tags(blocks_tags(blocks.drop_last()), blocks.last())
    }
}

/// The generated files of a source tree that compiles, in path order: the
/// models file, each block-type source's file, the tags file and the
/// README.
pub open spec fn tree_files(
    shapes: Seq<Loaded<ShapeDoc>>,
    wps: Seq<Loaded<WorldPropertyDoc>>,
    blocks: Seq<Loaded<BlockDoc>>,
) -> Seq<(Seq<char>, Seq<char>)> {
    let models = with_file(Seq::empty(), stored_file("models/common.toml"@, models_text(shapes)));
    let all = blocks_files(models, blocks, shapes, wps);
    let tagged = with_file(all, stored_file("tags/terrain.toml"@, tags_text(blocks_tags(blocks))));
    with_file(tagged, stored_file("README.md"@, COMPILED_README@))
}

/// A failure reported after `a` succeeded and `b` failed with it is the
/// outcome of everything.
proof fn lemma_outcome_of_failure(
    s0: CompilerModel,
    mid: CompilerModel,
    new: CompilerModel,
    e: SourceErrorModel,
    a: Seq<CompileEvent>,
    b: Seq<CompileEvent>,
)
    requires
        compiled(s0, mid, None, a),
        compiled(mid, new, Some(e), b),
    ensures
        event_outcome(s0.declarations, a + b) == Err::<Seq<DeclarationModel>, SourceErrorModel>(e),
{
    lemma_compiled_chain(s0, mid, new, Some(e), a, b);
}

/// Compiles a loaded source tree: `shapes` and `worldproperties` as loaded
/// and checked, and the block-type sources in path order, each parsed as the
/// document its header names. Paths in errors about world-property
/// references are joined to `content_root`.
pub fn compile_source_tree(
    content_root: &str,
    shapes: &Vec<Loaded<ShapeDoc>>,
    worldproperties: &Vec<Loaded<WorldPropertyDoc>>,
    blocks: &Vec<Loaded<BlockDoc>>,
) -> (r: Result<CompiledVanillaProfile, SourceTreeCompileError>)
    ensures
        match r {
            Err(e) => event_outcome(
                Seq::empty(),
                tree_events(content_root@, shapes@, worldproperties@, blocks@),
            ) == Err::<Seq<DeclarationModel>, SourceErrorModel>(e@),
            Ok(p) => {
                &&& event_outcome(
                    Seq::empty(),
                    tree_events(content_root@, shapes@, worldproperties@, blocks@),
                ) == Ok::<Seq<DeclarationModel>, SourceErrorModel>(decl_models(p.declarations@))
                &&& file_models(p.generated_files@) == tree_files(
                    shapes@,
                    worldproperties@,
                    blocks@,
                )
                &&& sorted_by_path(p.generated_files@)
                &&& p.canonical_manifest_source@ == canonical_manifest(p.generated_files@)
                &&& p.profile_id@ == VANILLA_BLOCKTYPES_PROFILE_V1@
                &&& p.canonical_schema == CANONICAL_MANIFEST_SCHEMA
            },
        },
{
    let ghost shape_ev = concat_map(shapes@, shape_events_fn());
    let ghost bf = block_events_fn(shapes@, worldproperties@, content_root@);
    let ghost models0 = with_file(
        Seq::empty(),
        stored_file("models/common.toml"@, models_text(shapes@)),
    );
    let mut compiler = SourceTreeCompiler::new();
    let ghost s0 = compiler@;
    match compiler.compile_models_file(shapes) {
        Err(e) => {
            proof {
                lemma_compiled_fail_prefix(s0, compiler@, e@, shape_ev, concat_map(blocks@, bf));
            }
            return Err(e);
        },
        Ok(()) => {},
    }
    let ghost s1 = compiler@;
    proof {
        let f = choose|f: GeneratedFile|
            file_model(f) == stored_file("models/common.toml"@, models_text(shapes@))
                && inserted_after_equal_paths(s0.files, f, s1.files);
        lemma_inserted_is_with_file(s0.files, f, s1.files);
        assert(file_models(s0.files) =~= Seq::<(Seq<char>, Seq<char>)>::empty());
        assert(blocks@.take(0) =~= Seq::<Loaded<BlockDoc>>::empty());
        assert(compiled(s1, s1, None, concat_map(blocks@.take(0), bf)));
    }
    let mut i: usize = 0;
    while i < blocks.len()
        invariant
            0 <= i <= blocks@.len(),
            compiler.wf(),
            bf == block_events_fn(shapes@, worldproperties@, content_root@),
            compiled(s0, s1, None, shape_ev),
            s0.declarations == Seq::<DeclarationModel>::empty(),
            shape_ev == concat_map(shapes@, shape_events_fn()),
            compiled(s1, compiler@, None, concat_map(blocks@.take(i as int), bf)),
            file_models(compiler@.files) == blocks_files(
                models0,
                blocks@.take(i as int),
                shapes@,
                worldproperties@,
            ),
            compiler@.tags == blocks_tags(blocks@.take(i as int)),
            models0 == with_file(
                Seq::empty(),
                stored_file("models/common.toml"@, models_text(shapes@)),
            ),
        decreases blocks.len() - i,
    {
        let ghost before = compiler@;
        let rb = compiler.compile_block(&blocks[i], shapes, worldproperties, content_root);
        proof {
            lemma_block_step(
                s1,
                before,
                compiler@,
                shapes@,
                worldproperties@,
                content_root@,
                blocks@,
                i as int,
                super::failure_of(rb),
            );
        }
        match rb {
            Err(e) => {
                proof {
                    lemma_outcome_of_failure(s0, s1, compiler@, e@, shape_ev, concat_map(blocks@, bf));
                }
                return Err(e);
            },
            Ok(()) => {},
        }
        proof {
            let b = block_file(blocks@[i as int], shapes@, worldproperties@);
            let f = choose|f: GeneratedFile|
                file_model(f) == stored_file(b.0, b.1) && inserted_after_equal_paths(
                    before.files,
                    f,
                    compiler@.files,
                );
            lemma_inserted_is_with_file(before.files, f, compiler@.files);
            let taken = blocks@.take(i as int + 1);
            assert(taken.drop_last() =~= blocks@.take(i as int));
            assert(taken.last() == blocks@[i as int]);
        }
        i = i + 1;
    }
    let ghost s2 = compiler@;
    proof {
        assert(blocks@.take(blocks@.len() as int) =~= blocks@);
        lemma_compiled_chain(s0, s1, s2, None, shape_ev, concat_map(blocks@, bf));
    }
    let profile = compiler.finish_source_tree();
    proof {
        let (mid, tags_file, readme) = choose|
            mid: Seq<GeneratedFile>,
            tags_file: GeneratedFile,
            readme: GeneratedFile,
        |
            file_model(tags_file) == stored_file("tags/terrain.toml"@, tags_text(s2.tags))
                && inserted_after_equal_paths(s2.files, tags_file, mid) && file_model(readme)
                == stored_file("README.md"@, COMPILED_README@) && inserted_after_equal_paths(
                mid,
                readme,
                profile.generated_files@,
            );
        lemma_inserted_is_with_file(s2.files, tags_file, mid);
        lemma_inserted_is_with_file(mid, readme, profile.generated_files@);
    }
    Ok(profile)
}

/// A source tree that compiles generates each declaration (but block tags,
/// which many blocks share) under a kind and key no other declaration has.
pub proof fn lemma_compiled_tree_declarations_unique(
    content_root: Seq<char>,
    shapes: Seq<Loaded<ShapeDoc>>,
    wps: Seq<Loaded<WorldPropertyDoc>>,
    blocks: Seq<Loaded<BlockDoc>>,
)
    requires
        event_outcome(Seq::empty(), tree_events(content_root, shapes, wps, blocks)) is Ok,
    ensures
        ({
            let d = event_outcome(Seq::empty(), tree_events(content_root, shapes, wps, blocks))->Ok_0;
            forall|i: int, j: int|
                #![trigger d[i], d[j]]
                0 <= i < j < d.len() && d[j].kind != GeneratedDeclarationKind::BlockTag ==> !(
                d[i].kind == d[j].kind && d[i].key == d[j].key)
        }),
{
    assert(first_rejection(Seq::<DeclarationModel>::empty()) is None) by {
        reveal_with_fuel(first_rejection, 2);
    }
    lemma_compiled_declarations_unique(Seq::empty(), tree_events(content_root, shapes, wps, blocks));
}

/// The tags file of a compiled tree lists its tags in strictly ascending
/// order, each tag's blocks in strictly ascending order.
pub proof fn lemma_tree_tags_ascending(blocks: Seq<Loaded<BlockDoc>>)
    ensures
        index_ascending(blocks_tags(blocks)),
    decreases blocks.len(),
{
    if blocks.len() == 0 {
        assert(index_ascending(Seq::<(Seq<char>, Seq<Seq<char>>)>::empty()));
    } else {
        let prev = blocks_tags(blocks.drop_last());
        lemma_tree_tags_ascending(blocks.drop_last());
        match blocks.last().doc {
            BlockDoc::Cube(doc) => {
                lemma_tags_after_ascending(prev, doc.tags@, "freven.vanilla:"@ + doc.code@);
            },
            BlockDoc::Face(doc) => {
                lemma_tags_after_ascending(prev, doc.tags@, "freven.vanilla:"@ + doc.code@);
            },
            _ => {},
        }
    }
}

} // verus!
