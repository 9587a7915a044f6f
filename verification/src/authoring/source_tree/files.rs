//! The generated files of a compilation, kept in ascending order of path.

use vstd::prelude::*;
use crate::authoring::GeneratedFile;
use crate::text::{
    has_suffix, lemma_text_le_total, lemma_text_le_transitive, str_le, string_of, text_le,
    trim_end, trimmed_end, ends_with, joined,
};
use vstd::string::StringExecFns;

verus! {

/// Files in ascending order of path (files with equal paths in any order).
pub open spec fn sorted_by_path(files: Seq<GeneratedFile>) -> bool {
    forall|i: int, j: int|
        0 <= i < j < files.len() ==> text_le(
            #[trigger] files[i].relative_path@,
            #[trigger] files[j].relative_path@,
        )
}

/// `file` inserted at `k`, after every file whose path is not greater than
/// its own and before every file whose path is.
pub open spec fn inserted_after_equal_paths(
    before: Seq<GeneratedFile>,
    file: GeneratedFile,
    after: Seq<GeneratedFile>,
) -> bool {
    exists|k: int|
        0 <= k <= before.len() && after == before.insert(k, file) && (forall|i: int|
            0 <= i < k ==> text_le(#[trigger] before[i].relative_path@, file.relative_path@)) && (
        forall|i: int|
            k <= i < before.len() ==> !text_le(
                #[trigger] before[i].relative_path@,
                file.relative_path@,
            ))
}

/// Inserts `file` in path order; files with equal paths keep the order in
/// which they were inserted.
pub fn insert_by_path(files: &mut Vec<GeneratedFile>, file: GeneratedFile)
    requires
        sorted_by_path(old(files)@),
    ensures
        sorted_by_path(final(files)@),
        inserted_after_equal_paths(old(files)@, file, final(files)@),
{
    let mut k: usize = 0;
    while k < files.len() && str_le(files[k].relative_path.as_str(), file.relative_path.as_str())
        invariant
            0 <= k <= files@.len(),
            files@ == old(files)@,
            sorted_by_path(files@),
            forall|i: int|
                0 <= i < k ==> text_le(#[trigger] files@[i].relative_path@, file.relative_path@),
        decreases files.len() - k,
    {
        k = k + 1;
    }
    let ghost before = files@;
    proof {
        assert forall|i: int| k <= i < before.len() implies !text_le(
            #[trigger] before[i].relative_path@,
            file.relative_path@,
        ) by {
            if i > k && text_le(before[i].relative_path@, file.relative_path@) {
                lemma_text_le_transitive(
                    before[k as int].relative_path@,
                    before[i].relative_path@,
                    file.relative_path@,
                );
            }
        }
    }
    files.insert(k, file);
    proof {
        let after = files@;
        assert(after == before.insert(k as int, file));
        assert forall|i: int, j: int| 0 <= i < j < after.len() implies text_le(
            #[trigger] after[i].relative_path@,
            #[trigger] after[j].relative_path@,
        ) by {
            if j < k {
                assert(after[i] == before[i] && after[j] == before[j]);
            } else if j == k {
                assert(after[i] == before[i]);
            } else if i == k {
                assert(after[j] == before[j - 1]);
                lemma_text_le_total(before[j - 1].relative_path@, file.relative_path@);
            } else if i < k {
                assert(after[i] == before[i] && after[j] == before[j - 1]);
            } else {
                assert(after[i] == before[i - 1] && after[j] == before[j - 1]);
            }
        }
        assert(inserted_after_equal_paths(before, file, after));
    }
}

/// The section of the canonical manifest for one generated file.
pub open spec fn manifest_section(file: GeneratedFile) -> Seq<char> {
    "# --- "@ + file.relative_path@ + " ---\n"@ + trim_end(file.contents@)
}

/// Manifest sections of the TOML files among `files`, in order.
pub open spec fn toml_sections(files: Seq<GeneratedFile>) -> Seq<Seq<char>>
    decreases files.len(),
{
    if files.len() == 0 {
        Seq::empty()
    } else if has_suffix(files.last().relative_path@, ".toml"@) {
        toml_sections(files.drop_last()).push(manifest_section(files.last()))
    } else {
        toml_sections(files.drop_last())
    }
}

/// `parts` separated by `sep`.
pub open spec fn joined_by(parts: Seq<Seq<char>>, sep: Seq<char>) -> Seq<char>
    decreases parts.len(),
{
    if parts.len() == 0 {
        Seq::empty()
    } else if parts.len() == 1 {
        parts[0]
    } else {
        joined_by(parts.drop_last(), sep) + sep + parts.last()
    }
}

/// The canonical manifest of generated files: each TOML file under a
/// `# --- path ---` heading, separated by blank lines.
pub open spec fn canonical_manifest(files: Seq<GeneratedFile>) -> Seq<char> {
    joined_by(toml_sections(files), "\n\n"@)
}

pub fn canonical_manifest_of(files: &Vec<GeneratedFile>) -> (s: String)
    ensures
        s@ == canonical_manifest(files@),
{
    let mut out = String::new();
    let mut empty = true;
    let mut i: usize = 0;
    proof {
        assert(files@.take(0) =~= Seq::<GeneratedFile>::empty());
    }
    while i < files.len()
        invariant
            0 <= i <= files@.len(),
            empty == (toml_sections(files@.take(i as int)).len() == 0),
            out@ == joined_by(toml_sections(files@.take(i as int)), "\n\n"@),
        decreases files.len() - i,
    {
        let f = &files[i];
        proof {
            assert(files@.take(i + 1).drop_last() =~= files@.take(i as int));
            assert(files@.take(i + 1).last() == files@[i as int]);
        }
        if ends_with(f.relative_path.as_str(), ".toml") {
            let ghost prev = toml_sections(files@.take(i as int));
            if !empty {
                out.append("\n\n");
            }
            out.append("# --- ");
            out.append(f.relative_path.as_str());
            out.append(" ---\n");
            out.append(trimmed_end(f.contents.as_str()));
            proof {
                let next = prev.push(manifest_section(*f));
                assert(next.drop_last() =~= prev);
                if empty {
                    assert(out@ =~= joined_by(next, "\n\n"@));
                } else {
                    assert(out@ =~= joined_by(next, "\n\n"@));
                }
            }
            empty = false;
        }
        i = i + 1;
    }
    proof {
        assert(files@.take(files@.len() as int) =~= files@);
    }
    out
}

} // verus!
