//! Paths and keys derived from authoring sources.

use vstd::prelude::*;
use super::{invalid, SourceTreeCompileError, SourceErrorModel};
use crate::text::{
    has_prefix, joined, occurs_at, replace_char, replaced_char, rfind, starts_with, str_eq,
    string_of, strip_prefix_or_self, stripped_prefix_or_self,
};
use vstd::string::StrSliceExecFns;

verus! {

/// `marker` occurs at `i` in `text` and nowhere after.
pub open spec fn is_last_occurrence(text: Seq<char>, marker: Seq<char>, i: int) -> bool {
    occurs_at(text, marker, i) && forall|j: int| i < j ==> !occurs_at(text, marker, j)
}

/// Path text with `\` read as `/`.
pub open spec fn slashed(path: Seq<char>) -> Seq<char> {
    replace_char(path, '\\', '/')
}

/// The path of a source file relative to the content pack: `content/`
/// followed by what comes after the last `/content/` of its path; a path
/// outside any `content/` directory is refused.
pub fn authoring_rel_path(path: &str) -> (r: Result<String, SourceTreeCompileError>)
    ensures
        match r {
            Ok(rel) => exists|i: int|
                is_last_occurrence(slashed(path@), "/content/"@, i) && rel@ == "content/"@
                    + slashed(path@).subrange(i + "/content/"@.len(), slashed(path@).len() as int),
            Err(e) => (forall|j: int| !occurs_at(slashed(path@), "/content/"@, j)) && e@ == invalid(
                path@,
                "authoring source must live under content/"@,
            ),
        },
{
    proof {
        reveal_strlit("\\");
        reveal_strlit("/");
    }
    let text = replaced_char(path, '\\', "/");
    let marker = "/content/";
    match rfind(text.as_str(), marker) {
        None => Err(
            SourceTreeCompileError::Invalid {
                path: string_of(path),
                message: string_of("authoring source must live under content/"),
            },
        ),
        Some(index) => {
            let m = marker.unicode_len();
            let n = text.as_str().unicode_len();
            assert(occurs_at(text@, marker@, index as int));
            let rest = text.as_str().substring_char(index + m, n);
            let rel = joined("content/", rest);
            assert(is_last_occurrence(slashed(path@), "/content/"@, index as int));
            Ok(rel)
        },
    }
}

/// A worldproperty reference as a path under `content/`, with `\` read as `/`.
pub open spec fn normalized_rel(path: Seq<char>) -> Seq<char> {
    if has_prefix(slashed(path), "content/"@) {
        slashed(path)
    } else {
        "content/"@ + slashed(path)
    }
}

pub fn normalize_rel(path: &str) -> (r: String)
    ensures
        r@ == normalized_rel(path@),
{
    proof {
        reveal_strlit("\\");
        reveal_strlit("/");
    }
    let p = replaced_char(path, '\\', "/");
    if starts_with(p.as_str(), "content/") {
        p
    } else {
        joined("content/", p.as_str())
    }
}

/// Joins `rel` to `root` as a Unix path join does: an absolute `rel`
/// replaces `root`, and a separator is added between them where `root` does
/// not end with one.
pub open spec fn path_join(root: Seq<char>, rel: Seq<char>) -> Seq<char> {
    if rel.len() > 0 && rel[0] == '/' {
        rel
    } else if root.len() > 0 && root.last() != '/' {
        root + "/"@ + rel
    } else {
        root + rel
    }
}

pub fn join_path(root: &str, rel: &str) -> (r: String)
    ensures
        r@ == path_join(root@, rel@),
{
    proof {
        reveal_strlit("/");
    }
    let rn = rel.unicode_len();
    if rn > 0 && rel.get_char(0) == '/' {
        return string_of(rel);
    }
    let n = root.unicode_len();
    if n > 0 && root.get_char(n - 1) != '/' {
        let mut r = joined(root, "/");
        r = joined(r.as_str(), rel);
        r
    } else {
        joined(root, rel)
    }
}

/// The model key of a shape code: the full-cube, per-face cube and topsoil
/// shapes keep their canonical model names, other codes turn `/` into `_`.
pub open spec fn model_key_for_code(code: Seq<char>) -> Seq<char> {
    "freven.vanilla:models/block/"@ + if code == "block/cube"@ {
        "cube_all"@
    } else if code == "block/cube_faces"@ {
        "cube_faces"@
    } else if code == "block/topsoil"@ {
        "topsoil_overlay"@
    } else {
        replace_char(code, '/', '_')
    }
}

pub fn model_key_for_shape_code(code: &str) -> (key: String)
    ensures
        key@ == model_key_for_code(code@),
{
    proof {
        reveal_strlit("_");
    }
    let suffix = if str_eq(code, "block/cube") {
        string_of("cube_all")
    } else if str_eq(code, "block/cube_faces") {
        string_of("cube_faces")
    } else if str_eq(code, "block/topsoil") {
        string_of("topsoil_overlay")
    } else {
        replaced_char(code, '/', "_")
    };
    joined("freven.vanilla:models/block/", suffix.as_str())
}

/// The code a shape reference names: the reference without its
/// `freven.vanilla:shapes/` prefix.
pub open spec fn shape_code_of_ref(shape_ref: Seq<char>) -> Seq<char> {
    strip_prefix_or_self(shape_ref, "freven.vanilla:shapes/"@)
}

pub fn shape_ref_code(shape_ref: &str) -> (code: &str)
    ensures
        code@ == shape_code_of_ref(shape_ref@),
{
    stripped_prefix_or_self(shape_ref, "freven.vanilla:shapes/")
}

/// The model key of a shape reference.
pub open spec fn model_key_for_ref(shape_ref: Seq<char>) -> Seq<char> {
    model_key_for_code(shape_code_of_ref(shape_ref))
}

pub fn model_key_for_shape_ref(shape_ref: &str) -> (key: String)
    ensures
        key@ == model_key_for_ref(shape_ref@),
{
    model_key_for_shape_code(shape_ref_code(shape_ref))
}

} // verus!
