//! From an import specifier to the project file it names: which specifiers
//! are looked at, which files are tried and in what order, and the key under
//! which a file stands in the dependency graph.

use crate::paths::{
    joined, parent_of, path_join, path_parent, path_strip_prefix, stripped_prefix,
};
use crate::text::{
    contains_text, first_char, lowercase, push_char, same_text, str_contains, to_lowercase,
};
use vstd::prelude::*;
use vstd::string::*;

verus! {

/// An import that leaves the project: one that starts with `@`, one that
/// starts with `node_modules`, and one that is neither relative (`.`) nor
/// absolute (`/`).
pub open spec fn is_external_import(import: Seq<char>) -> bool {
    ||| (import.len() > 0 && import[0] == '@')
    ||| "node_modules"@.is_prefix_of(import)
    ||| !(import.len() > 0 && (import[0] == '.' || import[0] == '/'))
}

/// A path with a dot and an extension appended.
pub open spec fn with_extension(path: Seq<char>, ext: Seq<char>) -> Seq<char> {
    path + "."@ + ext
}

/// The files that an import may name, in the order in which they are tried:
/// the specifier, taken relative to the importing file's directory, with
/// each of the four source extensions appended; then the index file of a
/// directory of that name; then the specifier as it stands. An external
/// import, or a file without a directory, has none.
pub open spec fn import_candidates(current_file: Seq<char>, import: Seq<char>) -> Seq<Seq<char>> {
    if is_external_import(import) {
        Seq::empty()
    } else {
        match parent_of(current_file) {
            None => Seq::empty(),
            Some(dir) => {
                let base = joined(dir, import);
                seq![
                    with_extension(base, "ts"@),
                    with_extension(base, "tsx"@),
                    with_extension(base, "js"@),
                    with_extension(base, "jsx"@),
                    joined(base, "index.ts"@),
                    joined(base, "index.js"@),
                    base,
                ]
            },
        }
    }
}

/// `path` is one of the files known to exist.
pub open spec fn is_known(existing: Seq<String>, path: Seq<char>) -> bool {
    exists|i: int| 0 <= i < existing.len() && (#[trigger] existing[i])@ == path
}

/// The first candidate at or after `from` that exists.
pub open spec fn first_known(candidates: Seq<Seq<char>>, existing: Seq<String>, from: int) -> Option<
    Seq<char>,
>
    decreases candidates.len() - from,
{
    if from < 0 || from >= candidates.len() {
        None
    } else if is_known(existing, candidates[from]) {
        Some(candidates[from])
    } else {
        first_known(candidates, existing, from + 1)
    }
}

/// The file that an import resolves to, given the files that exist.
pub open spec fn resolved_import(
    current_file: Seq<char>,
    import: Seq<char>,
    existing: Seq<String>,
) -> Option<Seq<char>> {
    first_known(import_candidates(current_file, import), existing, 0)
}

/// A text with every backslash turned into a forward slash.
pub open spec fn forward_slashes(s: Seq<char>) -> Seq<char> {
    Seq::new(
        s.len(),
        |i: int|
            if s[i] == '\\' {
                '/'
            } else {
                s[i]
            },
    )
}

/// The key of a file in the dependency graph: its path relative to the
/// project root where it lies under it, with forward slashes, in lower case.
pub open spec fn normalized_path(root: Seq<char>, path: Seq<char>) -> Seq<char> {
    match stripped_prefix(path, root) {
        Some(relative) => lowercase(forward_slashes(relative)),
        None => lowercase(forward_slashes(path)),
    }
}

/// A key that does not lie in a vendored dependency directory.
pub open spec fn is_internal_key(key: Seq<char>) -> bool {
    !contains_text(key, "node_modules"@)
}

/// Whether an import is left out of the graph without being resolved.
pub fn is_external(import: &str) -> (r: bool)
    ensures
        r == is_external_import(import@),
{
    proof {
        reveal_strlit("node_modules");
        if "node_modules"@.is_prefix_of(import@) {
            assert(import@[0] == "node_modules"@[0]);
        }
    }
    match first_char(import) {
        Some(c) => !(c == '.' || c == '/'),
        None => true,
    }
}

/// Appends a dot and an extension to a path.
pub fn append_extension(path: &str, ext: &str) -> (r: String)
    ensures
        r@ == with_extension(path@, ext@),
{
    let mut out = path.to_owned();
    out.append(".");
    out.append(ext);
    out
}

/// The candidate files of an import, in the order in which they are tried.
pub fn candidates(current_file: &str, import: &str) -> (r: Vec<String>)
    ensures
        r@.len() == import_candidates(current_file@, import@).len(),
        forall|i: int|
            0 <= i < r@.len() ==> (#[trigger] r@[i])@ == import_candidates(
                current_file@,
                import@,
            )[i],
{
    let mut out: Vec<String> = Vec::new();
    if is_external(import) {
        return out;
    }
    match path_parent(current_file) {
        None => out,
        Some(dir) => {
            let base = path_join(dir.as_str(), import);
            out.push(append_extension(base.as_str(), "ts"));
            out.push(append_extension(base.as_str(), "tsx"));
            out.push(append_extension(base.as_str(), "js"));
            out.push(append_extension(base.as_str(), "jsx"));
            out.push(path_join(base.as_str(), "index.ts"));
            out.push(path_join(base.as_str(), "index.js"));
            out.push(base);
            out
        },
    }
}

/// Whether `path` is among the files known to exist.
pub fn knows(existing: &Vec<String>, path: &str) -> (r: bool)
    ensures
        r == is_known(existing@, path@),
{
    let mut i: usize = 0;
    while i < existing.len()
        invariant
            i <= existing.len(),
            forall|j: int| 0 <= j < i ==> (#[trigger] existing@[j])@ != path@,
        decreases existing.len() - i,
    {
        if same_text(existing[i].as_str(), path) {
            return true;
        }
        i += 1;
    }
    false
}

/// Resolves an import of `current_file` to the first of its candidate files
/// that exists; `None` for an external import and for one that names no
/// existing file.
pub fn resolve_import(current_file: &str, import: &str, existing: &Vec<String>) -> (r: Option<
    String,
>)
    ensures
        match r {
            Some(p) => resolved_import(current_file@, import@, existing@) == Some(p@),
            None => resolved_import(current_file@, import@, existing@) is None,
        },
{
    let found = candidates(current_file, import);
    let ghost all = import_candidates(current_file@, import@);
    let mut i: usize = 0;
    while i < found.len()
        invariant
            i <= found.len(),
            all == import_candidates(current_file@, import@),
            found@.len() == all.len(),
            forall|j: int| 0 <= j < found@.len() ==> (#[trigger] found@[j])@ == all[j],
            first_known(all, existing@, 0) == first_known(all, existing@, i as int),
        decreases found.len() - i,
    {
        assert(found@[i as int]@ == all[i as int]);
        if knows(existing, found[i].as_str()) {
            return Some(found[i].clone());
        }
        i += 1;
    }
    None
}

/// Turns every backslash of a text into a forward slash.
pub fn to_forward_slashes(s: &str) -> (r: String)
    ensures
        r@ == forward_slashes(s@),
{
    let mut out = String::new();
    for c in iter: s.chars()
        invariant
            iter.seq() == s@,
            out@ == forward_slashes(s@).subrange(0, iter.index() as int),
    {
        let d = if c == '\\' {
            '/'
        } else {
            c
        };
        push_char(&mut out, d);
        assert(out@ =~= forward_slashes(s@).subrange(0, iter.index() + 1));
    }
    assert(out@ =~= forward_slashes(s@));
    out
}

/// The graph key of a file under the project root `root`.
pub fn normalize(root: &str, path: &str) -> (r: String)
    ensures
        r@ == normalized_path(root@, path@),
{
    match path_strip_prefix(path, root) {
        Some(relative) => {
            let slashed = to_forward_slashes(relative.as_str());
            to_lowercase(slashed.as_str())
        },
        None => {
            let slashed = to_forward_slashes(path);
            to_lowercase(slashed.as_str())
        },
    }
}

/// Whether a graph key is the project's own.
pub fn is_internal(key: &str) -> (r: bool)
    ensures
        r == is_internal_key(key@),
{
    !str_contains(key, "node_modules")
}

} // verus!
