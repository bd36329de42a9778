//! The output buffer set: a path-keyed collection of append-only text
//! buffers, held in the file-generation crate's `FileSet`. Looking a path
//! up creates an empty buffer on first access; all writes are sequential
//! appends. The derived output paths are well-formed relative paths, so
//! distinct path strings name distinct buffers.

use vstd::prelude::*;
use ligen::generator::file_generator::FileSet;

verus! {

/// A wrapped-type name that can form a file name: free of separators and
/// of characters a path cannot carry.
pub open spec fn name_ok(n: Seq<char>) -> bool {
    forall|i: int| 0 <= i < n.len() ==> n[i] != '/' && n[i] != '\\' && n[i] != '\u{0}'
}

/// A `.` or `..` path component starts at position `i` of `s`.
pub open spec fn dot_component_at(s: Seq<char>, i: int) -> bool {
    &&& s[i] == '.'
    &&& (i == 0 || s[i - 1] == '/')
    &&& (i + 1 == s.len() || s[i + 1] == '/' || (s[i + 1] == '.' && (i + 2 == s.len() || s[i + 2]
        == '/')))
}

/// A well-formed relative path: nonempty, no leading, trailing or doubled
/// separator, no `.` or `..` component, no character a path cannot carry.
/// Two distinct well-formed path strings always name distinct files.
pub open spec fn path_wf(s: Seq<char>) -> bool {
    &&& s.len() > 0
    &&& s[0] != '/'
    &&& s[s.len() - 1] != '/'
    &&& forall|i: int| 0 <= i < s.len() - 1 ==> !(#[trigger] s[i] == '/' && s[i + 1] == '/')
    &&& forall|i: int| 0 <= i < s.len() ==> s[i] != '\\' && s[i] != '\u{0}'
    &&& forall|i: int| 0 <= i < s.len() ==> !dot_component_at(s, i)
}

/// The text held at `path`, empty while nothing was written there.
pub open spec fn entry_text(m: Map<Seq<char>, Seq<char>>, path: Seq<char>) -> Seq<char> {
    if m.contains_key(path) {
        m[path]
    } else {
        Seq::empty()
    }
}

/// The buffer map after appending `text` to the buffer at `path`.
pub open spec fn appended(
    m: Map<Seq<char>, Seq<char>>,
    path: Seq<char>,
    text: Seq<char>,
) -> Map<Seq<char>, Seq<char>> {
    m.insert(path, entry_text(m, path) + text)
}

#[verifier::external_type_specification]
#[verifier::external_body]
pub struct ExFileSet(FileSet);

/// What a buffer set holds: the rendered text of each buffer, keyed by
/// its well-formed relative path.
pub uninterp spec fn fs_contents(fs: FileSet) -> Map<Seq<char>, Seq<char>>;

/// Relies on FileSet::entry and FileSection::write of the file-generation
/// crate: `entry` returns the buffer at `path`, creating an empty one on
/// first access, and `write` appends exactly the given text to it.
#[verifier::external_body]
pub(crate) fn fs_write(fs: &mut FileSet, path: &str, text: &str)
    requires
        path_wf(path@),
    ensures
        fs_contents(*final (fs)) == appended(fs_contents(*old(fs)), path@, text@),
{
    fs.entry(path).write(text);
}

/// The declaration-file path derived from a well-formed type name is a
/// well-formed relative path.
pub proof fn lemma_decl_path_wf(n: Seq<char>)
    requires
        name_ok(n),
    ensures
        path_wf(crate::hpp::decl_path_text(n)),
{
    reveal_strlit("in");
    reveal_strlit("clude/");
    reveal_strlit(".hpp");
    let s = crate::hpp::decl_path_text(n);
    assert(s.len() == n.len() + 12);
    assert forall|i: int| 0 <= i < s.len() implies s[i] == '/' <==> i == 7 by {
        if 8 <= i < 8 + n.len() {
            assert(s[i] == n[i - 8]);
        }
    }
    assert forall|i: int| 0 <= i < s.len() implies s[i] != '\\' && s[i] != '\u{0}' by {
        if 8 <= i < 8 + n.len() {
            assert(s[i] == n[i - 8]);
        }
    }
    assert forall|i: int| 0 <= i < s.len() implies !dot_component_at(s, i) by {
        if s[i] == '.' && (i == 0 || s[i - 1] == '/') {
            assert(i == 8);
            assert(s.len() >= 12);
            assert(s[9] != '/' && s[10] != '/');
        }
    }
}

/// The definition-file path derived from a well-formed type name is a
/// well-formed relative path.
pub proof fn lemma_def_path_wf(n: Seq<char>)
    requires
        name_ok(n),
    ensures
        path_wf(crate::cpp::def_path_text(n)),
{
    reveal_strlit("src/");
    reveal_strlit(".cpp");
    let s = crate::cpp::def_path_text(n);
    assert(s.len() == n.len() + 8);
    assert forall|i: int| 0 <= i < s.len() implies s[i] == '/' <==> i == 3 by {
        if 4 <= i < 4 + n.len() {
            assert(s[i] == n[i - 4]);
        }
    }
    assert forall|i: int| 0 <= i < s.len() implies s[i] != '\\' && s[i] != '\u{0}' by {
        if 4 <= i < 4 + n.len() {
            assert(s[i] == n[i - 4]);
        }
    }
    assert forall|i: int| 0 <= i < s.len() implies !dot_component_at(s, i) by {
        if s[i] == '.' && (i == 0 || s[i - 1] == '/') {
            assert(i == 4);
            assert(s.len() >= 8);
            assert(s[5] != '/' && s[6] != '/');
        }
    }
}

/// The two derived paths of one wrapped type differ, and the paths of
/// wrapped types with different well-formed names differ.
pub proof fn lemma_paths_distinct(n: Seq<char>)
    ensures
        crate::hpp::decl_path_text(n) != crate::cpp::def_path_text(n),
{
    reveal_strlit("in");
    reveal_strlit("clude/");
    reveal_strlit(".hpp");
    reveal_strlit("src/");
    reveal_strlit(".cpp");
    let d = crate::hpp::decl_path_text(n);
    let c = crate::cpp::def_path_text(n);
    assert(d[0] == 'i');
    assert(c[0] == 's');
}

} // verus!
