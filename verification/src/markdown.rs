//! Which files the viewer renders as Markdown: files with a `.md` or
//! `.markdown` extension, and the extension-less `README`, `CHANGELOG` and
//! `LICENSE`, all compared ignoring ASCII case.
use vstd::prelude::*;
use vstd::string::*;

verus! {

broadcast use vstd::string::group_string_axioms;

/// Whether `path` is one plain relative name: non-empty, without a `/`, `\\`
/// or `:`, and neither `.` nor `..`. Such a path is its own final component
/// on every target.
pub open spec fn is_plain_name(path: Seq<char>) -> bool {
    &&& path.len() > 0
    &&& !path.contains('/')
    &&& !path.contains('\\')
    &&& !path.contains(':')
    &&& path != "."@
    &&& path != ".."@
}

/// The index of the last `/` in `p`, or -1 when it has none.
pub open spec fn last_slash_index(p: Seq<char>) -> int
    decreases p.len(),
{
    if p.len() == 0 {
        -1
    } else if p.last() == '/' {
        p.len() - 1
    } else {
        last_slash_index(p.drop_last())
    }
}

/// The text of `p` after its last `/`; all of `p` when it has none.
pub open spec fn after_last_slash(p: Seq<char>) -> Seq<char> {
    p.skip(last_slash_index(p) + 1)
}

/// Whether `path` separates its components with `/` alone, in the same way
/// on every target: no `\\`, no `:` (so no drive prefix) and no leading `//`
/// (so no network share prefix).
pub open spec fn is_slash_separated(path: Seq<char>) -> bool {
    &&& !path.contains('\\')
    &&& !path.contains(':')
    &&& !(path.len() >= 2 && path[0] == '/' && path[1] == '/')
}

/// Whether `path` separates its components with `/` alone and ends in a
/// plain name: then that name is the path's final component on every
/// target.
pub open spec fn ends_in_plain_name(path: Seq<char>) -> bool {
    is_slash_separated(path) && is_plain_name(after_last_slash(path))
}

/// Whether `c` separates path components on some target: `/` everywhere,
/// `\\` on Windows.
pub open spec fn is_path_separator(c: char) -> bool {
    c == '/' || c == '\\'
}

/// The index of the last `/` or `\\` in `p`, or -1 when it has none.
pub open spec fn last_separator_index(p: Seq<char>) -> int
    decreases p.len(),
{
    if p.len() == 0 {
        -1
    } else if is_path_separator(p.last()) {
        p.len() - 1
    } else {
        last_separator_index(p.drop_last())
    }
}

/// The text of `p` after its last `/` or `\\`; all of `p` when it has none.
pub open spec fn final_piece(p: Seq<char>) -> Seq<char> {
    p.skip(last_separator_index(p) + 1)
}

/// Whether the final piece of `path` is its last component on every target,
/// up to the separators before it: the path does not start with two
/// separators (no network share or device prefix), and the text after its
/// last `/` or `\\` is non-empty, neither `.` nor `..`, and holds no `:` (so
/// no drive prefix).
pub open spec fn has_portable_final_piece(path: Seq<char>) -> bool {
    &&& !(path.len() >= 2 && is_path_separator(path[0]) && is_path_separator(path[1]))
    &&& final_piece(path).len() > 0
    &&& final_piece(path) != "."@
    &&& final_piece(path) != ".."@
    &&& !final_piece(path).contains(':')
}

/// The view of an optional string.
pub open spec fn opt_view(s: Option<String>) -> Option<Seq<char>> {
    match s {
        Some(s) => Some(s@),
        None => None,
    }
}

/// The view of an optional string slice.
pub open spec fn opt_str_view(s: Option<&str>) -> Option<Seq<char>> {
    match s {
        Some(s) => Some(s@),
        None => None,
    }
}

/// Calls `std::path::Path::file_name` on `path`: the last component of the
/// path, or `None` when the path ends in `..` or has no component (such as
/// `/`). How a path splits into components depends on the target (`\\` and
/// drive prefixes on Windows), so the result gets no name. The contract
/// states what holds on every target: a file name is non-empty and not `..`,
/// and a path that separates its components with `/` alone and ends in a
/// plain name has that name as its file name. For a path whose final piece
/// (after its last `/` or `\\`) is portable, the file name is that piece on
/// Windows, and on other targets that piece or a longer text that ends in a
/// `\\` and that piece (a `\\` is then part of a name). Which component is
/// last in any other path is left unsaid.
#[verifier::external_body]
fn file_name_of(path: &str) -> (r: Option<String>)
    ensures
        r matches Some(f) ==> f@.len() > 0 && f@ != ".."@,
        ends_in_plain_name(path@) ==> opt_view(r) == Some(after_last_slash(path@)),
        has_portable_final_piece(path@) ==> r is Some,
        r matches Some(f) ==> (has_portable_final_piece(path@) ==> (f@ == final_piece(path@) || (
        f@.len() > final_piece(path@).len() && f@.skip(f@.len() - final_piece(path@).len())
            == final_piece(path@) && f@[f@.len() - final_piece(path@).len() - 1] == '\\'))),
{
    std::path::Path::new(path).file_name().map(|f| f.to_string_lossy().into_owned())
}

/// The index of the last `.` in `f`, or -1 when it has none.
pub open spec fn last_dot_index(f: Seq<char>) -> int
    decreases f.len(),
{
    if f.len() == 0 {
        -1
    } else if f.last() == '.' {
        f.len() - 1
    } else {
        last_dot_index(f.drop_last())
    }
}

/// The extension of the file name `f`, as `Path::extension` defines it: the
/// part after the final `.`; `None` when there is no `.`, or when the only
/// `.` is the first character.
pub open spec fn file_name_extension(f: Seq<char>) -> Option<Seq<char>> {
    let k = last_dot_index(f);
    if k <= 0 {
        None
    } else {
        Some(f.skip(k + 1))
    }
}

proof fn lemma_last_dot_index_bounds(f: Seq<char>)
    ensures
        -1 <= last_dot_index(f) < f.len(),
        last_dot_index(f) >= 0 ==> f[last_dot_index(f)] == '.',
    decreases f.len(),
{
    if f.len() > 0 && f.last() != '.' {
        lemma_last_dot_index_bounds(f.drop_last());
    }
}

/// The extension of the file name `file_name`.
pub fn extension_of_file_name(file_name: &str) -> (r: Option<&str>)
    ensures
        opt_str_view(r) == file_name_extension(file_name@),
{
    let ghost f = file_name@;
    let mut last_dot: Option<usize> = None;
    let mut i: usize = 0;
    let n = file_name.unicode_len();
    while i < n
        invariant
            f == file_name@,
            n == f.len(),
            i <= n,
            match last_dot {
                Some(k) => k as int == last_dot_index(f.take(i as int)),
                None => last_dot_index(f.take(i as int)) == -1,
            },
        decreases n - i,
    {
        let c = file_name.get_char(i);
        proof {
            assert(f.take(i + 1).drop_last() =~= f.take(i as int));
            assert(f.take(i + 1).last() == c);
        }
        if c == '.' {
            last_dot = Some(i);
        }
        i = i + 1;
    }
    proof {
        assert(f.take(i as int) =~= f);
        lemma_last_dot_index_bounds(f);
    }
    match last_dot {
        Some(k) => {
            if k == 0 {
                None
            } else {
                let ext = file_name.substring_char(k + 1, n);
                proof {
                    assert(ext@ =~= f.skip(k + 1));
                }
                Some(ext)
            }
        },
        None => None,
    }
}

/// `c` with an ASCII upper-case letter turned to lower case.
pub open spec fn ascii_lower(c: char) -> char {
    if 'A' <= c && c <= 'Z' {
        ((c as u8) + 32) as char
    } else {
        c
    }
}

/// Whether `a` and `b` are equal ignoring ASCII case, as
/// `str::eq_ignore_ascii_case` compares.
pub open spec fn eq_ignoring_ascii_case(a: Seq<char>, b: Seq<char>) -> bool {
    &&& a.len() == b.len()
    &&& forall|i: int| 0 <= i < a.len() ==> ascii_lower(#[trigger] a[i]) == ascii_lower(b[i])
}

fn to_ascii_lower(c: char) -> (r: char)
    ensures
        r == ascii_lower(c),
{
    if 'A' <= c && c <= 'Z' {
        let code: u8 = c as u8;
        (code + 32) as char
    } else {
        c
    }
}

/// Whether `a` and `b` are equal ignoring ASCII case.
pub fn eq_ignore_ascii_case(a: &str, b: &str) -> (r: bool)
    ensures
        r == eq_ignoring_ascii_case(a@, b@),
{
    let n = a.unicode_len();
    if n != b.unicode_len() {
        return false;
    }
    let mut i: usize = 0;
    while i < n
        invariant
            n == a@.len(),
            n == b@.len(),
            i <= n,
            forall|j: int| 0 <= j < i ==> ascii_lower(#[trigger] a@[j]) == ascii_lower(b@[j]),
        decreases n - i,
    {
        if to_ascii_lower(a.get_char(i)) != to_ascii_lower(b.get_char(i)) {
            return false;
        }
        i = i + 1;
    }
    true
}

/// Whether a file with this extension is Markdown.
pub open spec fn is_markdown_extension(ext: Seq<char>) -> bool {
    eq_ignoring_ascii_case(ext, "md"@) || eq_ignoring_ascii_case(ext, "markdown"@)
}

/// Whether an extension-less file with this name is Markdown.
pub open spec fn is_markdown_bare_name(name: Seq<char>) -> bool {
    ||| eq_ignoring_ascii_case(name, "README"@)
    ||| eq_ignoring_ascii_case(name, "CHANGELOG"@)
    ||| eq_ignoring_ascii_case(name, "LICENSE"@)
}

/// Whether a path whose final component is `file_name` is a Markdown file:
/// by its extension when it has one, else by its whole name.
pub open spec fn markdown_file_name(file_name: Option<Seq<char>>) -> bool {
    match file_name {
        Some(f) => match file_name_extension(f) {
            Some(ext) => is_markdown_extension(ext),
            None => is_markdown_bare_name(f),
        },
        None => false,
    }
}

/// Whether a path whose final component is `file_name` is a Markdown file.
pub fn is_markdown_file_name(file_name: Option<&str>) -> (r: bool)
    ensures
        r == markdown_file_name(opt_str_view(file_name)),
{
    match file_name {
        None => false,
        Some(f) => match extension_of_file_name(f) {
            Some(ext) => eq_ignore_ascii_case(ext, "md") || eq_ignore_ascii_case(ext, "markdown"),
            None => {
                eq_ignore_ascii_case(f, "README") || eq_ignore_ascii_case(f, "CHANGELOG")
                    || eq_ignore_ascii_case(f, "LICENSE")
            },
        },
    }
}

/// Whether the file at `path` is rendered as Markdown, judged by the final
/// component of the path as `Path::file_name` gives it on this target: by
/// `is_markdown_file_name`. For a path that separates its components with
/// `/` and ends in a plain name, that is the text after its last `/`.
pub fn is_markdown_file(path: &str) -> (r: bool)
    ensures
        ends_in_plain_name(path@) ==> r == markdown_file_name(Some(after_last_slash(path@))),
        file_name_extension(final_piece(path@)) matches Some(ext) ==> (has_portable_final_piece(
            path@,
        ) ==> (r <==> eq_ignoring_ascii_case(ext, "md"@) || eq_ignoring_ascii_case(
            ext,
            "markdown"@,
        ))),
{
    let name = file_name_of(path);
    proof {
        if has_portable_final_piece(path@) && file_name_extension(final_piece(path@)) is Some {
            let f = name->0@;
            let g = final_piece(path@);
            if f != g {
                let pre = f.take(f.len() - g.len());
                assert(f =~= pre + g);
                assert(pre.last() == '\\');
                lemma_last_dot_index_append(pre, g);
                lemma_last_dot_index_bounds(g);
                assert(f.skip(last_dot_index(f) + 1) =~= g.skip(last_dot_index(g) + 1));
            }
        }
    }
    match &name {
        Some(f) => is_markdown_file_name(Some(f.as_str())),
        None => is_markdown_file_name(None),
    }
}

proof fn lemma_last_dot_index_append(pre: Seq<char>, g: Seq<char>)
    requires
        last_dot_index(g) >= 0,
    ensures
        last_dot_index(pre + g) == pre.len() + last_dot_index(g),
    decreases g.len(),
{
    assert((pre + g).last() == g.last());
    if g.last() != '.' {
        assert((pre + g).drop_last() =~= pre + g.drop_last());
        lemma_last_dot_index_append(pre, g.drop_last());
    }
}

/// The path under which a language server knows the file at `p`.
pub fn lang(p: &str) -> (r: String)
    ensures
        r@ == p@,
{
    p.to_owned()
}

} // verus!
