//! Path handling over plain strings.
//!
//! Library paths are carried as `String`s whose characters are the path's
//! characters; `/` separates components.  The functions here give the few
//! path operations the synchroniser needs: joining, taking the parent or
//! file name, swapping the extension, and stripping a library root.

use vstd::prelude::*;

verus! {

/// The index of the last occurrence of `c` in `s`, or `-1` if `c` does not
/// occur.
pub open spec fn last_index_of_char(s: Seq<char>, c: char) -> int
    decreases s.len(),
{
    if s.len() == 0 {
        -1
    } else if s[s.len() - 1] == c {
        s.len() - 1
    } else {
        last_index_of_char(s.drop_last(), c)
    }
}

pub proof fn lemma_last_index_of_char(s: Seq<char>, c: char)
    ensures
        -1 <= last_index_of_char(s, c) < s.len(),
        last_index_of_char(s, c) == -1 ==> forall|j: int| 0 <= j < s.len() ==> s[j] != c,
        last_index_of_char(s, c) >= 0 ==> s[last_index_of_char(s, c)] == c,
        forall|j: int| last_index_of_char(s, c) < j < s.len() ==> s[j] != c,
    decreases s.len(),
{
    if s.len() > 0 && s[s.len() - 1] != c {
        lemma_last_index_of_char(s.drop_last(), c);
        assert(forall|j: int| 0 <= j < s.len() - 1 ==> s[j] == s.drop_last()[j]);
    }
}

/// Finds the last occurrence of `c` in `s`.
pub fn find_last_char(s: &str, c: char) -> (r: Option<usize>)
    ensures
        r matches Some(i) ==> i < s@.len() && s@[i as int] == c && i == last_index_of_char(s@, c),
        r is None ==> last_index_of_char(s@, c) == -1 && (forall|j: int|
            0 <= j < s@.len() ==> s@[j] != c),
{
    let len = s.unicode_len();
    let mut i = len;
    while i > 0
        invariant
            i <= len,
            len == s@.len(),
            forall|j: int| i <= j < len ==> s@[j] != c,
        decreases i,
    {
        i = i - 1;
        if s.get_char(i) == c {
            proof {
                lemma_last_index_of_char(s@, c);
                let r = last_index_of_char(s@, c);
                assert(s@[i as int] == c);
                if r < i {
                    assert(s@[i as int] != c);
                }
                if r > i {
                    assert(s@[r] != c);
                }
            }
            return Some(i);
        }
    }
    proof {
        lemma_last_index_of_char(s@, c);
        let r = last_index_of_char(s@, c);
        if r >= 0 {
            assert(s@[r] != c);
        }
    }
    None
}

/// The start of the file name in `s`: the character after the last `/`,
/// or 0 when there is no `/`.
pub open spec fn spec_file_name_start(s: Seq<char>) -> int {
    last_index_of_char(s, '/') + 1
}

/// The index of the dot starting the extension of `s`, or `-1` when `s` has
/// no extension.  The dot must lie inside the file name, and a file name
/// that begins with a dot (a hidden file) has no extension from that dot.
pub open spec fn spec_extension_dot(s: Seq<char>) -> int {
    let d = last_index_of_char(s, '.');
    if d > spec_file_name_start(s) {
        d
    } else {
        -1
    }
}

/// The extension of `s` (the part after the final dot of its file name),
/// or `None` when there is none.
pub open spec fn spec_extension_of(s: Seq<char>) -> Option<Seq<char>> {
    let d = spec_extension_dot(s);
    if d == -1 {
        Option::None
    } else {
        Option::Some(s.subrange(d + 1, s.len() as int))
    }
}

/// The file name of `s`: everything after the last `/`.
pub open spec fn spec_file_name_of(s: Seq<char>) -> Seq<char> {
    s.subrange(spec_file_name_start(s), s.len() as int)
}

/// The file stem of `s`: its file name without the extension.
pub open spec fn spec_file_stem_of(s: Seq<char>) -> Seq<char> {
    let d = spec_extension_dot(s);
    if d == -1 {
        spec_file_name_of(s)
    } else {
        s.subrange(spec_file_name_start(s), d)
    }
}

/// `s` with its extension replaced by `ext` (or with `.ext` appended when
/// `s` has no extension).
pub open spec fn spec_with_extension(s: Seq<char>, ext: Seq<char>) -> Seq<char> {
    let d = spec_extension_dot(s);
    if d == -1 {
        s + seq!['.'] + ext
    } else {
        s.subrange(0, d) + seq!['.'] + ext
    }
}

/// The parent directory of `s`: everything before the last `/`, or `None`
/// when `s` holds no `/`.  The parent of a path directly under the root
/// is `/` itself.
pub open spec fn spec_parent_of(s: Seq<char>) -> Option<Seq<char>> {
    let k = last_index_of_char(s, '/');
    if k == -1 {
        Option::None
    } else if k == 0 {
        Option::Some(seq!['/'])
    } else {
        Option::Some(s.subrange(0, k))
    }
}

/// `dir` and `name` joined with a separator.  No separator is added when
/// `dir` already ends in one or is empty.
pub open spec fn spec_join_path(dir: Seq<char>, name: Seq<char>) -> Seq<char> {
    if dir.len() == 0 {
        name
    } else if dir[dir.len() - 1] == '/' {
        dir + name
    } else {
        dir + seq!['/'] + name
    }
}

/// Whether `root` names a directory that the path `full` lies under:
/// `root` is a proper prefix and ends at a component boundary.
pub open spec fn spec_is_path_under(full: Seq<char>, root: Seq<char>) -> bool {
    root.len() < full.len() && full.subrange(0, root.len() as int) == root && (root.len() == 0
        || full[root.len() as int] == '/' || root[root.len() - 1] == '/')
}

/// `s` without its leading `/` characters.
pub open spec fn spec_skip_leading_slashes(s: Seq<char>) -> Seq<char>
    decreases s.len(),
{
    if s.len() > 0 && s[0] == '/' {
        spec_skip_leading_slashes(s.drop_first())
    } else {
        s
    }
}

/// The path `full` made relative to the directory `root`: the root prefix
/// and the separators after it are stripped.
pub open spec fn spec_library_relative_path(full: Seq<char>, root: Seq<char>) -> Seq<char>
    recommends
        spec_is_path_under(full, root),
{
    spec_skip_leading_slashes(full.skip(root.len() as int))
}

/// The extension of `path`, or `None` when it has none.
pub fn extension_of(path: &str) -> (r: Option<String>)
    ensures
        r matches Some(e) ==> spec_extension_of(path@) == Some(e@),
        r is None ==> spec_extension_of(path@) is None,
{
    let len = path.unicode_len();
    let dot = find_last_char(path, '.');
    let slash = find_last_char(path, '/');
    let name_start: usize = match slash {
        Some(k) => k + 1,
        None => 0,
    };
    match dot {
        Some(d) if d > name_start => {
            let e = path.substring_char(d + 1, len);
            Some(String::from_str(e))
        }
        _ => None,
    }
}

/// The file name of `path`: everything after the last `/`.
pub fn file_name_of(path: &str) -> (r: String)
    ensures
        r@ == spec_file_name_of(path@),
{
    let len = path.unicode_len();
    let name_start: usize = match find_last_char(path, '/') {
        Some(k) => k + 1,
        None => 0,
    };
    String::from_str(path.substring_char(name_start, len))
}

/// The file stem of `path`: its file name without the extension.
pub fn file_stem_of(path: &str) -> (r: String)
    ensures
        r@ == spec_file_stem_of(path@),
{
    let len = path.unicode_len();
    let name_start: usize = match find_last_char(path, '/') {
        Some(k) => k + 1,
        None => 0,
    };
    match find_last_char(path, '.') {
        Some(d) if d > name_start => String::from_str(path.substring_char(name_start, d)),
        _ => String::from_str(path.substring_char(name_start, len)),
    }
}

/// `path` with its extension replaced by `ext`.
pub fn with_extension(path: &str, ext: &str) -> (r: String)
    ensures
        r@ == spec_with_extension(path@, ext@),
{
    let len = path.unicode_len();
    let dot = find_last_char(path, '.');
    let slash = find_last_char(path, '/');
    let name_start: usize = match slash {
        Some(k) => k + 1,
        None => 0,
    };
    let stem: &str = match dot {
        Some(d) if d > name_start => path.substring_char(0, d),
        _ => path.substring_char(0, len),
    };
    let mut r = String::from_str(stem);
    r.append(".");
    r.append(ext);
    proof {
        reveal_strlit(".");
        assert(r@ =~= spec_with_extension(path@, ext@));
    }
    r
}

/// The parent directory of `path`, or `None` when it holds no `/`.
pub fn parent_of(path: &str) -> (r: Option<String>)
    ensures
        r matches Some(p) ==> spec_parent_of(path@) == Some(p@),
        r is None ==> spec_parent_of(path@) is None,
{
    match find_last_char(path, '/') {
        Some(k) => {
            if k == 0 {
                let r = String::from_str("/");
                proof {
                    reveal_strlit("/");
                    assert(r@ =~= seq!['/']);
                }
                Some(r)
            } else {
                Some(String::from_str(path.substring_char(0, k)))
            }
        }
        None => None,
    }
}

/// `dir` and `name` joined with a separator.
pub fn join_path(dir: &str, name: &str) -> (r: String)
    ensures
        r@ == spec_join_path(dir@, name@),
{
    let len = dir.unicode_len();
    if len == 0 {
        String::from_str(name)
    } else if dir.get_char(len - 1) == '/' {
        let mut r = String::from_str(dir);
        r.append(name);
        r
    } else {
        let mut r = String::from_str(dir);
        r.append("/");
        r.append(name);
        proof {
            reveal_strlit("/");
            assert(r@ =~= spec_join_path(dir@, name@));
        }
        r
    }
}

/// Whether `root` names a directory that `full` lies under.
pub fn is_path_under(full: &str, root: &str) -> (r: bool)
    ensures
        r == spec_is_path_under(full@, root@),
{
    let full_len = full.unicode_len();
    let root_len = root.unicode_len();
    if root_len >= full_len {
        return false;
    }
    let prefix = full.substring_char(0, root_len);
    if !str_eq(prefix, root) {
        return false;
    }
    if root_len == 0 {
        return true;
    }
    full.get_char(root_len) == '/' || root.get_char(root_len - 1) == '/'
}

/// Whether two string slices hold the same characters.
pub fn str_eq(a: &str, b: &str) -> (r: bool)
    ensures
        r == (a@ == b@),
{
    let a_len = a.unicode_len();
    let b_len = b.unicode_len();
    if a_len != b_len {
        proof {
            assert(a@ != b@) by {
                if a@ == b@ {
                    assert(a@.len() == b@.len());
                }
            }
        }
        return false;
    }
    let mut i: usize = 0;
    while i < a_len
        invariant
            i <= a_len,
            a_len == a@.len(),
            a_len == b@.len(),
            forall|j: int| 0 <= j < i ==> a@[j] == b@[j],
        decreases a_len - i,
    {
        if a.get_char(i) != b.get_char(i) {
            return false;
        }
        i = i + 1;
    }
    proof {
        assert(a@ =~= b@);
    }
    true
}

/// Whether `c` is `l` itself or its ASCII upper-case counterpart, for a
/// lower-case ASCII `l`.
pub open spec fn char_matches_lower(c: char, l: char) -> bool {
    c == l || (65 <= c as int <= 90 && c as int + 32 == l as int)
}

/// Whether `s` equals the lower-case ASCII string `lit` up to ASCII case.
pub open spec fn spec_eq_ignore_ascii_case(s: Seq<char>, lit: Seq<char>) -> bool {
    s.len() == lit.len() && (forall|j: int| 0 <= j < s.len() ==> char_matches_lower(s[j], #[trigger] lit[j]))
}

/// Compares `s` against the lower-case ASCII string `lit`, ignoring the
/// ASCII case of `s`.
pub fn eq_ignore_ascii_case(s: &str, lit: &str) -> (r: bool)
    ensures
        r == spec_eq_ignore_ascii_case(s@, lit@),
{
    let s_len = s.unicode_len();
    let lit_len = lit.unicode_len();
    if s_len != lit_len {
        return false;
    }
    let mut i: usize = 0;
    while i < s_len
        invariant
            i <= s_len,
            s_len == s@.len(),
            s_len == lit@.len(),
            forall|j: int| 0 <= j < i ==> char_matches_lower(s@[j], #[trigger] lit@[j]),
        decreases s_len - i,
    {
        let c = s.get_char(i) as u32;
        let l = lit.get_char(i) as u32;
        if !(c == l || (65 <= c && c <= 90 && c + 32 == l)) {
            return false;
        }
        i = i + 1;
    }
    true
}

/// The path `full` made relative to the directory `root`.
pub fn library_relative_path_str(full: &str, root: &str) -> (r: String)
    requires
        spec_is_path_under(full@, root@),
    ensures
        r@ == spec_library_relative_path(full@, root@),
{
    let full_len = full.unicode_len();
    let root_len = root.unicode_len();
    let mut start = root_len;
    while start < full_len && full.get_char(start) == '/'
        invariant
            root_len <= start <= full_len,
            full_len == full@.len(),
            forall|j: int| root_len <= j < start ==> full@[j] == '/',
            spec_skip_leading_slashes(full@.skip(root_len as int)) == spec_skip_leading_slashes(
                full@.skip(start as int),
            ),
        decreases full_len - start,
    {
        proof {
            assert(full@.skip(start as int)[0] == full@[start as int]);
            assert(full@.skip(start as int).drop_first() =~= full@.skip(start + 1));
        }
        start = start + 1;
    }
    proof {
        let tail = full@.skip(start as int);
        if tail.len() > 0 {
            assert(tail[0] == full@[start as int]);
        }
        assert(spec_skip_leading_slashes(tail) == tail);
    }
    String::from_str(full.substring_char(start, full_len))
}

} // verus!
