//! Path text handling.
//!
//! Paths are handled as text. Both `/` and `\` separate segments, since the launcher
//! deals with Windows and Unix paths alike; empty segments and `.` segments are not
//! file names. A leading separator (the root) is kept when a path is shortened.

use vstd::prelude::*;
use crate::files::utf8_len;
use crate::text::{chars_of, concat2, copy_str, i32_to_string, signed_decimal, string_from, sub_chars};
use crate::tui::{fg_text, green};

verus! {

/// A path separator.
pub open spec fn is_separator(c: char) -> bool {
    c == '/' || c == '\\'
}

/// The path without trailing separators and trailing `.` segments; a lone leading
/// separator (the root) and a lone `.` stay.
pub open spec fn trim_trailing(s: Seq<char>) -> Seq<char>
    decreases s.len(),
{
    if s.len() >= 2 && is_separator(s.last()) {
        trim_trailing(s.drop_last())
    } else if s.len() >= 2 && s.last() == '.' && is_separator(s[s.len() - 2]) {
        trim_trailing(s.drop_last())
    } else {
        s
    }
}

/// The index of the last separator of `s`, or -1 when there is none.
pub open spec fn last_separator(s: Seq<char>) -> int
    decreases s.len(),
{
    if s.len() == 0 {
        -1
    } else if is_separator(s.last()) {
        s.len() - 1
    } else {
        last_separator(s.drop_last())
    }
}

/// The last segment of a path, after trimming.
pub open spec fn last_segment(s: Seq<char>) -> Seq<char> {
    let t = trim_trailing(s);
    t.skip(last_separator(t) + 1)
}

/// The file name of a path: its last segment, unless that is empty, `.` or `..`.
pub open spec fn file_name_spec(s: Seq<char>) -> Option<Seq<char>> {
    let seg = last_segment(s);
    if seg.len() == 0 || seg == seq!['.'] || seg == seq!['.', '.'] {
        None
    } else {
        Some(seg)
    }
}

/// The parent of a path: what precedes its last segment, trimmed; none for a path with
/// no segment (empty, or just the root).
pub open spec fn parent_spec(s: Seq<char>) -> Option<Seq<char>> {
    let t = trim_trailing(s);
    let seg = last_segment(s);
    if seg.len() == 0 {
        None
    } else {
        Some(trim_trailing(t.take(t.len() - seg.len())))
    }
}

/// The index of the last `.` of a file name, or -1 when there is none.
pub open spec fn last_dot(s: Seq<char>) -> int
    decreases s.len(),
{
    if s.len() == 0 {
        -1
    } else if s.last() == '.' {
        s.len() - 1
    } else {
        last_dot(s.drop_last())
    }
}

/// The file name without its extension. A name whose only dot is its first character
/// (".cfg") has no extension.
pub open spec fn stem_of(name: Seq<char>) -> Seq<char> {
    if last_dot(name) <= 0 {
        name
    } else {
        name.take(last_dot(name))
    }
}

/// The extension of a file name: what follows its last dot, unless that dot is its
/// first character or it has none.
pub open spec fn extension_of(name: Seq<char>) -> Option<Seq<char>> {
    if last_dot(name) <= 0 {
        None
    } else {
        Some(name.skip(last_dot(name) + 1))
    }
}

/// `extract_path`: the parent's text, or "" when there is none.
pub open spec fn extract_path_spec(s: Seq<char>) -> Seq<char> {
    match parent_spec(s) {
        Some(p) => p,
        None => Seq::<char>::empty(),
    }
}

/// `extract_file_name`: the file name, or "" when there is none.
pub open spec fn extract_file_name_spec(s: Seq<char>) -> Seq<char> {
    match file_name_spec(s) {
        Some(n) => n,
        None => Seq::<char>::empty(),
    }
}

/// The file name without extension, or "" when there is no file name.
pub open spec fn base_name_spec(s: Seq<char>) -> Seq<char> {
    match file_name_spec(s) {
        Some(n) => stem_of(n),
        None => Seq::<char>::empty(),
    }
}

/// The extension of the path's file name, if any.
pub open spec fn path_extension_spec(s: Seq<char>) -> Option<Seq<char>> {
    match file_name_spec(s) {
        Some(n) => extension_of(n),
        None => None,
    }
}

/// A file name pushed onto a base path: a rooted file name replaces the base; otherwise
/// a separator is put between them unless the base is empty or already ends with one.
pub open spec fn full_path_spec(base: Seq<char>, file: Seq<char>) -> Seq<char> {
    if file.len() > 0 && is_separator(file[0]) {
        file
    } else if base.len() == 0 || is_separator(base.last()) {
        base + file
    } else {
        base + seq!['/'] + file
    }
}

/// The length of `trim_trailing(s@)`, which is a prefix of `s@`.
fn trim_trailing_len(s: &Vec<char>) -> (n: usize)
    ensures
        n <= s@.len(),
        trim_trailing(s@) == s@.take(n as int),
{
    let mut n = s.len();
    assert(s@.take(n as int) =~= s@);
    loop
        invariant
            n <= s@.len(),
            trim_trailing(s@) == trim_trailing(s@.take(n as int)),
        decreases n,
    {
        let ghost t = s@.take(n as int);
        if n >= 2 {
            assert(t.drop_last() =~= s@.take(n - 1));
            assert(t.last() == s@[n - 1]);
            assert(t[t.len() - 2] == s@[n - 2]);
        }
        if n >= 2 && (s[n - 1] == '/' || s[n - 1] == '\\') {
            n = n - 1;
        } else if n >= 2 && s[n - 1] == '.' && (s[n - 2] == '/' || s[n - 2] == '\\') {
            n = n - 1;
        } else {
            return n;
        }
    }
}

/// The index of the last separator among the first `n` characters, if any.
fn last_separator_in(s: &Vec<char>, n: usize) -> (r: Option<usize>)
    requires
        n <= s@.len(),
    ensures
        r matches Some(i) ==> last_separator(s@.take(n as int)) == i && i < n,
        r is None ==> last_separator(s@.take(n as int)) == -1,
{
    let mut k = n;
    while k > 0
        invariant
            k <= n <= s@.len(),
            last_separator(s@.take(n as int)) == last_separator(s@.take(k as int)),
        decreases k,
    {
        let ghost t = s@.take(k as int);
        assert(t.drop_last() =~= s@.take(k - 1));
        assert(t.last() == s@[k - 1]);
        if s[k - 1] == '/' || s[k - 1] == '\\' {
            return Some(k - 1);
        }
        k = k - 1;
    }
    None
}

/// The start and end of the last segment of `s`, and the trimmed length.
fn last_segment_bounds(s: &Vec<char>) -> (r: (usize, usize))
    ensures
        r.0 <= r.1 <= s@.len(),
        trim_trailing(s@) == s@.take(r.1 as int),
        last_segment(s@) == s@.subrange(r.0 as int, r.1 as int),
{
    let n = trim_trailing_len(s);
    let start = match last_separator_in(s, n) {
        Some(i) => i + 1,
        None => 0,
    };
    assert(s@.take(n as int).skip(start as int) =~= s@.subrange(start as int, n as int));
    (start, n)
}

/// Whether a segment is `.` or `..`.
fn is_dot_segment(seg: &Vec<char>) -> (r: bool)
    ensures
        r == (seg@ == seq!['.'] || seg@ == seq!['.', '.']),
{
    if seg.len() == 1 {
        let r = seg[0] == '.';
        assert(r ==> seg@ =~= seq!['.']);
        assert(seg@ == seq!['.'] ==> seg@[0] == '.');
        r
    } else if seg.len() == 2 {
        let r = seg[0] == '.' && seg[1] == '.';
        assert(r ==> seg@ =~= seq!['.', '.']);
        assert(seg@ == seq!['.', '.'] ==> seg@[0] == '.' && seg@[1] == '.');
        r
    } else {
        false
    }
}

/// The file name of a path as characters, if it has one.
pub fn file_name_chars(s: &Vec<char>) -> (r: Option<Vec<char>>)
    ensures
        r matches Some(v) ==> file_name_spec(s@) == Some(v@),
        r is None ==> file_name_spec(s@) is None,
{
    let (start, end) = last_segment_bounds(s);
    let seg = sub_chars(s, start, end);
    if seg.len() == 0 || is_dot_segment(&seg) {
        None
    } else {
        Some(seg)
    }
}

/// The parent of a path as characters, if it has one.
pub fn parent_chars(s: &Vec<char>) -> (r: Option<Vec<char>>)
    ensures
        r matches Some(v) ==> parent_spec(s@) == Some(v@),
        r is None ==> parent_spec(s@) is None,
{
    let (start, end) = last_segment_bounds(s);
    if start == end {
        return None;
    }
    let before = sub_chars(s, 0, start);
    let n = trim_trailing_len(&before);
    assert(s@.take(end as int).take(end - (end - start)) =~= before@);
    Some(sub_chars(&before, 0, n))
}

/// The index of the last `.` of `s`, if any.
fn last_dot_index(s: &Vec<char>) -> (r: Option<usize>)
    ensures
        r is Some ==> last_dot(s@) == r->0 && r->0 < s@.len(),
        r is None ==> last_dot(s@) == -1,
{
    let mut k = s.len();
    assert(s@.take(k as int) =~= s@);
    while k > 0
        invariant
            k <= s@.len(),
            last_dot(s@) == last_dot(s@.take(k as int)),
        decreases k,
    {
        let ghost t = s@.take(k as int);
        assert(t.drop_last() =~= s@.take(k - 1));
        assert(t.last() == s@[k - 1]);
        if s[k - 1] == '.' {
            return Some(k - 1);
        }
        k = k - 1;
    }
    None
}

/// The stem of a file name.
pub fn stem_chars(name: &Vec<char>) -> (r: Vec<char>)
    ensures
        r@ == stem_of(name@),
{
    match last_dot_index(name) {
        Some(i) => {
            if i == 0 {
                sub_chars(name, 0, name.len())
            } else {
                sub_chars(name, 0, i)
            }
        },
        None => sub_chars(name, 0, name.len()),
    }
}

/// The extension of a file name, if any.
pub fn extension_chars(name: &Vec<char>) -> (r: Option<Vec<char>>)
    ensures
        r matches Some(v) ==> extension_of(name@) == Some(v@),
        r is None ==> extension_of(name@) is None,
{
    let len = name.len();
    match last_dot_index(name) {
        Some(i) => {
            if i == 0 {
                None
            } else {
                Some(sub_chars(name, i + 1, len))
            }
        },
        None => None,
    }
}

/// The extension of a path's file name, if any.
pub fn path_extension(full_path: &str) -> (r: Option<Vec<char>>)
    ensures
        r matches Some(v) ==> path_extension_spec(full_path@) == Some(v@),
        r is None ==> path_extension_spec(full_path@) is None,
{
    let s = chars_of(full_path);
    match file_name_chars(&s) {
        Some(name) => extension_chars(&name),
        None => None,
    }
}

/// The folder part of a path: everything before its file name, or "" when it has none.
pub fn extract_path(full_path: &str) -> (r: String)
    ensures
        r@ == extract_path_spec(full_path@),
{
    let s = chars_of(full_path);
    match parent_chars(&s) {
        Some(p) => string_from(&p),
        None => String::new(),
    }
}

/// The file name of a path, or "" when it has none.
pub fn extract_file_name(full_path: &str) -> (r: String)
    ensures
        r@ == extract_file_name_spec(full_path@),
{
    let s = chars_of(full_path);
    match file_name_chars(&s) {
        Some(n) => string_from(&n),
        None => String::new(),
    }
}

/// The file name of a path without its extension, or "" when it has none.
pub fn extract_file_name_no_extension(full_path: &str) -> (r: String)
    ensures
        r@ == base_name_spec(full_path@),
{
    let s = chars_of(full_path);
    match file_name_chars(&s) {
        Some(n) => {
            let stem = stem_chars(&n);
            string_from(&stem)
        },
        None => String::new(),
    }
}

/// The file name of a path without its extension, or "" when it has none.
pub fn get_base_name(file_path: &str) -> (r: String)
    ensures
        r@ == base_name_spec(file_path@),
{
    extract_file_name_no_extension(file_path)
}

/// A file name joined onto a folder path.
pub fn get_full_path(base_path: &str, file_name: &str) -> (r: String)
    ensures
        r@ == full_path_spec(base_path@, file_name@),
{
    let base = chars_of(base_path);
    let file = chars_of(file_name);
    if file.len() > 0 && (file[0] == '/' || file[0] == '\\') {
        return string_from(&file);
    }
    let mut out = string_from(&base);
    if !(base.len() == 0 || base[base.len() - 1] == '/' || base[base.len() - 1] == '\\') {
        crate::text::push_char(&mut out, '/');
    }
    let f = string_from(&file);
    out.append(f.as_str());
    proof {
        if !(base@.len() == 0 || is_separator(base@.last())) {
            assert(out@ =~= base@ + seq!['/'] + file@);
        }
    }
    out
}

/// `~/` at the start of a path, expanded to the home folder on macOS.
pub open spec fn resolve_path_spec(
    folder_path: Seq<char>,
    is_macos: bool,
    home_dir: Option<Seq<char>>,
) -> Seq<char> {
    if is_macos && seq!['~', '/'].is_prefix_of(folder_path) && home_dir is Some {
        home_dir->0 + folder_path.skip(1)
    } else {
        folder_path
    }
}

/// Expands a leading `~/` to the home folder, on macOS and when the home folder is
/// known; any other path is returned as it is.
pub fn resolve_path(folder_path: &str, is_macos: bool, home_dir: Option<&str>) -> (r: String)
    ensures
        r@ == resolve_path_spec(
            folder_path@,
            is_macos,
            match home_dir {
                Some(h) => Some(h@),
                None => None,
            },
        ),
{
    let s = chars_of(folder_path);
    if is_macos && s.len() >= 2 && s[0] == '~' && s[1] == '/' {
        if let Some(home) = home_dir {
            assert(seq!['~', '/'].is_prefix_of(s@));
            let mut out = crate::text::copy_str(home);
            let rest = sub_chars(&s, 1, s.len());
            let rest_s = string_from(&rest);
            out.append(rest_s.as_str());
            return out;
        }
    }
    proof {
        if is_macos && seq!['~', '/'].is_prefix_of(s@) {
            assert(s@[0] == seq!['~', '/'][0]);
            assert(s@[1] == seq!['~', '/'][1]);
        }
    }
    string_from(&s)
}

/// `resolve_path` applied to an optional path.
pub fn resolve_path_opt(folder_path: Option<String>, is_macos: bool, home_dir: Option<&str>) -> (r:
    Option<String>)
    ensures
        r is Some <==> folder_path is Some,
        r matches Some(p) ==> p@ == resolve_path_spec(
            folder_path->0@,
            is_macos,
            match home_dir {
                Some(h) => Some(h@),
                None => None,
            },
        ),
{
    match folder_path {
        Some(p) => Some(resolve_path(p.as_str(), is_macos, home_dir)),
        None => None,
    }
}


// ---------------------------------------------------------------------------
// Laws
// ---------------------------------------------------------------------------

/// A plain file name: not empty, no separator, and not `.` or `..`.
pub open spec fn is_plain_name(name: Seq<char>) -> bool {
    &&& name.len() > 0
    &&& forall|i: int| 0 <= i < name.len() ==> !is_separator(#[trigger] name[i])
    &&& name != seq!['.']
    &&& name != seq!['.', '.']
}

/// Appending text without separators does not move the last separator.
proof fn lemma_last_separator_append(a: Seq<char>, b: Seq<char>)
    requires
        forall|i: int| 0 <= i < b.len() ==> !is_separator(#[trigger] b[i]),
    ensures
        last_separator(a + b) == last_separator(a),
    decreases b.len(),
{
    if b.len() > 0 {
        let c = b.drop_last();
        assert forall|i: int| 0 <= i < c.len() implies !is_separator(#[trigger] c[i]) by {
            assert(c[i] == b[i]);
        }
        lemma_last_separator_append(a, c);
        assert((a + b).drop_last() =~= a + c);
        assert((a + b).last() == b[b.len() - 1]);
    } else {
        assert(a + b =~= a);
    }
}

/// The file name of a plain name joined onto a folder is that name: what
/// `get_full_path` joins, `extract_file_name` gives back.
pub proof fn law_file_name_of_joined_path(base: Seq<char>, name: Seq<char>)
    requires
        is_plain_name(name),
    ensures
        file_name_spec(full_path_spec(base, name)) == Some(name),
{
    let s = full_path_spec(base, name);
    let prefix = if name.len() > 0 && is_separator(name[0]) {
        Seq::<char>::empty()
    } else if base.len() == 0 || is_separator(base.last()) {
        base
    } else {
        base + seq!['/']
    };
    assert(!is_separator(name[0]));
    if base.len() == 0 || is_separator(base.last()) {
        assert(s =~= prefix + name);
    } else {
        assert(s =~= prefix + name);
    }
    assert(prefix.len() == 0 || is_separator(prefix.last()));
    // Trimming leaves the joined path alone: it ends inside the name.
    assert(s.last() == name[name.len() - 1]);
    assert(!is_separator(s.last()));
    if s.len() >= 2 && s.last() == '.' {
        if name.len() >= 2 {
            assert(s[s.len() - 2] == name[name.len() - 2]);
        } else {
            assert(name =~= seq!['.']);
        }
    }
    assert(trim_trailing(s) == s);
    lemma_last_separator_append(prefix, name);
    if prefix.len() > 0 {
        assert(last_separator(prefix) == prefix.len() - 1);
    } else {
        assert(last_separator(prefix) == -1);
    }
    assert(s.skip(last_separator(s) + 1) =~= name);
}

/// The folder of a plain name joined onto a folder is that folder, as long as the folder
/// is already in the form `extract_path` gives (no trailing separator or `.` segment
/// but for a lone root): what `get_full_path` joins, `extract_path` and
/// `extract_file_name` take apart again.
pub proof fn law_joined_path_splits_back(base: Seq<char>, name: Seq<char>)
    requires
        is_plain_name(name),
        trim_trailing(base) == base,
    ensures
        extract_path_spec(full_path_spec(base, name)) == base,
        extract_file_name_spec(full_path_spec(base, name)) == name,
{
    law_file_name_of_joined_path(base, name);
    let s = full_path_spec(base, name);
    let t = trim_trailing(s);
    let seg = last_segment(s);
    assert(seg == name);
    assert(!is_separator(name[0]));
    let prefix = if base.len() == 0 || is_separator(base.last()) {
        base
    } else {
        base + seq!['/']
    };
    assert(s =~= prefix + name);
    // The joined path ends inside the name, so trimming leaves it alone.
    assert(!is_separator(s.last())) by {
        assert(s.last() == name[name.len() - 1]);
    }
    if s.len() >= 2 && s.last() == '.' {
        if name.len() >= 2 {
            assert(s[s.len() - 2] == name[name.len() - 2]);
        } else {
            assert(name =~= seq!['.']);
        }
    }
    assert(t == s);
    assert(t.take(t.len() - seg.len()) =~= prefix);
    if !(base.len() == 0 || is_separator(base.last())) {
        assert(prefix.drop_last() =~= base);
        assert(trim_trailing(prefix) == trim_trailing(base));
    }
}

// ---------------------------------------------------------------------------
// Shortening paths for display
// ---------------------------------------------------------------------------

/// The number of bytes a character takes in UTF-8.
pub open spec fn char_width(c: char) -> nat {
    let u = c as u32;
    if u < 0x80 {
        1
    } else if u < 0x800 {
        2
    } else if u < 0x10000 {
        3
    } else {
        4
    }
}

/// How many leading characters of `s` fit in `b` bytes.
pub open spec fn chars_within(s: Seq<char>, b: int) -> nat
    decreases s.len(),
{
    if s.len() > 0 && char_width(s[0]) <= b {
        1 + chars_within(s.drop_first(), b - char_width(s[0]))
    } else {
        0
    }
}

/// A text shortened for display by cutting bytes out of its middle: when the text is
/// longer than `limit` bytes, the bytes from `len / 2 - half` to `len / 2 + half`
/// (with `half = (limit - 2) / 2`, saturating) are replaced by `..`, the cut moved
/// outwards to the nearest character boundaries. The result is not bounded by
/// `limit`: what is kept is everything outside the cut.
pub open spec fn truncate_middle_spec(s: Seq<char>, limit: nat) -> Seq<char> {
    let n = utf8_len(s);
    if n <= limit {
        s
    } else {
        let half: nat = (if limit >= 2 { (limit - 2) as nat } else { 0nat }) / 2;
        let start = n / 2 - half;
        let end = n / 2 + half;
        let j = chars_within(s, start as int);
        let k = if utf8_len(s.take(j as int)) == start { j } else { j + 1 };
        let m = chars_within(s, end as int);
        s.take(k as int) + ".."@ + s.skip(m as int)
    }
}

/// The UTF-8 length of a concatenation is the sum of the lengths.
proof fn lemma_utf8_len_concat(a: Seq<char>, b: Seq<char>)
    ensures
        utf8_len(a + b) == utf8_len(a) + utf8_len(b),
    decreases a.len(),
{
    if a.len() == 0 {
        assert(a + b =~= b);
    } else {
        assert((a + b).drop_first() =~= a.drop_first() + b);
        assert((a + b)[0] == a[0]);
        lemma_utf8_len_concat(a.drop_first(), b);
    }
}

/// One more character adds its width to the length of a prefix.
proof fn lemma_utf8_len_take_next(s: Seq<char>, i: int)
    requires
        0 <= i < s.len(),
    ensures
        utf8_len(s.take(i + 1)) == utf8_len(s.take(i)) + char_width(s[i]),
{
    assert(s.take(i + 1) =~= s.take(i) + seq![s[i]]);
    lemma_utf8_len_concat(s.take(i), seq![s[i]]);
    assert(seq![s[i]].drop_first() =~= Seq::<char>::empty());
    assert(utf8_len(Seq::<char>::empty()) == 0);
    assert(utf8_len(seq![s[i]]) == char_width(s[i]));
}

/// A prefix is no longer in bytes than the whole text.
proof fn lemma_utf8_len_take_le(s: Seq<char>, i: int)
    requires
        0 <= i <= s.len(),
    ensures
        utf8_len(s.take(i)) <= utf8_len(s),
{
    assert(s =~= s.take(i) + s.skip(i));
    lemma_utf8_len_concat(s.take(i), s.skip(i));
}

fn width_of(c: char) -> (w: usize)
    ensures
        w == char_width(c),
{
    let u = c as u32;
    if u < 0x80 {
        1
    } else if u < 0x800 {
        2
    } else if u < 0x10000 {
        3
    } else {
        4
    }
}

/// How many leading characters fit in `b` bytes, and the bytes they take.
pub(crate) fn count_within(v: &Vec<char>, b: usize) -> (r: (usize, usize))
    ensures
        r.0 == chars_within(v@, b as int),
        r.1 == utf8_len(v@.take(r.0 as int)),
        r.1 <= b,
        r.0 <= v@.len(),
{
    let mut i: usize = 0;
    let mut off: usize = 0;
    let mut fits = true;
    assert(v@.skip(0) =~= v@);
    assert(v@.take(0) =~= Seq::<char>::empty());
    while fits && i < v.len()
        invariant
            i <= v@.len(),
            off <= b,
            off == utf8_len(v@.take(i as int)),
            fits ==> chars_within(v@, b as int) == i + chars_within(v@.skip(i as int), b - off),
            !fits ==> chars_within(v@, b as int) == i,
        decreases v.len() - i + (if fits { 1int } else { 0int }),
    {
        let w = width_of(v[i]);
        assert(v@.skip(i as int)[0] == v@[i as int]);
        assert(v@.skip(i as int).drop_first() =~= v@.skip(i + 1));
        if w > b - off {
            fits = false;
        } else {
            proof {
                lemma_utf8_len_take_next(v@, i as int);
            }
            off = off + w;
            i = i + 1;
        }
    }
    if fits {
        assert(v@.skip(i as int) =~= Seq::<char>::empty());
    }
    (i, off)
}

fn utf8_length(v: &Vec<char>) -> (n: usize)
    requires
        utf8_len(v@) <= usize::MAX,
    ensures
        n == utf8_len(v@),
{
    let mut i: usize = 0;
    let mut n: usize = 0;
    assert(v@.take(0) =~= Seq::<char>::empty());
    while i < v.len()
        invariant
            i <= v@.len(),
            n == utf8_len(v@.take(i as int)),
            utf8_len(v@) <= usize::MAX,
        decreases v.len() - i,
    {
        proof {
            lemma_utf8_len_take_next(v@, i as int);
            lemma_utf8_len_take_le(v@, i + 1);
        }
        n = n + width_of(v[i]);
        i = i + 1;
    }
    assert(v@.take(i as int) =~= v@);
    n
}

/// A text shortened for display: see `truncate_middle_spec`.
pub fn truncate_middle(input: &str, size_limit: usize) -> (r: String)
    requires
        utf8_len(input@) <= usize::MAX,
    ensures
        r@ == truncate_middle_spec(input@, size_limit as nat),
{
    let v = chars_of(input);
    let n = utf8_length(&v);
    if n <= size_limit {
        return copy_str(input);
    }
    let half: usize = size_limit.saturating_sub(2) / 2;
    let start: usize = n / 2 - half;
    let end: usize = n / 2 + half;
    let (j, off) = count_within(&v, start);
    let count = v.len();
    let k: usize = if off == start {
        j
    } else {
        proof {
            if j == v@.len() {
                assert(v@.take(j as int) =~= v@);
                assert(off == n);
            }
            assert(j < count);
        }
        j + 1
    };
    let (m, _) = count_within(&v, end);
    let head = sub_chars(&v, 0, k);
    let tail = sub_chars(&v, m, v.len());
    let mut out = string_from(&head);
    out.append("..");
    let t = string_from(&tail);
    out.append(t.as_str());
    assert(head@ =~= v@.take(k as int));
    assert(tail@ =~= v@.skip(m as int));
    out
}

/// How many matches a search has found so far: `0 matches`, or the count in green.
pub fn get_matches_count(found_count: i32) -> (r: String)
    ensures
        found_count == 0 ==> r@ == "0 matches"@,
        found_count != 0 ==> r@ == fg_text(seq!['3', '2'], signed_decimal(found_count as int) + " matches"@),
{
    if found_count == 0 {
        return copy_str("0 matches");
    }
    let n = i32_to_string(found_count);
    let t = concat2(n.as_str(), " matches");
    green(t.as_str())
}

} // verus!
