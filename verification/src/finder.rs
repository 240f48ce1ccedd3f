//! Reading executable version information: the version strings that macOS
//! bundles carry and the property listings that PowerShell prints on Windows.

use vstd::prelude::*;
use crate::data::{version_text, FileVersion};
use crate::text::{decimal, is_ascii_digit, lemma_decimal, lemma_parse_decimal, lemma_position_of_first, lemma_position_of_none};
use crate::files::utf8_len;
use crate::paths::{char_width, chars_within, count_within, extract_file_name, extract_file_name_spec};
use crate::text::{
    concat3, copy_str, str_starts_with, str_trim, string_seq, trim,
    all_ascii, chars_of, digit_pred, is_ascii_char, lemma_split_char_pieces_ascii,
    position_of_alphabetic, unicode_alphabetic_pred, lemma_position_of_found,
    lemma_split_char_nonempty, parse_u32, parse_u32_or_zero, position_of,
    position_of_digit, split_char, split_chars, string_from, sub_chars, views,
};

verus! {

/// `str::split_at` at byte offset `b`: the characters before it and those from it on,
/// when `b` falls on a character boundary; `None` where the split would panic.
pub open spec fn split_at_byte(s: Seq<char>, b: int) -> Option<(Seq<char>, Seq<char>)> {
    let j = chars_within(s, b);
    if utf8_len(s.take(j as int)) == b {
        Some((s.take(j as int), s.skip(j as int)))
    } else {
        None
    }
}

/// The prefix of the first dot-separated part: the text before its first digit, cut at
/// the digit's character count taken as a byte offset. `None` where that cut panics.
pub open spec fn split_prefix(parts: Seq<Seq<char>>) -> Option<(Seq<char>, Seq<Seq<char>>)> {
    match position_of(parts[0], digit_pred()) {
        Some(i) => match split_at_byte(parts[0], i) {
            Some(cut) => Some((cut.0, parts.update(0, cut.1))),
            None => None,
        },
        None => Some((Seq::<char>::empty(), parts)),
    }
}

/// The suffix of the last dot-separated part: the text from its first alphabetic
/// character on, cut at that character's count taken as a byte offset. `None` where
/// that cut panics.
pub open spec fn split_suffix(parts: Seq<Seq<char>>) -> Option<(Seq<char>, Seq<Seq<char>>)> {
    let n = parts.len() - 1;
    match position_of(parts[n], unicode_alphabetic_pred()) {
        Some(i) => match split_at_byte(parts[n], i) {
            Some(cut) => Some((cut.1, parts.update(n, cut.0))),
            None => None,
        },
        None => Some((Seq::<char>::empty(), parts)),
    }
}

/// Whether splitting a version string goes through without a panic: both cuts fall on
/// character boundaries (always so for ASCII text).
pub open spec fn file_version_splits(version: Seq<char>) -> bool {
    match split_prefix(split_char(version, '.')) {
        Some(a) => split_suffix(a.1) is Some,
        None => false,
    }
}

/// The version string split into prefix, major, minor, build, optional revision and
/// suffix: "g4.11.1a" reads as ("g", 4, 11, 1, None, "a"). Fewer than three
/// dot-separated parts give nothing; a part that is not a number reads as 0. Meant for
/// strings that split (`file_version_splits`).
pub open spec fn file_version_spec(version: Seq<char>) -> Option<
    (Seq<char>, u32, u32, u32, Option<u32>, Seq<char>),
> {
    let (prefix, p1) = split_prefix(split_char(version, '.'))->0;
    let (suffix, p2) = split_suffix(p1)->0;
    if p2.len() < 3 {
        None
    } else {
        Some(
            (
                prefix,
                parse_u32_or_zero(p2[0]),
                parse_u32_or_zero(p2[1]),
                parse_u32_or_zero(p2[2]),
                if p2.len() == 4 {
                    Some(parse_u32_or_zero(p2[3]))
                } else {
                    None
                },
                suffix,
            ),
        )
    }
}

/// `s.parse::<u32>().unwrap_or(0)`.
pub fn parse_u32_or_default(s: &Vec<char>) -> (r: u32)
    ensures
        r == parse_u32_or_zero(s@),
{
    match parse_u32(s) {
        Some(v) => v,
        None => 0,
    }
}

/// `str::split_at` at byte offset `b`, or `None` where it would panic.
fn split_chars_at_byte(v: &Vec<char>, b: usize) -> (r: Option<(Vec<char>, Vec<char>)>)
    ensures
        match split_at_byte(v@, b as int) {
            Some(cut) => r matches Some(x) && x.0@ == cut.0 && x.1@ == cut.1,
            None => r is None,
        },
{
    let (j, off) = count_within(v, b);
    if off == b {
        let pre = sub_chars(v, 0, j);
        let post = sub_chars(v, j, v.len());
        assert(pre@ =~= v@.take(j as int));
        assert(post@ =~= v@.skip(j as int));
        Some((pre, post))
    } else {
        None
    }
}

/// The prefix, the numeric parts and the suffix of a version string, or `None` where
/// splitting it would panic.
fn split_version(version: &str) -> (r: Option<(Vec<char>, Vec<Vec<char>>, Vec<char>)>)
    ensures
        file_version_splits(version@) <==> r is Some,
        r matches Some(x) ==> {
            let (prefix, p1) = split_prefix(split_char(version@, '.'))->0;
            let (suffix, p2) = split_suffix(p1)->0;
            x.0@ == prefix && views(x.1@) == p2 && x.2@ == suffix
        },
{
    let chars = chars_of(version);
    let mut parts = split_chars(&chars, '.');
    proof {
        lemma_split_char_nonempty(version@, '.');
    }
    let ghost p0 = views(parts@);
    let mut prefix: Vec<char> = Vec::new();
    let first_digit = position_of_digit(&parts[0]);
    proof {
        lemma_position_of_found(p0[0], digit_pred());
    }
    match first_digit {
        Some(index) => {
            let first = parts[0].clone();
            match split_chars_at_byte(&first, index) {
                Some((pre, post)) => {
                    prefix = pre;
                    parts.set(0, post);
                    assert(views(parts@) =~= (split_prefix(p0)->0).1);
                },
                None => {
                    return None;
                },
            }
        },
        None => {
            assert(prefix@ =~= (split_prefix(p0)->0).0);
        },
    }
    let ghost p1 = views(parts@);
    assert(p1.len() > 0);
    let last_index = parts.len() - 1;
    let mut suffix: Vec<char> = Vec::new();
    let first_alpha = position_of_alphabetic(&parts[last_index]);
    proof {
        lemma_position_of_found(p1[last_index as int], unicode_alphabetic_pred());
    }
    match first_alpha {
        Some(index) => {
            let last = parts[last_index].clone();
            match split_chars_at_byte(&last, index) {
                Some((pre, post)) => {
                    suffix = post;
                    parts.set(last_index, pre);
                    assert(views(parts@) =~= (split_suffix(p1)->0).1);
                },
                None => {
                    return None;
                },
            }
        },
        None => {
            assert(suffix@ =~= (split_suffix(p1)->0).0);
        },
    }
    Some((prefix, parts, suffix))
}

/// Whether a version string splits without a panic (see `file_version_splits`).
pub fn version_splits_cleanly(version: &str) -> (r: bool)
    ensures
        r == file_version_splits(version@),
{
    split_version(version).is_some()
}

/// Splits a version string such as "5.0.4.1" or "g4.11.1a" into its prefix, major,
/// minor and build numbers, optional revision and suffix.
///
/// The prefix and suffix are cut at a character count used as a byte offset; strings
/// where that offset is not a character boundary, which would make the cut panic, are
/// left out (`file_version_splits`; every ASCII string splits).
pub fn parse_file_version_to_u32(version: &str) -> (r: Option<
    (String, u32, u32, u32, Option<u32>, String),
>)
    requires
        file_version_splits(version@),
    ensures
        r is Some <==> file_version_spec(version@) is Some,
        r matches Some(t) ==> (t.0@, t.1, t.2, t.3, t.4, t.5@) == file_version_spec(
            version@,
        )->0,
{
    let (prefix, parts, suffix) = match split_version(version) {
        Some(x) => x,
        None => {
            return None;
        },
    };
    let ghost p2 = views(parts@);
    if parts.len() < 3 {
        return None;
    }
    let major = parse_u32_or_default(&parts[0]);
    let minor = parse_u32_or_default(&parts[1]);
    let build = parse_u32_or_default(&parts[2]);
    let revision = if parts.len() == 4 {
        Some(parse_u32_or_default(&parts[3]))
    } else {
        None
    };
    assert(p2[0] == parts@[0]@);
    assert(p2[1] == parts@[1]@);
    assert(p2[2] == parts@[2]@);
    assert(parts.len() == 4 ==> p2[3] == parts@[3]@);
    Some((string_from(&prefix), major, minor, build, revision, string_from(&suffix)))
}

/// Every ASCII version string splits without a panic.
pub proof fn law_ascii_version_strings_split(version: Seq<char>)
    requires
        all_ascii(version),
    ensures
        file_version_splits(version),
{
    let parts = split_char(version, '.');
    lemma_split_char_nonempty(version, '.');
    lemma_split_char_pieces_ascii(version, '.');
    lemma_position_of_found(parts[0], digit_pred());
    match position_of(parts[0], digit_pred()) {
        Some(i) => {
            lemma_ascii_split_at_byte(parts[0], i);
        },
        None => {},
    }
    let p1 = (split_prefix(parts)->0).1;
    let n = p1.len() - 1;
    assert(all_ascii(p1[n])) by {
        if n == 0 {
            match position_of(parts[0], digit_pred()) {
                Some(i) => {
                    assert forall|k: int| 0 <= k < p1[0].len() implies is_ascii_char(#[trigger] p1[0][k]) by {
                        assert(p1[0][k] == parts[0][k + i]);
                    }
                },
                None => {},
            }
        }
    }
    lemma_position_of_found(p1[n], unicode_alphabetic_pred());
    match position_of(p1[n], unicode_alphabetic_pred()) {
        Some(i) => {
            lemma_ascii_split_at_byte(p1[n], i);
        },
        None => {},
    }
}

/// ASCII text splits at every byte offset within it, after as many characters.
pub proof fn lemma_ascii_split_at_byte(s: Seq<char>, b: int)
    requires
        all_ascii(s),
        0 <= b <= s.len(),
    ensures
        split_at_byte(s, b) == Some((s.take(b), s.skip(b))),
{
    lemma_ascii_chars_within(s, b);
    lemma_ascii_utf8_len(s.take(b));
}

proof fn lemma_ascii_chars_within(s: Seq<char>, b: int)
    requires
        all_ascii(s),
        0 <= b <= s.len(),
    ensures
        chars_within(s, b) == b,
    decreases b,
{
    if b > 0 {
        assert(is_ascii_char(s[0]));
        assert(all_ascii(s.drop_first())) by {
            assert forall|k: int| 0 <= k < s.drop_first().len() implies is_ascii_char(#[trigger] s.drop_first()[k]) by {
                assert(s.drop_first()[k] == s[k + 1]);
            }
        }
        lemma_ascii_chars_within(s.drop_first(), b - 1);
    } else if s.len() > 0 {
        assert(char_width(s[0]) >= 1);
    }
}

proof fn lemma_ascii_utf8_len(s: Seq<char>)
    requires
        all_ascii(s),
    ensures
        utf8_len(s) == s.len(),
    decreases s.len(),
{
    if s.len() > 0 {
        assert(is_ascii_char(s[0]));
        assert(all_ascii(s.drop_first())) by {
            assert forall|k: int| 0 <= k < s.drop_first().len() implies is_ascii_char(#[trigger] s.drop_first()[k]) by {
                assert(s.drop_first()[k] == s[k + 1]);
            }
        }
        lemma_ascii_utf8_len(s.drop_first());
    }
}

// ---------------------------------------------------------------------------
// PowerShell property listings
// ---------------------------------------------------------------------------

/// The first line of `lines` that starts with `name`.
pub open spec fn first_line_with(lines: Seq<Seq<char>>, name: Seq<char>) -> Option<Seq<char>>
    decreases lines.len(),
{
    if lines.len() == 0 {
        None
    } else if name.is_prefix_of(lines[0]) {
        Some(lines[0])
    } else {
        first_line_with(lines.drop_first(), name)
    }
}

/// A property's value in a `Format-List` listing: the first line that starts with the
/// property's label, with every occurrence of the label removed, trimmed; "" when no
/// line has it.
pub open spec fn property_value(lines: Seq<Seq<char>>, name: Seq<char>) -> Seq<char> {
    match first_line_with(lines, name) {
        Some(l) => trim(crate::files::replace_all(l, name, Seq::empty())),
        None => Seq::empty(),
    }
}

/// A property's value in a listing that PowerShell printed.
pub fn get_property_from_stdout(stdout_strings: &Vec<String>, property_name: &str) -> (r: String)
    ensures
        r@ == property_value(string_seq(stdout_strings@), property_name@),
{
    let ghost lines = string_seq(stdout_strings@);
    let mut i: usize = 0;
    assert(lines.skip(0) =~= lines);
    while i < stdout_strings.len()
        invariant
            i <= stdout_strings@.len(),
            lines == string_seq(stdout_strings@),
            first_line_with(lines, property_name@) == first_line_with(
                lines.skip(i as int),
                property_name@,
            ),
        decreases stdout_strings.len() - i,
    {
        assert(lines.skip(i as int).drop_first() =~= lines.skip(i + 1));
        assert(lines.skip(i as int)[0] == stdout_strings@[i as int]@);
        if str_starts_with(stdout_strings[i].as_str(), property_name) {
            let empty = String::new();
            let replaced = crate::files::replace_str(stdout_strings[i].as_str(), property_name, empty.as_str());
            return str_trim(replaced.as_str());
        }
        i = i + 1;
    }
    assert(lines.skip(i as int) =~= Seq::<Seq<char>>::empty());
    String::new()
}

/// The four version fields of a PowerShell `FileVersionRaw` listing.
pub fn get_windows_file_version_information(stdout_strings: &Vec<String>) -> (r: (
    String,
    String,
    String,
    String,
))
    ensures
        r.0@ == property_value(string_seq(stdout_strings@), "Major    : "@),
        r.1@ == property_value(string_seq(stdout_strings@), "Minor    : "@),
        r.2@ == property_value(string_seq(stdout_strings@), "Build    : "@),
        r.3@ == property_value(string_seq(stdout_strings@), "Revision : "@),
{
    proof {
        reveal_strlit("Major    : ");
        reveal_strlit("Minor    : ");
        reveal_strlit("Build    : ");
        reveal_strlit("Revision : ");
    }
    let major = get_property_from_stdout(stdout_strings, "Major    : ");
    let minor = get_property_from_stdout(stdout_strings, "Minor    : ");
    let build = get_property_from_stdout(stdout_strings, "Build    : ");
    let revision = get_property_from_stdout(stdout_strings, "Revision : ");
    (major, minor, build, revision)
}

/// The application name of a PowerShell `VersionInfo` listing: its file description,
/// else its product name, else the file's name.
pub open spec fn windows_app_name(lines: Seq<Seq<char>>, full_path: Seq<char>) -> Seq<char> {
    let d = property_value(lines, "FileDescription :"@);
    let p = property_value(lines, "ProductName     :"@);
    if d.len() > 0 {
        d
    } else if p.len() > 0 {
        p
    } else {
        extract_file_name_spec(full_path)
    }
}

/// The application name of a PowerShell `VersionInfo` listing.
pub fn get_windows_file_description_information(stdout_strings: &Vec<String>, full_path: &str) -> (r:
    String)
    ensures
        r@ == windows_app_name(string_seq(stdout_strings@), full_path@),
{
    proof {
        reveal_strlit("FileDescription :");
        reveal_strlit("ProductName     :");
    }
    let d = get_property_from_stdout(stdout_strings, "FileDescription :");
    if !d.as_str().is_empty() {
        return d;
    }
    let p = get_property_from_stdout(stdout_strings, "ProductName     :");
    if !p.as_str().is_empty() {
        return p;
    }
    extract_file_name(full_path)
}

/// The version of a Windows executable from the fields and name PowerShell gave: each
/// field read as a number, 0 when it is not one.
pub fn windows_file_version(
    full_path: &str,
    fields: &(String, String, String, String),
    app_name: &str,
) -> (r: FileVersion)
    ensures
        r.app_name@ == app_name@,
        r.path@ == full_path@,
        r.major == parse_u32_or_zero(fields.0@),
        r.minor == parse_u32_or_zero(fields.1@),
        r.build == parse_u32_or_zero(fields.2@),
        r.revision == parse_u32_or_zero(fields.3@),
{
    let a = chars_of(fields.0.as_str());
    let b = chars_of(fields.1.as_str());
    let c = chars_of(fields.2.as_str());
    let d = chars_of(fields.3.as_str());
    FileVersion {
        app_name: copy_str(app_name),
        path: copy_str(full_path),
        major: parse_u32_or_default(&a),
        minor: parse_u32_or_default(&b),
        build: parse_u32_or_default(&c),
        revision: parse_u32_or_default(&d),
    }
}

/// The version of a macOS bundle from its short version string and name; a missing
/// revision counts as 0. Fails when the version string has fewer than three parts.
pub fn macos_file_version(full_path: &str, version: &str, app_name: &str) -> (r: Result<
    FileVersion,
    String,
>)
    requires
        file_version_splits(version@),
    ensures
        match file_version_spec(version@) {
            Some(v) => r matches Ok(f) && f.app_name@ == app_name@ && f.path@ == full_path@
                && f.major == v.1 && f.minor == v.2 && f.build == v.3 && f.revision == match v.4 {
                Some(x) => x,
                None => 0u32,
            },
            None => r matches Err(m) && m@ == "Failed to parse the version string - '"@
                + version@,
        },
{
    match parse_file_version_to_u32(version) {
        Some((_prefix, major, minor, build, revision, _suffix)) => Ok(
            FileVersion {
                app_name: copy_str(app_name),
                path: copy_str(full_path),
                major,
                minor,
                build,
                revision: match revision {
                    Some(x) => x,
                    None => 0,
                },
            },
        ),
        None => Err(crate::text::concat2("Failed to parse the version string - '", version)),
    }
}

// ---------------------------------------------------------------------------
// PrBoom version output
// ---------------------------------------------------------------------------

/// What `Regex::new(pattern)` then `captures(text)` gives: the text of each group of
/// the first match (group 0 the whole match), or `None` when the pattern does not
/// compile or does not match.
pub uninterp spec fn regex_captures_result(pattern: Seq<char>, text: Seq<char>) -> Option<
    Seq<Option<Seq<char>>>,
>;

/// `regex::Regex::new` then `Regex::captures`: the groups of the first match, each as
/// its text when it took part. Its result is named `regex_captures_result`.
#[verifier::external_body]
pub(crate) fn regex_captures(pattern: &str, text: &str) -> (r: Option<Vec<Option<String>>>)
    ensures
        match r {
            Some(v) => regex_captures_result(pattern@, text@) == Some(
                v@.map_values(|g: Option<String>| match g {
                    Some(s) => Some(s@),
                    None => None,
                }),
            ),
            None => regex_captures_result(pattern@, text@) is None,
        },
{
    match regex::Regex::new(pattern) {
        Ok(re) => re.captures(text).map(
            |c| c.iter().map(|m| m.map(|m| m.as_str().to_string())).collect(),
        ),
        Err(_) => None,
    }
}

/// The pattern of a PrBoom version: `v` and three dotted numbers.
pub const PRBOOM_VERSION_PATTERN: &'static str = "v(\\d+)\\.(\\d+)\\.(\\d+)";

/// The text of group `i`, "" when there is none.
pub open spec fn group_text(groups: Seq<Option<Seq<char>>>, i: int) -> Seq<char> {
    if 0 <= i < groups.len() {
        match groups[i] {
            Some(s) => s,
            None => Seq::empty(),
        }
    } else {
        Seq::empty()
    }
}

/// What precedes the first occurrence of `pat` in `s` (all of `s` when there is none):
/// the first piece of `s.split(pat)`.
pub open spec fn before_pattern(s: Seq<char>, pat: Seq<char>) -> Seq<char>
    decreases s.len(),
{
    if s.len() == 0 || pat.is_prefix_of(s) {
        Seq::empty()
    } else {
        seq![s[0]] + before_pattern(s.drop_first(), pat)
    }
}

fn chars_before_pattern(s: &Vec<char>, pat: &Vec<char>) -> (r: Vec<char>)
    ensures
        r@ == before_pattern(s@, pat@),
{
    let mut i: usize = 0;
    assert(s@.skip(0) =~= s@);
    while i < s.len()
        invariant
            i <= s@.len(),
            before_pattern(s@, pat@) == s@.take(i as int) + before_pattern(s@.skip(i as int), pat@),
        decreases s.len() - i,
    {
        let rest = sub_chars(s, i, s.len());
        assert(rest@ =~= s@.skip(i as int));
        if crate::text::chars_starts_with(&rest, pat) {
            assert(s@.take(i as int) + Seq::<char>::empty() =~= s@.take(i as int));
            return sub_chars(s, 0, i);
        }
        assert(s@.skip(i as int).drop_first() =~= s@.skip(i + 1));
        assert(s@.take(i + 1) =~= s@.take(i as int) + seq![s@[i as int]]);
        i = i + 1;
    }
    assert(s@.take(i as int) + before_pattern(Seq::<char>::empty(), pat@) =~= s@);
    assert(s@.skip(i as int) =~= Seq::<char>::empty());
    sub_chars(s, 0, i)
}

/// The texts of captured groups, each present when it took part in the match.
pub open spec fn group_views(v: Seq<Option<String>>) -> Seq<Option<Seq<char>>> {
    v.map_values(|g: Option<String>| match g {
        Some(s) => Some(s@),
        None => None,
    })
}

/// The version in a PrBoom-family engine's `-v` line, given the groups of the first match
/// of `PRBOOM_VERSION_PATTERN` in it (`None` when nothing matched): the three numbers of
/// the match and, as its name, what precedes " v".
pub open spec fn prboom_version_from(line: Seq<char>, groups: Option<Seq<Option<Seq<char>>>>) -> Option<
    (Seq<char>, u32, u32, u32),
> {
    match groups {
        Some(groups) => Some(
            (
                before_pattern(line, " v"@),
                parse_u32_or_zero(group_text(groups, 1)),
                parse_u32_or_zero(group_text(groups, 2)),
                parse_u32_or_zero(group_text(groups, 3)),
            ),
        ),
        None => None,
    }
}

/// The version a PrBoom-family engine prints for `-v`: the numbers after the first
/// `v<major>.<minor>.<build>` and, as its name, what precedes " v"; fails when the line
/// has no such version.
pub open spec fn prboom_version_spec(line: Seq<char>) -> Option<(Seq<char>, u32, u32, u32)> {
    prboom_version_from(line, regex_captures_result(PRBOOM_VERSION_PATTERN@, line))
}

/// What a version result says: the file's version, or the message that no version was
/// found in `line`.
pub open spec fn prboom_result_is(
    full_path: Seq<char>,
    line: Seq<char>,
    v: Option<(Seq<char>, u32, u32, u32)>,
    r: Result<FileVersion, String>,
) -> bool {
    match v {
        Some(v) => r matches Ok(f) && f.app_name@ == v.0 && f.path@ == full_path && f.major
            == v.1 && f.minor == v.2 && f.build == v.3 && f.revision == 0,
        None => r matches Err(m) && m@ == "Unable find version in output from '"@ + line,
    }
}

fn group_chars(groups: &Vec<Option<String>>, i: usize) -> (r: Vec<char>)
    ensures
        r@ == group_text(
            groups@.map_values(|g: Option<String>| match g {
                Some(s) => Some(s@),
                None => None,
            }),
            i as int,
        ),
{
    if i < groups.len() {
        match &groups[i] {
            Some(s) => chars_of(s.as_str()),
            None => Vec::new(),
        }
    } else {
        Vec::new()
    }
}

/// The version of a PrBoom-family engine from the first line it printed for `-v`, given
/// the groups of the first match of `PRBOOM_VERSION_PATTERN` in that line (`None` when
/// nothing matched); the revision is 0.
pub fn prboom_version_from_groups(
    full_path: &str,
    first_line: &str,
    groups: Option<Vec<Option<String>>>,
) -> (r: Result<FileVersion, String>)
    ensures
        prboom_result_is(
            full_path@,
            first_line@,
            prboom_version_from(
                first_line@,
                match groups {
                    Some(g) => Some(group_views(g@)),
                    None => None,
                },
            ),
            r,
        ),
{
    match groups {
        Some(groups) => {
            let g1 = group_chars(&groups, 1);
            let g2 = group_chars(&groups, 2);
            let g3 = group_chars(&groups, 3);
            let line = chars_of(first_line);
            let sep = chars_of(" v");
            let name = chars_before_pattern(&line, &sep);
            Ok(
                FileVersion {
                    app_name: string_from(&name),
                    path: copy_str(full_path),
                    major: parse_u32_or_default(&g1),
                    minor: parse_u32_or_default(&g2),
                    build: parse_u32_or_default(&g3),
                    revision: 0,
                },
            )
        },
        None => Err(crate::text::concat2("Unable find version in output from '", first_line)),
    }
}

/// The version of a PrBoom-family engine from the first line it printed for `-v`; the
/// revision is 0.
pub fn get_prboom_file_version(full_path: &str, first_line: &str) -> (r: Result<FileVersion, String>)
    ensures
        prboom_result_is(full_path@, first_line@, prboom_version_spec(first_line@), r),
{
    let groups = regex_captures(PRBOOM_VERSION_PATTERN, first_line);
    let ghost gs = groups;
    proof {
        if let Some(g) = gs {
            assert(group_views(g@) =~= g@.map_values(|g: Option<String>| match g {
                Some(s) => Some(s@),
                None => None,
            }));
        }
    }
    prboom_version_from_groups(full_path, first_line, groups)
}

// ---------------------------------------------------------------------------
// Laws
// ---------------------------------------------------------------------------

/// A text without the separator is one piece.
pub proof fn lemma_split_char_plain(s: Seq<char>, sep: char)
    requires
        forall|i: int| 0 <= i < s.len() ==> s[i] != sep,
    ensures
        split_char(s, sep) == seq![s],
    decreases s.len(),
{
    if s.len() > 0 {
        let t = s.drop_last();
        assert forall|i: int| 0 <= i < t.len() implies t[i] != sep by {
            assert(t[i] == s[i]);
        }
        lemma_split_char_plain(t, sep);
        assert(s.last() == s[s.len() - 1]);
        assert(s[s.len() - 1] != sep);
        assert(t.push(s.last()) =~= s);
        assert(seq![t].update(0, t.push(s.last())) =~= seq![s]);
    } else {
        assert(s =~= Seq::<char>::empty());
    }
}

/// Splitting `x`, a separator and a piece `y` without separators gives the pieces of
/// `x` followed by `y`.
pub proof fn lemma_split_char_append(x: Seq<char>, y: Seq<char>, sep: char)
    requires
        forall|i: int| 0 <= i < y.len() ==> y[i] != sep,
    ensures
        split_char(x + seq![sep] + y, sep) == split_char(x, sep).push(y),
    decreases y.len(),
{
    let s = x + seq![sep] + y;
    if y.len() == 0 {
        assert(s.drop_last() =~= x);
        assert(s.last() == sep);
        assert(y =~= Seq::<char>::empty());
    } else {
        let t = y.drop_last();
        assert forall|i: int| 0 <= i < t.len() implies t[i] != sep by {
            assert(t[i] == y[i]);
        }
        assert(y.last() == y[y.len() - 1]);
        lemma_split_char_append(x, t, sep);
        assert(s.drop_last() =~= x + seq![sep] + y.drop_last());
        assert(s.last() == y.last());
        lemma_split_char_nonempty(x, sep);
        let init = split_char(x, sep).push(y.drop_last());
        assert(init.update(init.len() - 1, init.last().push(y.last())) =~= split_char(x, sep).push(y)) by {
            assert(y.drop_last().push(y.last()) =~= y);
        }
    }
}

/// Decimal digits hold no dot and no letter.
proof fn lemma_decimal_plain(n: nat)
    ensures
        forall|i: int| 0 <= i < decimal(n).len() ==> decimal(n)[i] != '.',
        forall|i: int| 0 <= i < decimal(n).len() ==> !unicode_alphabetic_pred()(#[trigger] decimal(n)[i]),
        position_of(decimal(n), digit_pred()) == Some(0int),
        split_at_byte(decimal(n), 0) == Some((Seq::<char>::empty(), decimal(n))),
{
    lemma_decimal(n);
    let d = decimal(n);
    assert forall|i: int| 0 <= i < d.len() implies d[i] != '.' by {
        assert(is_ascii_digit(d[i]));
    }
    assert forall|i: int| 0 <= i < d.len() implies !unicode_alphabetic_pred()(#[trigger] d[i]) by {
        assert(is_ascii_digit(d[i]));
    }
    assert(all_ascii(d)) by {
        assert forall|i: int| 0 <= i < d.len() implies is_ascii_char(#[trigger] d[i]) by {
            assert(is_ascii_digit(d[i]));
        }
    }
    lemma_ascii_split_at_byte(d, 0);
    assert(d.take(0) =~= Seq::<char>::empty());
    assert(d.skip(0) =~= d);
    assert(digit_pred()(d[0])) by {
        assert(is_ascii_digit(d[0]));
    }
    lemma_position_of_first(d, digit_pred(), 0);
}

/// A version shown as `major.minor.build.revision` reads back as the same four numbers,
/// with no prefix and no suffix.
pub proof fn law_display_version_parses_back(major: u32, minor: u32, build: u32, revision: u32)
    ensures
        file_version_spec(version_text(major, minor, build, revision)) == Some(
            (Seq::<char>::empty(), major, minor, build, Some(revision), Seq::<char>::empty()),
        ),
{
    let a = decimal(major as nat);
    let b = decimal(minor as nat);
    let c = decimal(build as nat);
    let d = decimal(revision as nat);
    lemma_decimal_plain(major as nat);
    lemma_decimal_plain(minor as nat);
    lemma_decimal_plain(build as nat);
    lemma_decimal_plain(revision as nat);
    lemma_split_char_plain(a, '.');
    lemma_split_char_append(a, b, '.');
    lemma_split_char_append(a + seq!['.'] + b, c, '.');
    lemma_split_char_append(a + seq!['.'] + b + seq!['.'] + c, d, '.');
    let v = version_text(major, minor, build, revision);
    assert(v =~= a + seq!['.'] + b + seq!['.'] + c + seq!['.'] + d);
    let parts = split_char(v, '.');
    assert(parts =~= seq![a, b, c, d]);
    assert(parts[0].take(0) =~= Seq::<char>::empty());
    assert(parts[0].skip(0) =~= parts[0]);
    assert(parts.update(0, parts[0].skip(0)) =~= parts);
    lemma_position_of_none(d, unicode_alphabetic_pred());
    lemma_parse_decimal(major);
    lemma_parse_decimal(minor);
    lemma_parse_decimal(build);
    lemma_parse_decimal(revision);
}

} // verus!
