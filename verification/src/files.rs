//! What the launcher learns from file names and file contents: which map file is
//! which readme's, a map's title and author, which engine or IWAD a file is, and
//! whether a file is a WAD of the right kind.

use vstd::prelude::*;
use crate::constants::DEFAULT_UNKNOWN;
use crate::doom_data::{
    all_known_engines, engine_list_spec, engines_view, is_internal_wad_list, known_iwads,
    OperatingSystem, GameEngine, GameEngineType, InternalWad, InternalWadType,
    IWAD_IDENTIFIER, PWAD_IDENTIFIER,
};
use crate::db::{first_match, lemma_first_match_at};
use crate::tui::char_at;
use crate::paths::{
    base_name_spec, extract_file_name, extract_file_name_spec, get_base_name, path_extension,
    path_extension_spec,
};
use crate::text::{
    all_ascii, ascii_lowercase, chars_of, concat3, copy_str, split_char, split_chars, str_eq,
    str_starts_with, string_from, to_lowercase, trim, trim_chars, unicode_lowercase, views,
};

verus! {

// ---------------------------------------------------------------------------
// Outside calls
// ---------------------------------------------------------------------------

/// The Levenshtein distance: the least number of single-character insertions,
/// deletions and substitutions that turn `a` into `b`.
pub open spec fn edit_distance(a: Seq<char>, b: Seq<char>) -> nat
    decreases a.len() + b.len(),
{
    if a.len() == 0 {
        b.len()
    } else if b.len() == 0 {
        a.len()
    } else {
        let del = edit_distance(a.drop_last(), b) + 1;
        let ins = edit_distance(a, b.drop_last()) + 1;
        let sub = edit_distance(a.drop_last(), b.drop_last()) + if a.last() == b.last() {
            0nat
        } else {
            1nat
        };
        if del <= ins && del <= sub {
            del
        } else if ins <= sub {
            ins
        } else {
            sub
        }
    }
}

/// `strsim::levenshtein`, which its documentation gives as "the minimum number of
/// insertions, deletions, and substitutions required to change one string into the
/// other", counted over characters.
#[verifier::external_body]
fn levenshtein(a: &str, b: &str) -> (r: usize)
    ensures
        r == edit_distance(a@, b@),
{
    strsim::levenshtein(a, b)
}

/// What `Regex::new(pattern)` then `replace_all(text, replacement)` gives: `None` when the
/// pattern does not compile.
pub uninterp spec fn regex_replace_all_result(
    pattern: Seq<char>,
    text: Seq<char>,
    replacement: Seq<char>,
) -> Option<Seq<char>>;

/// `regex::Regex::new` then `Regex::replace_all`: every non-overlapping match of the
/// pattern in `text` replaced; `None` when the pattern does not compile. Its result is
/// named `regex_replace_all_result`.
#[verifier::external_body]
pub(crate) fn regex_replace_all(pattern: &str, text: &str, replacement: &str) -> (r: Option<String>)
    ensures
        match r {
            Some(s) => regex_replace_all_result(pattern@, text@, replacement@) == Some(s@),
            None => regex_replace_all_result(pattern@, text@, replacement@) is None,
        },
{
    match regex::Regex::new(pattern) {
        Ok(re) => Some(re.replace_all(text, replacement).to_string()),
        Err(_) => None,
    }
}

// ---------------------------------------------------------------------------
// Readme files
// ---------------------------------------------------------------------------

/// The extensions of the files that hold maps.
pub open spec fn is_game_file_extension(ext: Seq<char>) -> bool {
    ext == "wad"@ || ext == "pk3"@ || ext == "pke"@
}

fn game_file_extension(ext: &str) -> (r: bool)
    ensures
        r == is_game_file_extension(ext@),
{
    str_eq(ext, crate::doom_data::EXT_WAD) || str_eq(ext, crate::doom_data::EXT_PK3) || str_eq(
        ext,
        crate::doom_data::EXT_PKE,
    )
}

/// The lower-cased extension of a path, "" when it has none.
pub open spec fn lower_extension(path: Seq<char>) -> Seq<char> {
    unicode_lowercase(
        match path_extension_spec(path) {
            Some(e) => e,
            None => Seq::empty(),
        },
    )
}

fn lower_extension_of(path: &str) -> (r: String)
    ensures
        r@ == lower_extension(path@),
{
    let ext = match path_extension(path) {
        Some(e) => string_from(&e),
        None => String::new(),
    };
    to_lowercase(ext.as_str())
}

/// `s` with every occurrence of `pat`, from the left and without overlaps, replaced by
/// `rep` (`str::replace`). An empty pattern occurs before each character and at the
/// end.
pub open spec fn replace_all(s: Seq<char>, pat: Seq<char>, rep: Seq<char>) -> Seq<char>
    decreases s.len(),
{
    if pat.len() == 0 {
        if s.len() == 0 {
            rep
        } else {
            rep + (seq![s[0]] + replace_all(s.drop_first(), pat, rep))
        }
    } else if s.len() == 0 {
        s
    } else if pat.is_prefix_of(s) {
        rep + replace_all(s.skip(pat.len() as int), pat, rep)
    } else {
        seq![s[0]] + replace_all(s.drop_first(), pat, rep)
    }
}

/// `s.replace(pat, rep)`.
pub fn replace_str(s: &str, pat: &str, rep: &str) -> (r: String)
    ensures
        r@ == replace_all(s@, pat@, rep@),
{
    let v = chars_of(s);
    let p = chars_of(pat);
    let mut out = String::new();
    if p.len() == 0 {
        let mut i: usize = 0;
        assert(v@.skip(0) =~= v@);
        while i < v.len()
            invariant
                i <= v@.len(),
                v@ == s@,
                pat@.len() == 0,
                replace_all(s@, pat@, rep@) == out@ + replace_all(v@.skip(i as int), pat@, rep@),
            decreases v.len() - i,
        {
            let ghost rest = v@.skip(i as int);
            let ghost before = out@;
            out.append(rep);
            crate::text::push_char(&mut out, v[i]);
            assert(rest[0] == v@[i as int]);
            assert(rest.drop_first() =~= v@.skip(i + 1));
            assert(before + (rep@ + (seq![rest[0]] + replace_all(rest.drop_first(), pat@, rep@)))
                =~= out@ + replace_all(v@.skip(i + 1), pat@, rep@));
            i = i + 1;
        }
        assert(v@.skip(v@.len() as int) =~= Seq::<char>::empty());
        out.append(rep);
        return out;
    }
    let mut i: usize = 0;
    assert(v@.skip(0) =~= v@);
    while i < v.len()
        invariant
            i <= v@.len(),
            v@ == s@,
            p@ == pat@,
            p@.len() > 0,
            replace_all(s@, pat@, rep@) == out@ + replace_all(v@.skip(i as int), pat@, rep@),
        decreases v.len() - i,
    {
        let ghost rest = v@.skip(i as int);
        let mut matches = p.len() <= v.len() - i;
        let mut k: usize = 0;
        while matches && k < p.len()
            invariant
                k <= p@.len(),
                matches ==> i + p@.len() <= v@.len(),
                matches ==> forall|j: int| 0 <= j < k ==> v@[i + j] == p@[j],
                !matches ==> !p@.is_prefix_of(rest),
                rest == v@.skip(i as int),
                i < v@.len(),
                v@.len() <= usize::MAX,
            decreases p.len() - k,
        {
            if v[i + k] != p[k] {
                matches = false;
                assert(rest[k as int] == v@[i + k]);
            }
            k = k + 1;
        }
        if matches {
            assert(p@.is_prefix_of(rest)) by {
                assert forall|j: int| 0 <= j < p@.len() implies p@[j] == rest[j] by {
                    assert(rest[j] == v@[i + j]);
                }
            }
            let ghost before = out@;
            out.append(rep);
            assert(rest.skip(p@.len() as int) =~= v@.skip(i + p@.len()));
            assert(before + (rep@ + replace_all(rest.skip(p@.len() as int), pat@, rep@)) =~= out@
                + replace_all(v@.skip(i + p@.len()), pat@, rep@));
            i = i + p.len();
        } else {
            let ghost before = out@;
            crate::text::push_char(&mut out, v[i]);
            assert(rest.drop_first() =~= v@.skip(i + 1));
            assert(before + (seq![rest[0]] + replace_all(rest.drop_first(), pat@, rep@)) =~= out@
                + replace_all(v@.skip(i + 1), pat@, rep@));
            i = i + 1;
        }
    }
    assert(v@.skip(v@.len() as int) =~= Seq::<char>::empty());
    assert(out@ + Seq::<char>::empty() =~= out@);
    out
}

/// The readme a map file has first: the lower-cased path with `.<extension>` replaced
/// by `.txt`; none unless the extension is one of a map file.
pub open spec fn readme_candidate_spec(map_path: Seq<char>) -> Option<Seq<char>> {
    let ext = lower_extension(map_path);
    if is_game_file_extension(ext) {
        Some(replace_all(unicode_lowercase(map_path), seq!['.'] + ext, seq!['.'] + "txt"@))
    } else {
        None
    }
}

/// The readme a map file has first, if it is a map file.
pub fn readme_candidate(map_path: &str) -> (r: Option<String>)
    ensures
        match readme_candidate_spec(map_path@) {
            Some(c) => r matches Some(s) && s@ == c,
            None => r is None,
        },
{
    let ext = lower_extension_of(map_path);
    if !game_file_extension(ext.as_str()) {
        return None;
    }
    let lower = to_lowercase(map_path);
    let mut pat = copy_str(".");
    pat.append(ext.as_str());
    let mut rep = copy_str(".");
    rep.append(crate::doom_data::EXT_TXT);
    proof {
        reveal_strlit(".");
        assert("."@ =~= seq!['.']);
    }
    Some(replace_str(lower.as_str(), pat.as_str(), rep.as_str()))
}

/// The UTF-8 length of a text, in bytes.
pub open spec fn utf8_len(s: Seq<char>) -> nat
    decreases s.len(),
{
    if s.len() == 0 {
        0
    } else {
        let u = s[0] as u32;
        (if u < 0x80 {
            1nat
        } else if u < 0x800 {
            2nat
        } else if u < 0x10000 {
            3nat
        } else {
            4nat
        }) + utf8_len(s.drop_first())
    }
}

/// How far a readme's name may be from a map's: half the map name's length in bytes,
/// rounded half up.
pub open spec fn similarity_threshold_spec(base_name: Seq<char>) -> nat {
    (utf8_len(base_name) + 1) / 2
}

/// Half the name's length in bytes, rounded half up.
pub fn similarity_threshold(base_name: &str) -> (r: usize)
    requires
        utf8_len(base_name@) < usize::MAX,
    ensures
        r == similarity_threshold_spec(base_name@),
{
    let v = chars_of(base_name);
    let mut n: usize = 0;
    let mut i: usize = v.len();
    assert(v@.skip(v@.len() as int) =~= Seq::<char>::empty());
    while i > 0
        invariant
            i <= v@.len(),
            v@ == base_name@,
            n == utf8_len(v@.skip(i as int)),
            utf8_len(v@) < usize::MAX,
        decreases i,
    {
        let u = v[i - 1] as u32;
        let w: usize = if u < 0x80 {
            1
        } else if u < 0x800 {
            2
        } else if u < 0x10000 {
            3
        } else {
            4
        };
        assert(v@.skip(i - 1).drop_first() =~= v@.skip(i as int));
        proof {
            lemma_utf8_len_suffix(v@, i - 1);
        }
        n = n + w;
        i = i - 1;
    }
    assert(v@.skip(0) =~= v@);
    (n + 1) / 2
}

/// A suffix is no longer in bytes than the whole text.
proof fn lemma_utf8_len_suffix(s: Seq<char>, k: int)
    requires
        0 <= k <= s.len(),
    ensures
        utf8_len(s.skip(k)) <= utf8_len(s),
    decreases k,
{
    if k > 0 {
        lemma_utf8_len_suffix(s.drop_first(), k - 1);
        assert(s.drop_first().skip(k - 1) =~= s.skip(k));
    } else {
        assert(s.skip(0) =~= s);
    }
}

/// What strips a version from a map name: a `-` or `_` followed by letters or digits,
/// dotted numbers and another `-`/`_` word ("-2.29-RC1", "-RC1").
pub const VERSIONING_PATTERN: &'static str = "[-_][a-zA-Z0-9]+(\\.\\d+)*([-_][a-zA-Z]+)?";

/// A map name without its versioning: every match of `VERSIONING_PATTERN` removed (the
/// name unchanged should the pattern not compile).
pub open spec fn strip_versioning_spec(name: Seq<char>) -> Seq<char> {
    match regex_replace_all_result(VERSIONING_PATTERN@, name, Seq::empty()) {
        Some(s) => s,
        None => name,
    }
}

/// A map name without its versioning.
pub fn strip_versioning(name: &str) -> (r: String)
    ensures
        r@ == strip_versioning_spec(name@),
{
    let empty = String::new();
    match regex_replace_all(VERSIONING_PATTERN, name, empty.as_str()) {
        Some(s) => s,
        None => copy_str(name),
    }
}

/// The best readme of `files` for a map named `base`, continuing from `best`: the first
/// file whose base name is closest to `base`, among those no farther than `threshold`.
pub open spec fn closest_from(
    base: Seq<char>,
    threshold: nat,
    files: Seq<Seq<char>>,
    best: Option<(Seq<char>, nat)>,
) -> Option<(Seq<char>, nat)>
    decreases files.len(),
{
    if files.len() == 0 {
        best
    } else {
        let score = edit_distance(base, base_name_spec(files[0]));
        let improves = match best {
            Some((_, s)) => score < s,
            None => true,
        };
        let next = if score <= threshold && improves {
            Some((files[0], score))
        } else {
            best
        };
        closest_from(base, threshold, files.drop_first(), next)
    }
}

/// The readme of `files` closest to a map's name: its base name with the versioning
/// stripped is compared with each file's base name.
pub open spec fn closest_readme_spec(map_path: Seq<char>, files: Seq<Seq<char>>) -> Option<Seq<char>> {
    let base = strip_versioning_spec(base_name_spec(map_path));
    match closest_from(base, similarity_threshold_spec(base), files, None) {
        Some(b) => Some(b.0),
        None => None,
    }
}

/// The text file of `txt_files` whose base name is closest to `base`, the first of equal
/// ones, among those no farther than the similarity threshold of `base`.
pub fn closest_readme(base: &str, txt_files: &Vec<String>) -> (r: Option<String>)
    requires
        utf8_len(base@) < usize::MAX,
    ensures
        match closest_from(
            base@,
            similarity_threshold_spec(base@),
            crate::text::string_seq(txt_files@),
            None,
        ) {
            Some(b) => r matches Some(s) && s@ == b.0,
            None => r is None,
        },
{
    let threshold = similarity_threshold(base);
    let ghost files = crate::text::string_seq(txt_files@);
    let mut best: Option<(usize, usize)> = None;
    let mut i: usize = 0;
    assert(files.skip(0) =~= files);
    while i < txt_files.len()
        invariant
            i <= txt_files@.len(),
            files == crate::text::string_seq(txt_files@),
            threshold == similarity_threshold_spec(base@),
            closest_from(base@, threshold as nat, files, None) == closest_from(
                base@,
                threshold as nat,
                files.skip(i as int),
                match best {
                    Some((j, s)) => Some((files[j as int], s as nat)),
                    None => None,
                },
            ),
            best matches Some((j, s)) ==> j < i,
        decreases txt_files.len() - i,
    {
        let file_base = get_base_name(txt_files[i].as_str());
        let score = levenshtein(base, file_base.as_str());
        assert(files.skip(i as int).drop_first() =~= files.skip(i + 1));
        assert(files.skip(i as int)[0] == txt_files@[i as int]@);
        let better = match best {
            None => true,
            Some((_, s)) => score < s,
        };
        if score <= threshold && better {
            best = Some((i, score));
        }
        i = i + 1;
    }
    match best {
        Some((j, _)) => Some(txt_files[j].clone()),
        None => None,
    }
}

/// The text file of a map's folder whose name is closest to the map's.
pub fn get_map_readme_using_levenshtein(map_path: &str, txt_files: &Vec<String>) -> (r: Option<
    String,
>)
    requires
        utf8_len(strip_versioning_spec(base_name_spec(map_path@))) < usize::MAX,
    ensures
        match closest_readme_spec(map_path@, crate::text::string_seq(txt_files@)) {
            Some(f) => r matches Some(s) && s@ == f,
            None => r is None,
        },
{
    let name = get_base_name(map_path);
    let base = strip_versioning(name.as_str());
    closest_readme(base.as_str(), txt_files)
}

/// Which readme a map has: none unless it is a map file; the first candidate when that
/// file exists; otherwise the closest text file of its folder (`txt_files`, none when the
/// folder could not be read).
pub fn get_map_readme_file_name(
    map_path: &str,
    candidate_exists: bool,
    txt_files: &Option<Vec<String>>,
) -> (r: Option<String>)
    requires
        utf8_len(strip_versioning_spec(base_name_spec(map_path@))) < usize::MAX,
    ensures
        match readme_candidate_spec(map_path@) {
            None => r is None,
            Some(c) => if candidate_exists {
                r matches Some(s) && s@ == c
            } else {
                match txt_files {
                    None => r is None,
                    Some(files) => match closest_readme_spec(
                        map_path@,
                        crate::text::string_seq(files@),
                    ) {
                        Some(f) => r matches Some(s) && s@ == f,
                        None => r is None,
                    },
                }
            },
        },
{
    let candidate = match readme_candidate(map_path) {
        Some(c) => c,
        None => return None,
    };
    if candidate_exists {
        return Some(candidate);
    }
    match txt_files {
        Some(files) => get_map_readme_using_levenshtein(map_path, files),
        None => None,
    }
}

// ---------------------------------------------------------------------------
// Readme contents
// ---------------------------------------------------------------------------

/// The value a readme line gives for `key`: when the lower-cased line starts with the
/// key, the text between its first and second `:`, trimmed.
pub open spec fn readme_value(line: Seq<char>, key: Seq<char>) -> Option<Seq<char>> {
    if key.is_prefix_of(unicode_lowercase(line)) && split_char(line, ':').len() > 1 {
        Some(trim(split_char(line, ':')[1]))
    } else {
        None
    }
}

/// The value a readme line gives for `key`, if any.
pub fn check_readme_line(line: &str, key: &str) -> (r: Option<String>)
    ensures
        match readme_value(line@, key@) {
            Some(v) => r matches Some(s) && s@ == v,
            None => r is None,
        },
{
    let lower = to_lowercase(line);
    if str_starts_with(lower.as_str(), key) {
        let v = chars_of(line);
        let parts = split_chars(&v, ':');
        if parts.len() > 1 {
            assert(views(parts@)[1] == parts@[1]@);
            let t = trim_chars(&parts[1]);
            return Some(string_from(&t));
        }
    }
    None
}

/// The title and author of a map from its readme's lines, continuing from what was
/// found so far; the last value of each key counts, and reading stops once both were
/// found.
pub open spec fn details_from(
    lines: Seq<Seq<char>>,
    title: Seq<char>,
    author: Seq<char>,
    title_found: bool,
    author_found: bool,
) -> (Seq<char>, Seq<char>)
    decreases lines.len(),
{
    if lines.len() == 0 || (title_found && author_found) {
        (title, author)
    } else {
        let t = readme_value(lines[0], "title"@);
        let a = readme_value(lines[0], "author"@);
        details_from(
            lines.drop_first(),
            match t {
                Some(v) => v,
                None => title,
            },
            match a {
                Some(v) => v,
                None => author,
            },
            title_found || t is Some,
            author_found || a is Some,
        )
    }
}

/// A map's title and author: the map's file name and `DEFAULT_UNKNOWN`, unless its
/// readme's lines (`readme_lines`, none when it has no readme) give them.
pub fn get_details_from_readme(map_path: &str, readme_lines: &Option<Vec<String>>) -> (r: (
    String,
    String,
))
    ensures
        (r.0@, r.1@) == match readme_lines {
            Some(lines) => details_from(
                crate::text::string_seq(lines@),
                extract_file_name_spec(map_path@),
                DEFAULT_UNKNOWN@,
                false,
                false,
            ),
            None => (extract_file_name_spec(map_path@), DEFAULT_UNKNOWN@),
        },
{
    let mut title = extract_file_name(map_path);
    let mut author = copy_str(DEFAULT_UNKNOWN);
    let lines = match readme_lines {
        Some(l) => l,
        None => return (title, author),
    };
    let ghost all = crate::text::string_seq(lines@);
    let mut title_found = false;
    let mut author_found = false;
    let mut i: usize = 0;
    assert(all.skip(0) =~= all);
    while i < lines.len()
        invariant
            i <= lines@.len(),
            all == crate::text::string_seq(lines@),
            details_from(all, extract_file_name_spec(map_path@), DEFAULT_UNKNOWN@, false, false)
                == details_from(all.skip(i as int), title@, author@, title_found, author_found),
        ensures
            i >= lines@.len() || (title_found && author_found),
            i <= lines@.len(),
            details_from(all, extract_file_name_spec(map_path@), DEFAULT_UNKNOWN@, false, false)
                == details_from(all.skip(i as int), title@, author@, title_found, author_found),
        decreases lines.len() - i,
    {
        if title_found && author_found {
            break;
        }
        assert(all.skip(i as int).drop_first() =~= all.skip(i + 1));
        assert(all.skip(i as int)[0] == lines@[i as int]@);
        let t = check_readme_line(lines[i].as_str(), "title");
        let a = check_readme_line(lines[i].as_str(), "author");
        proof {
            reveal_strlit("title");
            reveal_strlit("author");
        }
        match t {
            Some(v) => {
                title = v;
                title_found = true;
            },
            None => {},
        }
        match a {
            Some(v) => {
                author = v;
                author_found = true;
            },
            None => {},
        }
        i = i + 1;
    }
    proof {
        if i >= lines@.len() {
            assert(all.skip(i as int) =~= Seq::<Seq<char>>::empty());
        }
    }
    (title, author)
}

// ---------------------------------------------------------------------------
// Engines and IWADs by file name
// ---------------------------------------------------------------------------

/// The first known engine whose executable name is the path's file name, case
/// ignored.
pub open spec fn engine_for_file(engines: Seq<GameEngine>, file_name: Seq<char>) -> Option<GameEngine> {
    first_match(engines, |e: GameEngine| unicode_lowercase(e.exe_name@) == unicode_lowercase(file_name))
}

/// The known engine a path's file name is, or the message that none is.
pub fn get_game_engine_from_exe_name(engine_list: &Vec<GameEngine>, exe_name: &str) -> (r: Result<
    GameEngine,
    String,
>)
    ensures
        match engine_for_file(engine_list@, extract_file_name_spec(exe_name@)) {
            Some(e) => r matches Ok(g) && g@ == e@,
            None => r matches Err(m) && m@ == "Unable to find engine type for exe name '"@
                + extract_file_name_spec(exe_name@) + "'"@,
        },
{
    let name = extract_file_name(exe_name);
    let lower = to_lowercase(name.as_str());
    let mut i: usize = 0;
    assert(engine_list@.skip(0) =~= engine_list@);
    while i < engine_list.len()
        invariant
            i <= engine_list@.len(),
            lower@ == unicode_lowercase(name@),
            name@ == extract_file_name_spec(exe_name@),
            engine_for_file(engine_list@, name@) == engine_for_file(
                engine_list@.skip(i as int),
                name@,
            ),
        decreases engine_list.len() - i,
    {
        assert(engine_list@.skip(i as int).drop_first() =~= engine_list@.skip(i + 1));
        assert(engine_list@.skip(i as int)[0] == engine_list@[i as int]);
        let e = &engine_list[i];
        let el = to_lowercase(e.exe_name.as_str());
        if str_eq(el.as_str(), lower.as_str()) {
            let g = GameEngine {
                exe_name: e.exe_name.clone(),
                internal_path: crate::data::copy_opt_string(&e.internal_path),
                game_engine_type: e.game_engine_type,
                operating_system: e.operating_system,
            };
            assert(engine_for_file(engine_list@.skip(i as int), name@) == Some(*e));
            assert(g@ == e@);
            return Ok(g);
        }
        i = i + 1;
    }
    assert(engine_list@.skip(i as int) =~= Seq::<GameEngine>::empty());
    Err(concat3("Unable to find engine type for exe name '", name.as_str(), "'"))
}

/// The first known IWAD whose file name is the path's file name, case ignored.
pub open spec fn iwad_for_file(iwads: Seq<InternalWad>, file_name: Seq<char>) -> Option<InternalWad> {
    first_match(iwads, |w: InternalWad| unicode_lowercase(w.file_name@) == unicode_lowercase(file_name))
}

/// The kind of IWAD a path's file name is, or the message that it is none.
pub fn get_internal_wad_type_from_file_name(iwad_list: &Vec<InternalWad>, path: &str) -> (r: Result<
    InternalWadType,
    String,
>)
    ensures
        match iwad_for_file(iwad_list@, extract_file_name_spec(path@)) {
            Some(w) => r == Ok::<InternalWadType, String>(w.internal_wad_type),
            None => r matches Err(m) && m@ == "Unable to find internal wad type for file name '"@
                + extract_file_name_spec(path@) + "'"@,
        },
{
    let name = extract_file_name(path);
    let lower = to_lowercase(name.as_str());
    let mut i: usize = 0;
    assert(iwad_list@.skip(0) =~= iwad_list@);
    while i < iwad_list.len()
        invariant
            i <= iwad_list@.len(),
            lower@ == unicode_lowercase(name@),
            name@ == extract_file_name_spec(path@),
            iwad_for_file(iwad_list@, name@) == iwad_for_file(iwad_list@.skip(i as int), name@),
        decreases iwad_list.len() - i,
    {
        assert(iwad_list@.skip(i as int).drop_first() =~= iwad_list@.skip(i + 1));
        assert(iwad_list@.skip(i as int)[0] == iwad_list@[i as int]);
        let w = &iwad_list[i];
        let wl = to_lowercase(w.file_name.as_str());
        if str_eq(wl.as_str(), lower.as_str()) {
            assert(iwad_for_file(iwad_list@.skip(i as int), name@) == Some(*w));
            return Ok(w.internal_wad_type);
        }
        i = i + 1;
    }
    assert(iwad_list@.skip(i as int) =~= Seq::<InternalWad>::empty());
    Err(concat3("Unable to find internal wad type for file name '", name.as_str(), "'"))
}

// ---------------------------------------------------------------------------
// Versions
// ---------------------------------------------------------------------------

/// How an engine's version is found out.
#[derive(Debug, PartialEq, Eq, Structural, Clone, Copy)]
pub enum VersionSource {
    /// From what the executable prints for `-v` (the PrBoom family).
    PrBoomOutput,
    /// From the file's version resource (or the bundle's property list on macOS).
    FileVersion,
}

/// How an engine's version is found out, or the message for an unknown engine.
pub fn get_version_from_exe_name(game_engine_type: GameEngineType) -> (r: Result<
    VersionSource,
    String,
>)
    ensures
        game_engine_type == GameEngineType::PrBoomPlus ==> r == Ok::<VersionSource, String>(
            VersionSource::PrBoomOutput,
        ),
        game_engine_type == GameEngineType::Unknown ==> (r matches Err(m) && m@
            == "Unknown game engine type"@),
        game_engine_type != GameEngineType::PrBoomPlus && game_engine_type
            != GameEngineType::Unknown ==> r == Ok::<VersionSource, String>(
            VersionSource::FileVersion,
        ),
{
    match game_engine_type {
        GameEngineType::PrBoomPlus => Ok(VersionSource::PrBoomOutput),
        GameEngineType::GzDoom | GameEngineType::CrispyDoom | GameEngineType::EternityEngine
        | GameEngineType::DoomRetro | GameEngineType::Woof => Ok(VersionSource::FileVersion),
        GameEngineType::Unknown => Err(copy_str("Unknown game engine type")),
    }
}

// ---------------------------------------------------------------------------
// WAD files
// ---------------------------------------------------------------------------

/// Whether a file is a WAD whose first four bytes are `identifier`: its extension is
/// `wad` in any case and it exists with that header (`header` is none when the file
/// does not exist).
pub open spec fn is_valid_wad_spec(file: Seq<char>, identifier: Seq<u8>, header: Option<Seq<u8>>) -> bool {
    ascii_lowercase(
        match path_extension_spec(file) {
            Some(e) => e,
            None => Seq::empty(),
        },
    ) == "wad"@ && (header matches Some(h) && h == identifier)
}

fn extension_is_wad(file: &str) -> (r: bool)
    ensures
        r == (ascii_lowercase(
            match path_extension_spec(file@) {
                Some(e) => e,
                None => Seq::empty(),
            },
        ) == "wad"@),
{
    let ext = match path_extension(file) {
        Some(e) => string_from(&e),
        None => String::new(),
    };
    let r = crate::menu_app_settings::eq_ignore_ascii_case(ext.as_str(), "wad");
    proof {
        reveal_strlit("wad");
        assert(ascii_lowercase("wad"@) =~= "wad"@);
    }
    r
}

fn header_is(header: &Option<[u8; 4]>, identifier: &[u8; 4]) -> (r: bool)
    ensures
        r == (header matches Some(h) && h@ == identifier@),
{
    match header {
        Some(h) => {
            let r = h[0] == identifier[0] && h[1] == identifier[1] && h[2] == identifier[2] && h[3]
                == identifier[3];
            assert(r ==> h@ =~= identifier@);
            assert(h@ == identifier@ ==> h@[0] == identifier@[0] && h@[1] == identifier@[1]
                && h@[2] == identifier@[2] && h@[3] == identifier@[3]);
            r
        },
        None => false,
    }
}

/// Whether a file is an IWAD, given its first four bytes (none when it does not exist).
pub fn is_iwad(file: &str, header: &Option<[u8; 4]>) -> (r: bool)
    ensures
        r == is_valid_wad_spec(
            file@,
            IWAD_IDENTIFIER@,
            match header {
                Some(h) => Some(h@),
                None => None,
            },
        ),
{
    extension_is_wad(file) && header_is(header, &IWAD_IDENTIFIER)
}

/// Whether a file is a PWAD, given its first four bytes (none when it does not exist).
pub fn is_pwad(file: &str, header: &Option<[u8; 4]>) -> (r: bool)
    ensures
        r == is_valid_wad_spec(
            file@,
            PWAD_IDENTIFIER@,
            match header {
                Some(h) => Some(h@),
                None => None,
            },
        ),
{
    extension_is_wad(file) && header_is(header, &PWAD_IDENTIFIER)
}

/// Whether a file can be a map: its extension is one of a map file, and a `.wad` also
/// has the PWAD header.
pub open spec fn map_file_spec(file: Seq<char>, header: Option<Seq<u8>>) -> bool {
    let ext = lower_extension(file);
    if is_game_file_extension(ext) && ascii_lowercase(ext) == "wad"@ {
        is_valid_wad_spec(file, PWAD_IDENTIFIER@, header)
    } else {
        is_game_file_extension(ext)
    }
}

/// Whether a file can be a map, given its first four bytes (none when it does not
/// exist).
pub fn map_file_extension(file: &str, header: &Option<[u8; 4]>) -> (r: bool)
    ensures
        r == map_file_spec(
            file@,
            match header {
                Some(h) => Some(h@),
                None => None,
            },
        ),
{
    let ext = lower_extension_of(file);
    let valid = game_file_extension(ext.as_str());
    if valid && crate::menu_app_settings::eq_ignore_ascii_case(ext.as_str(), "wad") {
        proof {
            reveal_strlit("wad");
            assert(ascii_lowercase("wad"@) =~= "wad"@);
        }
        return is_pwad(file, header);
    }
    proof {
        reveal_strlit("wad");
        assert(ascii_lowercase("wad"@) =~= "wad"@);
    }
    valid
}


// ---------------------------------------------------------------------------
// Recognising the known IWADs
// ---------------------------------------------------------------------------

/// The length of a lower-cased IWAD file name and its characters at 0, 4 and 6: no two
/// known IWADs share them.
pub open spec fn iwad_name_key(t: Seq<char>) -> (nat, Option<char>, Option<char>, Option<char>) {
    (t.len(), char_at(t, 0), char_at(t, 4), char_at(t, 6))
}

/// Where the known IWAD with the given key stands in `known_iwads`.
pub open spec fn known_iwad_of_key(key: (nat, Option<char>, Option<char>, Option<char>)) -> Option<int> {
    if key == (9nat, Some('d'), Some('1'), Some('w')) {
        Some(0int)
    } else if key == (8nat, Some('d'), Some('.'), Some('a')) {
        Some(1int)
    } else if key == (9nat, Some('d'), Some('2'), Some('w')) {
        Some(2int)
    } else if key == (7nat, Some('t'), Some('w'), Some('d')) {
        Some(3int)
    } else if key == (12nat, Some('p'), Some('o'), Some('i')) {
        Some(4int)
    } else if key == (12nat, Some('h'), Some('t'), Some('c')) {
        Some(5int)
    } else if key == (11nat, Some('h'), Some('t'), Some('c')) {
        Some(6int)
    } else if key == (9nat, Some('h'), Some('n'), Some('w')) {
        Some(7int)
    } else if key == (9nat, Some('h'), Some('d'), Some('w')) {
        Some(8int)
    } else if key == (11nat, Some('s'), Some('f'), Some('0')) {
        Some(9int)
    } else if key == (11nat, Some('s'), Some('f'), Some('1')) {
        Some(10int)
    } else if key == (10nat, Some('v'), Some('e'), Some('.')) {
        Some(11int)
    } else {
        None
    }
}

/// Each known IWAD's file name is ASCII, and its lower-cased key leads back to it.
proof fn lemma_known_iwad_name(k: int)
    requires
        0 <= k < known_iwads().len(),
    ensures
        all_ascii(known_iwads()[k].0),
        known_iwad_of_key(iwad_name_key(ascii_lowercase(known_iwads()[k].0))) == Some(k),
{
    if k == 0 {
        reveal_strlit("DOOM1.WAD");
        assert(known_iwads()[k].0 == "DOOM1.WAD"@);
    } else if k == 1 {
        reveal_strlit("DOOM.WAD");
        assert(known_iwads()[k].0 == "DOOM.WAD"@);
    } else if k == 2 {
        reveal_strlit("DOOM2.WAD");
        assert(known_iwads()[k].0 == "DOOM2.WAD"@);
    } else if k == 3 {
        reveal_strlit("TNT.WAD");
        assert(known_iwads()[k].0 == "TNT.WAD"@);
    } else if k == 4 {
        reveal_strlit("PLUTONIA.WAD");
        assert(known_iwads()[k].0 == "PLUTONIA.WAD"@);
    } else if k == 5 {
        reveal_strlit("HERETIC1.WAD");
        assert(known_iwads()[k].0 == "HERETIC1.WAD"@);
    } else if k == 6 {
        reveal_strlit("HERETIC.WAD");
        assert(known_iwads()[k].0 == "HERETIC.WAD"@);
    } else if k == 7 {
        reveal_strlit("HEXEN.WAD");
        assert(known_iwads()[k].0 == "HEXEN.WAD"@);
    } else if k == 8 {
        reveal_strlit("HEXDD.WAD");
        assert(known_iwads()[k].0 == "HEXDD.WAD"@);
    } else if k == 9 {
        reveal_strlit("STRIFE0.WAD");
        assert(known_iwads()[k].0 == "STRIFE0.WAD"@);
    } else if k == 10 {
        reveal_strlit("STRIFE1.WAD");
        assert(known_iwads()[k].0 == "STRIFE1.WAD"@);
    } else if k == 11 {
        reveal_strlit("VOICES.WAD");
        assert(known_iwads()[k].0 == "VOICES.WAD"@);
    }
}

/// A file named like a known IWAD, ASCII case ignored, is recognised as that IWAD.
pub proof fn law_known_iwad_recognised(list: Seq<InternalWad>, k: int, file_name: Seq<char>)
    requires
        is_internal_wad_list(list),
        0 <= k < list.len(),
        all_ascii(file_name),
        ascii_lowercase(file_name) == ascii_lowercase(known_iwads()[k].0),
    ensures
        iwad_for_file(list, file_name) == Some(list[k]),
        list[k].internal_wad_type == known_iwads()[k].1,
{
    let p = |w: InternalWad| unicode_lowercase(w.file_name@) == unicode_lowercase(file_name);
    lemma_known_iwad_name(k);
    assert forall|j: int| 0 <= j < k implies !p(#[trigger] list[j]) by {
        lemma_known_iwad_name(j);
    }
    lemma_first_match_at(list, p, k);
}


// ---------------------------------------------------------------------------
// Recognising the known engines
// ---------------------------------------------------------------------------

/// The length of a lower-cased engine file name and its characters at 1 and 7: no two
/// known engines share them.
pub open spec fn engine_name_key(t: Seq<char>) -> (nat, Option<char>, Option<char>) {
    (t.len(), char_at(t, 1), char_at(t, 7))
}

/// Where the known engine with the given key stands in `all_known_engines`.
pub open spec fn known_engine_of_key(key: (nat, Option<char>, Option<char>)) -> Option<int> {
    if key == (10nat, Some('z'), Some('e')) {
        Some(0int)
    } else if key == (13nat, Some('s'), Some('o')) {
        Some(1int)
    } else if key == (15nat, Some('r'), Some('d')) {
        Some(2int)
    } else if key == (12nat, Some('t'), Some('y')) {
        Some(3int)
    } else if key == (13nat, Some('o'), Some('r')) {
        Some(4int)
    } else if key == (8nat, Some('o'), Some('e')) {
        Some(5int)
    } else if key == (10nat, Some('z'), Some('a')) {
        Some(6int)
    } else {
        None
    }
}

/// Each known engine's file name is ASCII, and its lower-cased key leads back to it.
proof fn lemma_known_engine_name(i: int)
    requires
        0 <= i < all_known_engines().len(),
    ensures
        all_ascii(all_known_engines()[i].exe_name),
        known_engine_of_key(engine_name_key(ascii_lowercase(all_known_engines()[i].exe_name))) == Some(i),
{
    if i == 0 {
        reveal_strlit("gzdoom.exe");
        assert(all_known_engines()[i].exe_name == "gzdoom.exe"@);
    } else if i == 1 {
        reveal_strlit("dsda-doom.exe");
        assert(all_known_engines()[i].exe_name == "dsda-doom.exe"@);
    } else if i == 2 {
        reveal_strlit("crispy-doom.exe");
        assert(all_known_engines()[i].exe_name == "crispy-doom.exe"@);
    } else if i == 3 {
        reveal_strlit("eternity.exe");
        assert(all_known_engines()[i].exe_name == "eternity.exe"@);
    } else if i == 4 {
        reveal_strlit("doomretro.exe");
        assert(all_known_engines()[i].exe_name == "doomretro.exe"@);
    } else if i == 5 {
        reveal_strlit("woof.exe");
        assert(all_known_engines()[i].exe_name == "woof.exe"@);
    } else if i == 6 {
        reveal_strlit("gzdoom.app");
        assert(all_known_engines()[i].exe_name == "gzdoom.app"@);
    }
}

/// Where an engine of an operating system's list stands among all known engines.
proof fn lemma_engine_list_position(os: OperatingSystem, j: int)
    requires
        0 <= j < engine_list_spec(os).len(),
    ensures
        0 <= j + engine_list_offset(os) < all_known_engines().len(),
        engine_list_spec(os)[j] == all_known_engines()[j + engine_list_offset(os)],
{
}

/// How far into `all_known_engines` an operating system's list starts.
pub open spec fn engine_list_offset(os: OperatingSystem) -> int {
    match os {
        OperatingSystem::MacOs => 6,
        _ => 0,
    }
}

/// On any operating system, a file named like one of its known engines, ASCII case
/// ignored, is recognised as that engine.
pub proof fn law_known_engine_recognised(
    list: Seq<GameEngine>,
    os: OperatingSystem,
    k: int,
    file_name: Seq<char>,
)
    requires
        engines_view(list) == engine_list_spec(os),
        0 <= k < list.len(),
        all_ascii(file_name),
        ascii_lowercase(file_name) == ascii_lowercase(engine_list_spec(os)[k].exe_name),
    ensures
        engine_for_file(list, file_name) == Some(list[k]),
{
    let p = |e: GameEngine| unicode_lowercase(e.exe_name@) == unicode_lowercase(file_name);
    assert(list[k]@ == engines_view(list)[k]);
    lemma_engine_list_position(os, k);
    lemma_known_engine_name(k + engine_list_offset(os));
    assert forall|j: int| 0 <= j < k implies !p(#[trigger] list[j]) by {
        assert(list[j]@ == engines_view(list)[j]);
        lemma_engine_list_position(os, j);
        lemma_known_engine_name(j + engine_list_offset(os));
    }
    lemma_first_match_at(list, p, k);
}


// ---------------------------------------------------------------------------
// Choosing a readme
// ---------------------------------------------------------------------------

/// How far a file's base name is from a map's base name.
pub open spec fn readme_distance(base: Seq<char>, file: Seq<char>) -> nat {
    edit_distance(base, base_name_spec(file))
}

/// What the search for the closest readme gives, from any point of the search: nothing
/// exactly when nothing so far and no file left is close enough; otherwise a file that
/// is close enough, is the one so far or one of the files left, is no farther than the
/// one so far, and is no farther than any file left that is close enough.
proof fn lemma_closest_from(
    base: Seq<char>,
    threshold: nat,
    files: Seq<Seq<char>>,
    best: Option<(Seq<char>, nat)>,
)
    requires
        best matches Some((b, s)) ==> s == readme_distance(base, b) && s <= threshold,
    ensures
        closest_from(base, threshold, files, best) is None <==> (best is None && forall|k: int|
            0 <= k < files.len() ==> readme_distance(base, #[trigger] files[k]) > threshold),
        closest_from(base, threshold, files, best) matches Some((f, s)) ==> {
            &&& s == readme_distance(base, f)
            &&& s <= threshold
            &&& (best matches Some((b, bs)) ==> s <= bs && (f == b || exists|k: int|
                0 <= k < files.len() && #[trigger] files[k] == f))
            &&& (best is None ==> exists|k: int| 0 <= k < files.len() && #[trigger] files[k] == f)
            &&& forall|k: int|
                0 <= k < files.len() && readme_distance(base, #[trigger] files[k]) <= threshold
                    ==> s <= readme_distance(base, files[k])
            &&& (Some((f, s)) == best || exists|k: int|
                0 <= k < files.len() && #[trigger] files[k] == f && (best matches Some((_, bs))
                    ==> s < bs) && forall|j: int|
                    0 <= j < k && readme_distance(base, #[trigger] files[j]) <= threshold
                        ==> readme_distance(base, files[j]) > s)
        },
    decreases files.len(),
{
    if files.len() > 0 {
        let score = readme_distance(base, files[0]);
        let next = if score <= threshold && (best is None || score < (best->0).1) {
            Some((files[0], score))
        } else {
            best
        };
        let rest = files.drop_first();
        lemma_closest_from(base, threshold, rest, next);
        assert forall|k: int| 0 <= k < rest.len() implies #[trigger] rest[k] == files[k + 1] by {}
        let r = closest_from(base, threshold, files, best);
        assert(r == closest_from(base, threshold, rest, next));
        if r is None {
            assert forall|k: int| 0 <= k < files.len() implies readme_distance(
                base,
                #[trigger] files[k],
            ) > threshold by {
                if k > 0 {
                    assert(files[k] == rest[k - 1]);
                }
            }
        } else {
            if best is None {
                if forall|k: int| 0 <= k < files.len() ==> readme_distance(base, #[trigger] files[k])
                    > threshold {
                    assert(readme_distance(base, files[0]) > threshold);
                    assert forall|k: int| 0 <= k < rest.len() implies readme_distance(
                        base,
                        #[trigger] rest[k],
                    ) > threshold by {
                        assert(rest[k] == files[k + 1]);
                    }
                }
            }
            let (f, s) = r->0;
            if exists|k: int| 0 <= k < rest.len() && #[trigger] rest[k] == f {
                let k = choose|k: int| 0 <= k < rest.len() && #[trigger] rest[k] == f;
                assert(files[k + 1] == f);
            }
            if Some((f, s)) != next {
                let k = choose|k: int|
                    0 <= k < rest.len() && #[trigger] rest[k] == f && (next matches Some((_, bs))
                        ==> s < bs) && forall|j: int|
                        0 <= j < k && readme_distance(base, #[trigger] rest[j]) <= threshold
                            ==> readme_distance(base, rest[j]) > s;
                assert(files[k + 1] == f);
                assert forall|j: int|
                    0 <= j < k + 1 && readme_distance(base, #[trigger] files[j]) <= threshold
                        implies readme_distance(base, files[j]) > s by {
                    if j > 0 {
                        assert(files[j] == rest[j - 1]);
                    }
                }
            } else if next != best {
                assert(files[0] == f);
            }
            assert forall|k: int|
                0 <= k < files.len() && readme_distance(base, #[trigger] files[k]) <= threshold
                    implies s <= readme_distance(base, files[k]) by {
                if k > 0 {
                    assert(files[k] == rest[k - 1]);
                }
            }
        }
    }
}

/// The readme chosen for a map name is the closest one: it is one of the text files, it
/// is within the threshold, no text file within the threshold is strictly closer, and no
/// file before it is as close; none is chosen exactly when no text file is within the
/// threshold.
pub proof fn law_closest_readme_is_closest(base: Seq<char>, files: Seq<Seq<char>>)
    ensures
        closest_from(base, similarity_threshold_spec(base), files, None) is None <==> forall|k: int|
            0 <= k < files.len() ==> readme_distance(base, #[trigger] files[k])
                > similarity_threshold_spec(base),
        closest_from(base, similarity_threshold_spec(base), files, None) matches Some((f, s)) ==> {
            &&& exists|k: int| 0 <= k < files.len() && #[trigger] files[k] == f
            &&& readme_distance(base, f) <= similarity_threshold_spec(base)
            &&& forall|k: int|
                0 <= k < files.len() && readme_distance(base, #[trigger] files[k])
                    <= similarity_threshold_spec(base) ==> readme_distance(base, f)
                    <= readme_distance(base, files[k])
            &&& exists|k: int|
                0 <= k < files.len() && #[trigger] files[k] == f && forall|j: int|
                    0 <= j < k && readme_distance(base, #[trigger] files[j])
                        <= similarity_threshold_spec(base) ==> readme_distance(base, files[j])
                        > readme_distance(base, f)
        },
{
    lemma_closest_from(base, similarity_threshold_spec(base), files, None);
}

// ---------------------------------------------------------------------------
// Reading details
// ---------------------------------------------------------------------------

/// Some line gives a value for `key`.
pub open spec fn some_line_gives(lines: Seq<Seq<char>>, key: Seq<char>) -> bool {
    exists|j: int| 0 <= j < lines.len() && (#[trigger] readme_value(lines[j], key)) is Some
}

/// A line gives `v` for `key`.
pub open spec fn a_line_gives(lines: Seq<Seq<char>>, key: Seq<char>, v: Seq<char>) -> bool {
    exists|j: int| 0 <= j < lines.len() && #[trigger] readme_value(lines[j], key) == Some(v)
}

proof fn lemma_details_from(
    lines: Seq<Seq<char>>,
    title: Seq<char>,
    author: Seq<char>,
    title_found: bool,
    author_found: bool,
)
    ensures
        ({
            let r = details_from(lines, title, author, title_found, author_found);
            &&& r.0 == title || a_line_gives(lines, "title"@, r.0)
            &&& r.1 == author || a_line_gives(lines, "author"@, r.1)
            &&& !title_found && some_line_gives(lines, "title"@) ==> a_line_gives(
                lines,
                "title"@,
                r.0,
            )
            &&& !author_found && some_line_gives(lines, "author"@) ==> a_line_gives(
                lines,
                "author"@,
                r.1,
            )
        }),
    decreases lines.len(),
{
    if lines.len() > 0 && !(title_found && author_found) {
        let rest = lines.drop_first();
        let t = readme_value(lines[0], "title"@);
        let a = readme_value(lines[0], "author"@);
        let nt = match t {
            Some(v) => v,
            None => title,
        };
        let na = match a {
            Some(v) => v,
            None => author,
        };
        lemma_details_from(rest, nt, na, title_found || t is Some, author_found || a is Some);
        let r = details_from(lines, title, author, title_found, author_found);
        assert(r == details_from(rest, nt, na, title_found || t is Some, author_found || a is Some));
        assert forall|key: Seq<char>, v: Seq<char>| #[trigger] a_line_gives(rest, key, v)
            implies a_line_gives(lines, key, v) by {
            let j = choose|j: int| 0 <= j < rest.len() && #[trigger] readme_value(rest[j], key)
                == Some(v);
            assert(lines[j + 1] == rest[j]);
        }
        assert forall|key: Seq<char>| #[trigger] some_line_gives(lines, key) && readme_value(
            lines[0],
            key,
        ) is None implies some_line_gives(rest, key) by {
            let j = choose|j: int| 0 <= j < lines.len() && (#[trigger] readme_value(lines[j], key))
                is Some;
            assert(rest[j - 1] == lines[j]);
        }
        if let Some(v) = t {
            assert(readme_value(lines[0], "title"@) == Some(v));
            assert(a_line_gives(lines, "title"@, v));
        }
        if let Some(v) = a {
            assert(readme_value(lines[0], "author"@) == Some(v));
            assert(a_line_gives(lines, "author"@, v));
        }
    }
}

/// The title read from a readme is a value some line gives for "title" whenever a line
/// gives one, and the map's file name only when none does; likewise the author is a
/// value some line gives for "author", or `DEFAULT_UNKNOWN` when none does. Reading does
/// not stop before both were found.
pub proof fn law_readme_details_come_from_lines(lines: Seq<Seq<char>>, file_name: Seq<char>)
    ensures
        ({
            let r = details_from(lines, file_name, DEFAULT_UNKNOWN@, false, false);
            &&& some_line_gives(lines, "title"@) ==> a_line_gives(lines, "title"@, r.0)
            &&& !some_line_gives(lines, "title"@) ==> r.0 == file_name
            &&& some_line_gives(lines, "author"@) ==> a_line_gives(lines, "author"@, r.1)
            &&& !some_line_gives(lines, "author"@) ==> r.1 == DEFAULT_UNKNOWN@
        }),
{
    lemma_details_from(lines, file_name, DEFAULT_UNKNOWN@, false, false);
    let r = details_from(lines, file_name, DEFAULT_UNKNOWN@, false, false);
    if !some_line_gives(lines, "title"@) && a_line_gives(lines, "title"@, r.0) {
        let j = choose|j: int| 0 <= j < lines.len() && #[trigger] readme_value(lines[j], "title"@)
            == Some(r.0);
        assert(readme_value(lines[j], "title"@) is Some);
    }
    if !some_line_gives(lines, "author"@) && a_line_gives(lines, "author"@, r.1) {
        let j = choose|j: int| 0 <= j < lines.len() && #[trigger] readme_value(lines[j], "author"@)
            == Some(r.1);
        assert(readme_value(lines[j], "author"@) is Some);
    }
}

} // verus!
