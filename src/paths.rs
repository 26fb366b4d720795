use vstd::prelude::*;
use crate::text::chars_of;
use crate::types::CodingError;

verus! {

/// Position of the last `c` in `s`, or -1 when `s` holds none.
pub open spec fn last_index_of(s: Seq<char>, c: char) -> int
    decreases s.len(),
{
    if s.len() == 0 {
        -1
    } else if s.last() == c {
        s.len() - 1
    } else {
        last_index_of(s.drop_last(), c)
    }
}

/// A path component that names something: not empty and not `.`.
pub open spec fn is_named(c: Seq<char>) -> bool {
    c.len() > 0 && !(c.len() == 1 && c[0] == '.')
}

/// The component `..`.
pub open spec fn is_parent_dir(c: Seq<char>) -> bool {
    c.len() == 2 && c[0] == '.' && c[1] == '.'
}

pub open spec fn kept(c: Seq<char>) -> Seq<Seq<char>> {
    if is_named(c) {
        seq![c]
    } else {
        Seq::empty()
    }
}

/// The components of `s` followed by what is left of the component `cur` that `s` ends in.
pub open spec fn components_from(s: Seq<char>, cur: Seq<char>) -> Seq<Seq<char>>
    decreases s.len(),
{
    if s.len() == 0 {
        kept(cur)
    } else if s.last() == '/' {
        components_from(s.drop_last(), Seq::empty()) + kept(cur)
    } else {
        components_from(s.drop_last(), seq![s.last()] + cur)
    }
}

/// The components of a path as `std::path::Path` reads it on Unix: split at `/`, with the
/// empty parts that repeated, leading and trailing separators leave, and `.`, left out.
pub open spec fn components(path: Seq<char>) -> Seq<Seq<char>> {
    components_from(path, Seq::empty())
}

/// The final component of `path`, as `Path::file_name` gives it: none when there is no
/// component or it is `..`.
pub open spec fn file_name_of(path: Seq<char>) -> Option<Seq<char>> {
    let c = components(path);
    if c.len() >= 1 && !is_parent_dir(c.last()) {
        Some(c.last())
    } else {
        None
    }
}

/// The name of the directory that holds `path`, as `Path::parent` then `Path::file_name` give
/// it: the component before the final one, none when there is none or it is `..`.
pub open spec fn parent_folder_name(path: Seq<char>) -> Option<Seq<char>> {
    let c = components(path);
    if c.len() >= 2 && !is_parent_dir(c[c.len() - 2]) {
        Some(c[c.len() - 2])
    } else {
        None
    }
}

/// A file name without its extension, as `Path::file_stem` cuts it: everything before the
/// final `.`, unless that `.` starts the name.
pub open spec fn stem_of(name: Seq<char>) -> Seq<char> {
    let dot = last_index_of(name, '.');
    if dot <= 0 {
        name
    } else {
        name.subrange(0, dot)
    }
}

/// The stem of the final component of `path`.
pub open spec fn file_stem(path: Seq<char>) -> Option<Seq<char>> {
    match file_name_of(path) {
        Some(n) => Some(stem_of(n)),
        None => None,
    }
}

pub open spec fn string_option_view(o: Option<String>) -> Option<Seq<char>> {
    match o {
        Some(s) => Some(s@),
        None => None,
    }
}

pub open spec fn string_views(v: Seq<String>) -> Seq<Seq<char>> {
    v.map_values(|s: String| s@)
}

proof fn lemma_last_index_bounds(s: Seq<char>, c: char)
    ensures
        -1 <= last_index_of(s, c) < s.len(),
        last_index_of(s, c) >= 0 ==> s[last_index_of(s, c)] == c,
    decreases s.len(),
{
    if s.len() > 0 && s.last() != c {
        lemma_last_index_bounds(s.drop_last(), c);
    }
}

/// The position of the last `c` in `cs`.
fn last_index(cs: &Vec<char>, c: char) -> (r: Option<usize>)
    ensures
        match r {
            Some(i) => i == last_index_of(cs@, c),
            None => last_index_of(cs@, c) == -1,
        },
{
    let n = cs.len();
    let mut i: usize = n;
    assert(cs@.subrange(0, n as int) =~= cs@);
    while i > 0
        invariant
            i <= n == cs@.len(),
            last_index_of(cs@, c) == last_index_of(cs@.subrange(0, i as int), c),
        decreases i,
    {
        if cs[i - 1] == c {
            return Some(i - 1);
        }
        assert(cs@.subrange(0, i as int).drop_last() =~= cs@.subrange(0, i - 1));
        i = i - 1;
    }
    None
}

fn named_at(cs: &Vec<char>, from: usize, to: usize) -> (r: bool)
    requires
        from <= to <= cs@.len(),
    ensures
        r == is_named(cs@.subrange(from as int, to as int)),
{
    to > from && !(to - from == 1 && cs[from] == '.')
}

fn is_dot_dot(s: &String) -> (r: bool)
    ensures
        r == is_parent_dir(s@),
{
    let cs = chars_of(s.as_str());
    cs.len() == 2 && cs[0] == '.' && cs[1] == '.'
}

/// The components of `path`, in order.
pub fn path_components(path: &str) -> (r: Vec<String>)
    ensures
        string_views(r@) == components(path@),
{
    let cs = chars_of(path);
    let n = cs.len();
    let mut out: Vec<String> = Vec::new();
    let mut i: usize = n;
    let mut end: usize = n;
    assert(cs@.subrange(n as int, n as int) =~= Seq::<char>::empty());
    assert(cs@.subrange(0, n as int) =~= cs@);
    assert(components_from(cs@, Seq::empty()) =~= components_from(cs@, Seq::empty())
        + string_views(out@));
    while i > 0
        invariant
            i <= end <= n == cs@.len(),
            cs@ == path@,
            components(path@) == components_from(
                cs@.subrange(0, i as int),
                cs@.subrange(i as int, end as int),
            ) + string_views(out@),
        decreases i,
    {
        let ghost head = cs@.subrange(0, i as int);
        let ghost cur = cs@.subrange(i as int, end as int);
        assert(head.drop_last() =~= cs@.subrange(0, i - 1));
        assert(head.last() == cs@[i - 1]);
        if cs[i - 1] == '/' {
            let ghost before = string_views(out@);
            if named_at(&cs, i, end) {
                let seg = path.substring_char(i, end).to_owned();
                out.insert(0, seg);
                assert(string_views(out@) =~= kept(cur) + before);
            } else {
                assert(string_views(out@) =~= kept(cur) + before);
            }
            end = i - 1;
            assert(cs@.subrange(i - 1, end as int) =~= Seq::<char>::empty());
        } else {
            assert(seq![cs@[i - 1]] + cur =~= cs@.subrange(i - 1, end as int));
        }
        i = i - 1;
    }
    let ghost before = string_views(out@);
    let ghost cur = cs@.subrange(0, end as int);
    assert(cs@.subrange(0, 0) =~= Seq::<char>::empty());
    if named_at(&cs, 0, end) {
        let seg = path.substring_char(0, end).to_owned();
        out.insert(0, seg);
    }
    assert(string_views(out@) =~= kept(cur) + before);
    out
}

/// The name of the folder that holds `filename`; none when the path has no such folder.
pub fn get_parent_folder_name(filename: &str) -> (r: Option<String>)
    ensures
        string_option_view(r) == parent_folder_name(filename@),
{
    let comps = path_components(filename);
    let k = comps.len();
    if k >= 2 && !is_dot_dot(&comps[k - 2]) {
        Some(comps[k - 2].clone())
    } else {
        None
    }
}

/// The file stem of `filename`; none when it has none.
pub fn get_java_file_stem(filename: &str) -> (r: Option<String>)
    ensures
        string_option_view(r) == file_stem(filename@),
{
    let comps = path_components(filename);
    let k = comps.len();
    if k == 0 || is_dot_dot(&comps[k - 1]) {
        return None;
    }
    let name = comps[k - 1].clone();
    let cs = chars_of(name.as_str());
    proof {
        lemma_last_index_bounds(name@, '.');
    }
    match last_index(&cs, '.') {
        Some(dot) if dot > 0 => Some(name.as_str().substring_char(0, dot).to_owned()),
        _ => Some(name),
    }
}

/// The file name without its extension, for naming the build artifact.
pub fn get_file_name_without_ext(file_name: &str) -> (r: Result<String, CodingError>)
    ensures
        match r {
            Ok(s) => file_stem(file_name@) == Some(s@),
            Err(e) => file_stem(file_name@) is None && e == CodingError::FileNameError,
        },
{
    match get_java_file_stem(file_name) {
        Some(stem) => Ok(stem),
        None => Err(CodingError::FileNameError),
    }
}

/// The name of a submission's workspace directory: the language, a dash, and a fresh suffix.
pub open spec fn workspace_name(language: Seq<char>, suffix: Seq<char>) -> Seq<char> {
    language + "-"@ + suffix
}

/// `path` joined under `folder`.
pub open spec fn joined(folder: Seq<char>, name: Seq<char>) -> Seq<char> {
    folder + "/"@ + name
}

pub fn workspace_folder(language: &str, suffix: &str) -> (r: String)
    ensures
        r@ == workspace_name(language@, suffix@),
{
    language.to_owned().concat("-").concat(suffix)
}

pub fn join(folder: &str, name: &str) -> (r: String)
    ensures
        r@ == joined(folder@, name@),
{
    folder.to_owned().concat("/").concat(name)
}

pub open spec fn is_lower_hex_or_dash(c: char) -> bool {
    ('0' <= c && c <= '9') || ('a' <= c && c <= 'f') || c == '-'
}

/// The text of a UUID in hyphenated lower-case form.
pub open spec fn is_uuid_text(s: Seq<char>) -> bool {
    s.len() == 36 && forall|i: int| 0 <= i < s.len() ==> is_lower_hex_or_dash(#[trigger] s[i])
}

/// Relies on `uuid::Uuid::new_v4` for a random version-4 UUID, written by its `Display` impl
/// in the 36-character hyphenated lower-case form.
#[verifier::external_body]
pub(crate) fn random_suffix() -> (r: String)
    ensures
        is_uuid_text(r@),
{
    uuid::Uuid::new_v4().to_string()
}

/// Workspaces for one language get distinct paths whenever their suffixes differ, so two
/// submissions collide only if the random generator repeats itself.
pub proof fn lemma_workspace_names_distinct(language: Seq<char>, s1: Seq<char>, s2: Seq<char>)
    requires
        s1 != s2,
    ensures
        workspace_name(language, s1) != workspace_name(language, s2),
{
    let p = language + "-"@;
    assert(workspace_name(language, s1) == p + s1);
    assert(workspace_name(language, s2) == p + s2);
    if p + s1 == p + s2 {
        assert((p + s1).subrange(p.len() as int, (p + s1).len() as int) =~= s1);
        assert((p + s2).subrange(p.len() as int, (p + s2).len() as int) =~= s2);
    }
}

} // verus!
