//! Naming of meeting recording folders.
//!
//! Layout: `<base>/<prefix><MeetingName>_<YYYY-MM-DD_HH-MM>/`
//!
//! The prefix comes from the recording preferences and is applied verbatim, so
//! the user owns the separator (`Work_`, `[Client] `, `2026-q3-`).

use vstd::prelude::*;
use std::path::PathBuf;
use crate::clock;
use crate::clock::current_timestamp;
use crate::text;
use crate::text::{
    chars_of, is_control_char, keep_non_blank, skip_leading_ws, skip_trailing_spaces_dots, string_from_range,
    string_push,
};

verus! {

/// Upper bound on the attempts (the bare name, then `_2`, `_3`, …) made when a
/// folder name is taken.
pub const MAX_UNIQUE_ATTEMPTS: u32 = 1000;

/// Name used when sanitizing leaves nothing usable (e.g. the user typed "...").
pub const FALLBACK_NAME: &'static str = "Untitled Meeting";

/// Characters that may not appear in a path component on some platform.
pub open spec fn is_reserved_char(c: char) -> bool {
    c == '/' || c == '\\' || c == ':' || c == '*' || c == '?' || c == '"' || c == '<' || c == '>'
        || c == '|'
}

/// A character that is replaced by `_` in a folder name.
pub open spec fn is_unsafe_char(c: char) -> bool {
    is_reserved_char(c) || text::is_control_code(c)
}

/// The character that stands for `c` in a folder name.
pub open spec fn safe_char(c: char) -> char {
    if is_unsafe_char(c) {
        '_'
    } else {
        c
    }
}

/// `s` with every unsafe character replaced by `_`.
pub open spec fn replace_unsafe(s: Seq<char>) -> Seq<char> {
    s.map_values(|c: char| safe_char(c))
}

/// The replaced name without its leading white space, and without the white
/// space and dots at its end.
pub open spec fn trimmed_component(s: Seq<char>) -> Seq<char> {
    text::trim_end_spaces_dots(text::trim_start_ws(replace_unsafe(s)))
}

/// Whether a trimmed name cannot serve as a folder name: empty, `.` or `..`.
pub open spec fn is_unusable_component(t: Seq<char>) -> bool {
    t.len() == 0 || t == seq!['.'] || t == seq!['.', '.']
}

/// The single safe path component that `sanitize_component` makes of `s`.
pub open spec fn sanitized(s: Seq<char>) -> Seq<char> {
    let t = trimmed_component(s);
    if is_unusable_component(t) {
        FALLBACK_NAME@
    } else {
        t
    }
}

fn is_unsafe(c: char) -> (b: bool)
    ensures
        b == is_unsafe_char(c),
{
    c == '/' || c == '\\' || c == ':' || c == '*' || c == '?' || c == '"' || c == '<' || c == '>'
        || c == '|' || is_control_char(c)
}

/// The characters of `name` with every unsafe one replaced by `_`.
fn replaced_chars(name: &str) -> (replaced: Vec<char>)
    ensures
        replaced@ == replace_unsafe(name@),
{
    let chars = chars_of(name);
    let mut replaced: Vec<char> = Vec::new();
    let mut i: usize = 0;
    while i < chars.len()
        invariant
            i <= chars.len(),
            chars@ == name@,
            replaced@ == replace_unsafe(chars@.take(i as int)),
        decreases chars.len() - i,
    {
        let c = chars[i];
        let d = if is_unsafe(c) {
            '_'
        } else {
            c
        };
        replaced.push(d);
        assert(replace_unsafe(chars@.take(i + 1)) =~= replace_unsafe(chars@.take(i as int)).push(
            d,
        ));
        i = i + 1;
    }
    assert(chars@.take(chars.len() as int) =~= chars@);
    replaced
}

/// Sanitize a string into a single safe path component.
///
/// Stricter than a plain character filter: it also rejects `.`/`..` and strips
/// trailing dots and spaces (illegal on Windows), so the result can never escape
/// its parent directory or produce an unopenable folder.
pub fn sanitize_component(name: &str) -> (res: String)
    ensures
        res@ == sanitized(name@),
{
    let replaced = replaced_chars(name);
    let n = replaced.len();
    assert(replaced@.subrange(0, n as int) =~= replaced@);
    // Windows silently drops trailing dots/spaces, which would make the path we
    // record disagree with the folder actually on disk.
    let a = skip_leading_ws(&replaced, 0, n);
    let b = skip_trailing_spaces_dots(&replaced, a, n);
    let ghost t = replaced@.subrange(a as int, b as int);
    assert(t == trimmed_component(name@));
    let len = b - a;
    let unusable = len == 0 || (len == 1 && replaced[a] == '.') || (len == 2 && replaced[a] == '.'
        && replaced[a + 1] == '.');
    proof {
        if len == 1 {
            assert(seq!['.'][0] == '.');
            if t[0] == '.' {
                assert(t =~= seq!['.']);
            }
        }
        if len == 2 {
            assert(seq!['.', '.'][0] == '.' && seq!['.', '.'][1] == '.');
            if t[0] == '.' && t[1] == '.' {
                assert(t =~= seq!['.', '.']);
            }
        }
        assert(unusable == is_unusable_component(t));
    }
    if unusable {
        FALLBACK_NAME.to_owned()
    } else {
        string_from_range(&replaced, a, b)
    }
}

/// The trimmed name is the contiguous piece `[r.0, r.1)` of the replaced name;
/// the replaced name without its leading white space is `[r.0, len)`.
proof fn lemma_trimmed_component_shape(s: Seq<char>) -> (r: (int, int))
    ensures
        0 <= r.0 <= r.1 <= replace_unsafe(s).len(),
        text::trim_start_ws(replace_unsafe(s)) == replace_unsafe(s).subrange(
            r.0,
            replace_unsafe(s).len() as int,
        ),
        trimmed_component(s) == replace_unsafe(s).subrange(r.0, r.1),
        trimmed_component(s).len() > 0 ==> !text::is_white_space(trimmed_component(s)[0])
            && !text::is_space_or_dot(trimmed_component(s).last()),
        forall|i: int| 0 <= i < r.0 ==> text::is_white_space(#[trigger] replace_unsafe(s)[i]),
        forall|i: int|
            r.1 <= i < replace_unsafe(s).len() ==> text::is_space_or_dot(
                #[trigger] replace_unsafe(s)[i],
            ),
{
    let rs = replace_unsafe(s);
    let a = text::lemma_trim_start_ws_suffix(rs);
    let u = text::trim_start_ws(rs);
    let k = text::lemma_trim_end_spaces_dots_prefix(u);
    assert(trimmed_component(s) =~= rs.subrange(a, a + k));
    assert forall|i: int| a + k <= i < rs.len() implies text::is_space_or_dot(#[trigger] rs[i]) by {
        assert(rs[i] == u[i - a]);
    }
    if k > 0 {
        assert(trimmed_component(s)[0] == u[0]);
    }
    (a, a + k)
}

/// The fallback name is itself a safe, usable folder name.
proof fn lemma_fallback_name_is_safe()
    ensures
        FALLBACK_NAME@.len() > 0,
        !is_unusable_component(FALLBACK_NAME@),
        forall|i: int| 0 <= i < FALLBACK_NAME@.len() ==> !is_unsafe_char(#[trigger] FALLBACK_NAME@[i]),
        !text::is_white_space(FALLBACK_NAME@[0]),
        !text::is_white_space(FALLBACK_NAME@.last()),
        !text::is_space_or_dot(FALLBACK_NAME@.last()),
{
    reveal_strlit("Untitled Meeting");
    assert(FALLBACK_NAME@ != seq!['.']) by {
        assert(FALLBACK_NAME@.len() != seq!['.'].len());
    }
    assert(FALLBACK_NAME@ != seq!['.', '.']) by {
        assert(FALLBACK_NAME@.len() != seq!['.', '.'].len());
    }
}

/// Sanitizing always yields a single usable path component: it is not empty,
/// not `.` or `..`, holds no separator, reserved or control character, does
/// not start with white space and ends with neither white space nor a dot.
/// Such a name cannot escape its parent directory, and Windows keeps it as it is.
pub proof fn lemma_sanitized_is_single_component(s: Seq<char>)
    ensures
        sanitized(s).len() > 0,
        !is_unusable_component(sanitized(s)),
        forall|i: int| 0 <= i < sanitized(s).len() ==> !is_unsafe_char(#[trigger] sanitized(s)[i]),
        !text::is_white_space(sanitized(s)[0]),
        !text::is_space_or_dot(sanitized(s).last()),
{
    lemma_fallback_name_is_safe();
    let t = trimmed_component(s);
    if !is_unusable_component(t) {
        let rs = replace_unsafe(s);
        let (a, b) = lemma_trimmed_component_shape(s);
        assert forall|i: int| 0 <= i < t.len() implies !is_unsafe_char(#[trigger] t[i]) by {
            assert(t[i] == rs[a + i]);
            assert(rs[a + i] == safe_char(s[a + i]));
        }
    }
}

/// Replacing unsafe characters keeps the length and every character, except
/// that each of `/ \ : * ? " < > |` and each control code (U+0000–U+001F,
/// U+007F–U+009F) becomes `_`.
pub proof fn lemma_replace_unsafe_is_char_by_char(s: Seq<char>)
    ensures
        replace_unsafe(s).len() == s.len(),
        forall|i: int|
            0 <= i < s.len() ==> #[trigger] replace_unsafe(s)[i] == if s[i] == '/' || s[i] == '\\'
                || s[i] == ':' || s[i] == '*' || s[i] == '?' || s[i] == '"' || s[i] == '<' || s[i]
                == '>' || s[i] == '|' || (s[i] as u32) <= 0x1f || (0x7f <= (s[i] as u32)
                && (s[i] as u32) <= 0x9f) {
                '_'
            } else {
                s[i]
            },
{
}

/// `rs[a..b]` is what is left of `rs` once white space is taken from its start
/// and white space and dots from its end, when something is left.
pub open spec fn kept_window(rs: Seq<char>, a: int, b: int) -> bool {
    &&& 0 <= a < b <= rs.len()
    &&& forall|i: int| 0 <= i < a ==> text::is_white_space(#[trigger] rs[i])
    &&& !text::is_white_space(rs[a])
    &&& forall|i: int| b <= i < rs.len() ==> text::is_white_space(#[trigger] rs[i]) || rs[i] == '.'
    &&& !text::is_white_space(rs[b - 1])
    &&& rs[b - 1] != '.'
}

/// Sanitizing strips only white space from the start and only white space and
/// dots from the end of the name (with unsafe characters replaced by `_`), and
/// nothing else: a name holding anything but white space and dots keeps all of
/// it, from its first non-white-space character to its last character that is
/// neither white space nor a dot; a name holding nothing else becomes the
/// fallback name.
pub proof fn lemma_sanitize_strips_only_white_space_and_dots(s: Seq<char>)
    ensures
        (forall|i: int|
            0 <= i < replace_unsafe(s).len() ==> text::is_white_space(
                #[trigger] replace_unsafe(s)[i],
            ) || replace_unsafe(s)[i] == '.') ==> sanitized(s) == FALLBACK_NAME@,
        (exists|i: int|
            0 <= i < replace_unsafe(s).len() && !text::is_white_space(
                #[trigger] replace_unsafe(s)[i],
            ) && replace_unsafe(s)[i] != '.') ==> exists|a: int, b: int|
            #[trigger] kept_window(replace_unsafe(s), a, b) && sanitized(s) == replace_unsafe(
                s,
            ).subrange(a, b),
{
    let rs = replace_unsafe(s);
    let (a, b) = lemma_trimmed_component_shape(s);
    let t = trimmed_component(s);
    if t.len() == 0 {
        assert(is_unusable_component(t));
        assert forall|i: int| 0 <= i < rs.len() implies !(!text::is_white_space(#[trigger] rs[i])
            && rs[i] != '.') by {
            if i >= a {
                assert(text::is_space_or_dot(rs[i]));
            }
        }
    } else {
        assert(t[0] == rs[a]);
        assert(t.last() == rs[b - 1]);
        assert(!is_unusable_component(t)) by {
            if t == seq!['.'] || t == seq!['.', '.'] {
                assert(t.last() == '.');
            }
        }
        assert forall|i: int| b <= i < rs.len() implies text::is_white_space(#[trigger] rs[i])
            || rs[i] == '.' by {
            assert(text::is_space_or_dot(rs[i]));
        }
        assert(kept_window(rs, a, b));
        assert(sanitized(s) == rs.subrange(a, b));
    }
}

/// What a prefix contributes to a folder name: the prefix with unsafe
/// characters replaced and its leading white space trimmed, or nothing when
/// there is no prefix or it holds nothing but white space and dots. Its trailing
/// white space and dots stay: they are not at the end of the folder name.
pub open spec fn prefix_part(prefix: Option<Seq<char>>) -> Seq<char> {
    match prefix {
        Some(p) => if trimmed_component(p).len() == 0 {
            Seq::empty()
        } else {
            text::trim_start_ws(replace_unsafe(p))
        },
        None => Seq::empty(),
    }
}

/// The folder name of a new meeting: `<prefix><name>_<timestamp>`.
pub open spec fn folder_name(
    prefix: Option<Seq<char>>,
    meeting_name: Seq<char>,
    timestamp: Seq<char>,
) -> Seq<char> {
    prefix_part(prefix) + sanitized(meeting_name) + seq!['_'] + timestamp
}

/// Build the folder name for a new meeting: `<prefix><name>_<timestamp>`.
///
/// The prefix is sanitized but otherwise applied verbatim — no separator is
/// inserted, so `Work_` yields `Work_Standup_...`, `[Client] ` yields
/// `[Client] Standup_...` and `Work` yields `WorkStandup_...`. A prefix of only
/// white space or dots adds nothing.
pub fn build_folder_name(prefix: Option<&str>, meeting_name: &str, timestamp: &str) -> (res:
    String)
    ensures
        res@ == folder_name(text::opt_str_view(prefix), meeting_name@, timestamp@),
{
    let mut res = match prefix {
        Some(p) => {
            let replaced = replaced_chars(p);
            let n = replaced.len();
            assert(replaced@.subrange(0, n as int) =~= replaced@);
            let a = skip_leading_ws(&replaced, 0, n);
            let b = skip_trailing_spaces_dots(&replaced, a, n);
            if a == b {
                String::new()
            } else {
                string_from_range(&replaced, a, n)
            }
        },
        None => String::new(),
    };
    let name = sanitize_component(meeting_name);
    res.append(name.as_str());
    string_push(&mut res, '_');
    res.append(timestamp);
    res
}

/// A prefix of nothing but white space and dots (once unsafe characters are
/// replaced) adds nothing: the folder is named as if there were no prefix, and
/// the fallback name is never injected in its place.
pub proof fn lemma_unusable_prefix_adds_nothing(
    prefix: Seq<char>,
    meeting_name: Seq<char>,
    timestamp: Seq<char>,
)
    requires
        trimmed_component(prefix).len() == 0,
    ensures
        folder_name(Some(prefix), meeting_name, timestamp) == folder_name(
            None,
            meeting_name,
            timestamp,
        ),
{
}

/// The folder name is the prefix part, the sanitized meeting name, `_` and the
/// timestamp, in that order, with nothing inserted between prefix and name.
pub proof fn lemma_folder_name_layout(
    prefix: Option<Seq<char>>,
    meeting_name: Seq<char>,
    timestamp: Seq<char>,
)
    ensures
        ({
            let n = folder_name(prefix, meeting_name, timestamp);
            let p = prefix_part(prefix).len() as int;
            let m = sanitized(meeting_name).len() as int;
            &&& n.len() == p + m + 1 + timestamp.len()
            &&& n.subrange(0, p as int) == prefix_part(prefix)
            &&& n.subrange(p as int, p + m) == sanitized(meeting_name)
            &&& n[p + m] == '_'
            &&& n.subrange(p + m + 1, n.len() as int) == timestamp
        }),
{
    let n = folder_name(prefix, meeting_name, timestamp);
    let p = prefix_part(prefix).len() as int;
    let m = sanitized(meeting_name).len() as int;
    assert(n.subrange(0, p as int) =~= prefix_part(prefix));
    assert(n.subrange(p as int, p + m) =~= sanitized(meeting_name));
    assert(n.subrange(p + m + 1, n.len() as int) =~= timestamp);
}

/// `a` is where the white space at the start of `rs` ends, with something
/// other than white space at `a`.
pub open spec fn first_non_white_space(rs: Seq<char>, a: int) -> bool {
    &&& 0 <= a < rs.len()
    &&& forall|i: int| 0 <= i < a ==> text::is_white_space(#[trigger] rs[i])
    &&& !text::is_white_space(rs[a])
}

/// A prefix is applied verbatim: when it holds anything but white space and
/// dots, the folder name starts with the whole prefix — unsafe characters
/// replaced by `_`, leading white space dropped, every other character kept,
/// trailing spaces and dots included — directly followed by the sanitized
/// meeting name; a prefix of only white space and dots adds nothing, and no
/// prefix at all leaves the sanitized name first.
pub proof fn lemma_prefix_is_kept_verbatim(
    prefix: Seq<char>,
    meeting_name: Seq<char>,
    timestamp: Seq<char>,
)
    ensures
        (forall|i: int|
            0 <= i < replace_unsafe(prefix).len() ==> text::is_white_space(
                #[trigger] replace_unsafe(prefix)[i],
            ) || replace_unsafe(prefix)[i] == '.') ==> folder_name(
            Some(prefix),
            meeting_name,
            timestamp,
        ) == sanitized(meeting_name) + seq!['_'] + timestamp,
        (exists|i: int|
            0 <= i < replace_unsafe(prefix).len() && !text::is_white_space(
                #[trigger] replace_unsafe(prefix)[i],
            ) && replace_unsafe(prefix)[i] != '.') ==> exists|a: int|
            #[trigger] first_non_white_space(replace_unsafe(prefix), a) && folder_name(
                Some(prefix),
                meeting_name,
                timestamp,
            ) == replace_unsafe(prefix).subrange(a, replace_unsafe(prefix).len() as int)
                + sanitized(meeting_name) + seq!['_'] + timestamp,
        folder_name(None, meeting_name, timestamp) == sanitized(meeting_name) + seq!['_']
            + timestamp,
{
    let rs = replace_unsafe(prefix);
    let (a, b) = lemma_trimmed_component_shape(prefix);
    let t = trimmed_component(prefix);
    if t.len() == 0 {
        assert forall|i: int| 0 <= i < rs.len() implies !(!text::is_white_space(#[trigger] rs[i])
            && rs[i] != '.') by {
            if i >= a {
                assert(text::is_space_or_dot(rs[i]));
            }
        }
        assert(folder_name(Some(prefix), meeting_name, timestamp) =~= sanitized(meeting_name)
            + seq!['_'] + timestamp);
    } else {
        assert(t[0] == rs[a]);
        assert(text::trim_start_ws(rs) == rs.subrange(a, rs.len() as int));
        assert(first_non_white_space(rs, a));
    }
}

/// A timestamp holds only digits, `-`, `_` and `+`: nothing unsafe in a
/// folder name and no white space.
pub proof fn lemma_timestamp_is_safe(timestamp: Seq<char>)
    requires
        clock::is_minute_timestamp(timestamp),
    ensures
        forall|i: int|
            0 <= i < timestamp.len() ==> !is_unsafe_char(#[trigger] timestamp[i])
                && !text::is_white_space(timestamp[i]),
{
    let y = timestamp.len() - 12;
    let year = timestamp.subrange(0, y);
    assert forall|i: int| 0 <= i < timestamp.len() implies !is_unsafe_char(#[trigger] timestamp[i])
        && !text::is_white_space(timestamp[i]) by {
        if i < y {
            assert(timestamp[i] == year[i]);
            if i > 0 && year.len() >= 5 {
                assert(year[i] == year.drop_first()[i - 1]);
            }
        }
    }
}

/// What a prefix contributes holds no unsafe character and, when there is
/// something, does not start with white space.
pub proof fn lemma_prefix_part_is_safe(prefix: Option<Seq<char>>)
    ensures
        forall|i: int|
            0 <= i < prefix_part(prefix).len() ==> !is_unsafe_char(#[trigger] prefix_part(prefix)[i]),
        prefix_part(prefix).len() > 0 ==> !text::is_white_space(prefix_part(prefix)[0]),
{
    if let Some(p) = prefix {
        let rs = replace_unsafe(p);
        let a = text::lemma_trim_start_ws_suffix(rs);
        let pp = prefix_part(prefix);
        assert forall|i: int| 0 <= i < pp.len() implies !is_unsafe_char(#[trigger] pp[i]) by {
            assert(pp[i] == rs[a + i]);
            assert(rs[a + i] == safe_char(p[a + i]));
        }
    }
}

/// A planned folder name is a single safe path component: with a timestamp as
/// the clock gives it, no character of the name is a separator, reserved or a
/// control code, and the name neither starts nor ends with white space.
pub proof fn lemma_folder_name_is_safe(
    prefix: Option<Seq<char>>,
    meeting_name: Seq<char>,
    timestamp: Seq<char>,
)
    requires
        clock::is_minute_timestamp(timestamp),
    ensures
        forall|i: int|
            0 <= i < folder_name(prefix, meeting_name, timestamp).len() ==> !is_unsafe_char(
                #[trigger] folder_name(prefix, meeting_name, timestamp)[i],
            ),
        !text::is_white_space(folder_name(prefix, meeting_name, timestamp)[0]),
        !text::is_white_space(folder_name(prefix, meeting_name, timestamp).last()),
{
    lemma_timestamp_is_safe(timestamp);
    lemma_sanitized_is_single_component(meeting_name);
    lemma_prefix_part_is_safe(prefix);
    let pp = prefix_part(prefix);
    let sn = sanitized(meeting_name);
    let n = folder_name(prefix, meeting_name, timestamp);
    assert forall|i: int| 0 <= i < n.len() implies !is_unsafe_char(#[trigger] n[i]) by {
        if i < pp.len() {
            assert(n[i] == pp[i]);
        } else if i < pp.len() + sn.len() {
            assert(n[i] == sn[i - pp.len()]);
        } else if i > pp.len() + sn.len() {
            assert(n[i] == timestamp[i - pp.len() - sn.len() - 1]);
        }
    }
    if pp.len() > 0 {
        assert(n[0] == pp[0]);
    } else {
        assert(n[0] == sn[0]);
    }
    assert(n.last() == timestamp.last());
}

#[verifier::external_type_specification]
#[verifier::external_body]
pub struct ExPathBuf(PathBuf);

/// `<PathBuf as Clone>::clone`: a copy of the path, equal to it.
pub assume_specification[ <PathBuf as Clone>::clone ](p: &PathBuf) -> (res: PathBuf)
    ensures
        res == *p,
;

/// The recording preferences that decide where new meeting folders go and how
/// they are named.
pub struct RecordingPreferences {
    /// Base recordings directory.
    pub save_folder: PathBuf,
    /// Optional prefix for the folder name, as the user typed it.
    pub folder_prefix: Option<String>,
}

/// Where new meeting folders go and how they are named, resolved from the
/// user's recording preferences once at the start of a recording or import.
#[derive(Debug, Clone)]
pub struct MeetingFolderConfig {
    /// Base recordings directory.
    pub base_folder: PathBuf,
    /// Optional prefix applied to the folder name.
    pub prefix: Option<String>,
}

/// What creating a meeting folder comes down to: the folder to make under the
/// base directory, the timestamp it was named with, and whether to make its
/// `.checkpoints/` subdirectory too.
#[derive(Debug, Clone)]
pub struct MeetingFolderPlan {
    /// Name of the meeting folder (before any `_2`, `_3`, … on collision).
    pub folder_name: String,
    /// The `YYYY-MM-DD_HH-MM` timestamp at the end of the name.
    pub timestamp: String,
    /// Whether `.checkpoints/` is created inside the folder (auto-save on).
    pub create_checkpoints_dir: bool,
}

/// Whether `plan` is the plan of a folder for `meeting_name` with `prefix`:
/// named `<prefix><MeetingName>_<timestamp>` with a `YYYY-MM-DD_HH-MM`
/// timestamp, and with the given checkpoints choice.
pub open spec fn is_folder_plan(
    plan: MeetingFolderPlan,
    prefix: Option<Seq<char>>,
    meeting_name: Seq<char>,
    create_checkpoints_dir: bool,
) -> bool {
    &&& plan.folder_name@ == folder_name(prefix, meeting_name, plan.timestamp@)
    &&& clock::is_minute_timestamp(plan.timestamp@)
    &&& plan.create_checkpoints_dir == create_checkpoints_dir
}

/// Plan the folder of a new meeting, named `<prefix><MeetingName>_<timestamp>`
/// with the current UTC time as `YYYY-MM-DD_HH-MM`; `create_checkpoints_dir`
/// tells whether a `.checkpoints/` subdirectory goes with it (auto-save on).
/// `None` where the clock cannot be read.
pub fn plan_meeting_folder(meeting_name: &str, prefix: Option<&str>, create_checkpoints_dir: bool) -> (res:
    Option<MeetingFolderPlan>)
    ensures
        res matches Some(plan) ==> is_folder_plan(
            plan,
            text::opt_str_view(prefix),
            meeting_name@,
            create_checkpoints_dir,
        ),
{
    match current_timestamp() {
        Some(timestamp) => {
            let folder_name = build_folder_name(prefix, meeting_name, timestamp.as_str());
            Some(MeetingFolderPlan { folder_name, timestamp, create_checkpoints_dir })
        },
        None => None,
    }
}

impl MeetingFolderConfig {
    /// The configuration of the given preferences: their save folder, and
    /// their folder prefix as typed unless it is only white space.
    pub fn from_preferences(preferences: &RecordingPreferences) -> (res: Self)
        ensures
            res.base_folder == preferences.save_folder,
            text::opt_string_view(res.prefix) == text::non_blank(
                text::opt_string_view(preferences.folder_prefix),
            ),
    {
        let prefix = keep_non_blank(&preferences.folder_prefix);
        MeetingFolderConfig { base_folder: preferences.save_folder.clone(), prefix }
    }

    /// Plan the folder for a meeting under this configuration; the folder goes
    /// under `base_folder`. `None` where the clock cannot be read.
    pub fn create(&self, meeting_name: &str, create_checkpoints_dir: bool) -> (res: Option<
        MeetingFolderPlan,
    >)
        ensures
            res matches Some(plan) ==> is_folder_plan(
                plan,
                text::opt_string_view(self.prefix),
                meeting_name@,
                create_checkpoints_dir,
            ),
    {
        let prefix = match &self.prefix {
            Some(p) => Some(p.as_str()),
            None => None,
        };
        plan_meeting_folder(meeting_name, prefix, create_checkpoints_dir)
    }
}

} // verus!
