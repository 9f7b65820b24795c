//! Prompts and output handling for the live rolling summary shown during an
//! active recording.
//!
//! Incremental by design: each call sees only the transcript excerpt spoken
//! since the last call and the summary built so far, and the model returns
//! bullets for the new excerpt alone, which the caller appends. Both inputs are
//! capped, so the prompt stays a fixed size however long the meeting runs.

use vstd::prelude::*;
use crate::text;
use crate::text::{chars_of, push_range, string_from_range, trim_ws_range};

verus! {

/// Sentinel returned when the configured summary model is not a local model
/// (Ollama or built-in AI). The frontend matches this string to show a hint
/// instead of an error, since the live rolling summary is intentionally local-only.
pub const LIVE_SUMMARY_LOCAL_ONLY: &'static str = "LIVE_SUMMARY_LOCAL_ONLY";

/// Most-recent characters of the new transcript excerpt sent per live-summary
/// call. Bounds the local model's context window and latency. Normally a tick
/// carries ~60s of speech; this is the safety net for a delayed or resumed tick.
pub const LIVE_SUMMARY_MAX_CHARS: usize = 16_000;

/// Trailing characters of the summary-so-far passed back as context. Only the
/// most recent bullets matter for avoiding repetition, and this keeps the prompt
/// from growing with the meeting.
pub const LIVE_SUMMARY_CONTEXT_MAX_CHARS: usize = 4_000;

/// Per-call wall-clock budget — shorter than the summary generator's own 300s,
/// so a slow tick cannot pile up behind the ~60s regeneration cadence.
pub const LIVE_SUMMARY_TIMEOUT_SECS: u64 = 45;

/// Marker the model emits when an excerpt contains nothing worth recording;
/// mapped to an empty result so the caller appends nothing.
pub const LIVE_SUMMARY_NOTHING_NEW: &'static str = "NOTHING_NEW";

/// System prompt for the first live-summary chunk of a recording, when there is
/// no earlier summary to extend.
pub const LIVE_SUMMARY_SYSTEM_PROMPT: &'static str = "You are a real-time meeting assistant. You are given the opening excerpt of a meeting transcript that is still in progress. Summarize it as a short, skimmable Markdown bullet list.\n\nRules:\n- Output ONLY Markdown bullet points (each top-level line starting with \"- \"). No title, no headings, no preamble, and no closing remarks.\n- Capture the key discussion points, decisions made, and action items mentioned.\n- Aim for 2-5 concise bullets. Use indented sub-bullets sparingly to group related detail.\n- The transcript is live and may end mid-sentence. Summarize only what is clearly stated; do not speculate about what will be said next.\n- Write in English regardless of the transcript language.\n- If the excerpt contains nothing worth recording (silence, greetings, small talk), output exactly: NOTHING_NEW";

/// System prompt for every later chunk: the model sees only the new excerpt plus
/// the summary so far, and returns bullets to append rather than a rewrite.
pub const LIVE_SUMMARY_APPEND_SYSTEM_PROMPT: &'static str = "You are a real-time meeting assistant. You are given a NEW excerpt from a meeting transcript that is still in progress, along with the bullet summary already written for everything said before it. Write bullets covering ONLY the new excerpt; they will be appended to the existing summary.\n\nRules:\n- Output ONLY Markdown bullet points (each top-level line starting with \"- \"). No title, no headings, no preamble, and no closing remarks.\n- Summarize ONLY the new excerpt: what was newly discussed, decided, or assigned.\n- Do NOT repeat, restate, revise, or re-summarize anything already covered by the existing summary. The existing summary is context only — never reproduce its bullets.\n- Aim for 1-4 concise bullets.\n- The excerpt is live and may start or end mid-sentence. Summarize only what is clearly stated; do not speculate about what will be said next.\n- Write in English regardless of the transcript language.\n- If the excerpt adds nothing worth recording (silence, small talk, filler, or only points already summarized), output exactly: NOTHING_NEW";

/// User prompt of a first chunk, before the excerpt.
pub const FIRST_CHUNK_INTRO: &'static str = "Summarize this opening excerpt as Markdown bullet points.\n\n<transcript>\n";

/// User prompt of a first chunk, after the excerpt.
pub const FIRST_CHUNK_OUTRO: &'static str = "\n</transcript>";

/// User prompt of a later chunk, before the summary so far.
pub const LATER_CHUNK_INTRO: &'static str = "Here is the summary written so far. Do not repeat any of it.\n\n<existing_summary>\n";

/// User prompt of a later chunk, between the summary so far and the excerpt.
pub const LATER_CHUNK_MIDDLE: &'static str = "\n</existing_summary>\n\nWrite Markdown bullet points covering ONLY this new excerpt of the transcript.\n\n<new_transcript>\n";

/// User prompt of a later chunk, after the excerpt.
pub const LATER_CHUNK_OUTRO: &'static str = "\n</new_transcript>";

/// The last `max_chars` characters of `s`, or all of it when shorter.
pub open spec fn tail(s: Seq<char>, max_chars: nat) -> Seq<char> {
    if s.len() > max_chars {
        s.skip(s.len() - max_chars)
    } else {
        s
    }
}

/// The start of the last `max_chars` characters of `v[lo..hi]`.
fn tail_start(v: &Vec<char>, lo: usize, hi: usize, max_chars: usize) -> (r: usize)
    requires
        lo <= hi <= v.len(),
    ensures
        lo <= r <= hi,
        v@.subrange(r as int, hi as int) == tail(v@.subrange(lo as int, hi as int), max_chars as nat),
{
    if hi - lo > max_chars {
        assert(v@.subrange(lo as int, hi as int).skip((hi - lo) - max_chars) =~= v@.subrange(
            hi - max_chars,
            hi as int,
        ));
        hi - max_chars
    } else {
        lo
    }
}

/// Keep the last `max_chars` characters of `text`, or all of it when shorter.
pub fn tail_chars(text: &str, max_chars: usize) -> (res: String)
    ensures
        res@ == tail(text@, max_chars as nat),
{
    let v = chars_of(text);
    assert(v@.subrange(0, v@.len() as int) =~= v@);
    let start = tail_start(&v, 0, v.len(), max_chars);
    string_from_range(&v, start, v.len())
}

/// Capping keeps `min(len, max_chars)` characters, and they are the last ones.
pub proof fn lemma_tail_is_capped_suffix(s: Seq<char>, max_chars: nat)
    ensures
        tail(s, max_chars).len() == if s.len() > max_chars {
            max_chars as int
        } else {
            s.len() as int
        },
        tail(s, max_chars) == s.subrange(s.len() - tail(s, max_chars).len(), s.len() as int),
{
    if s.len() <= max_chars {
        assert(s.subrange(0, s.len() as int) =~= s);
    }
}

/// The transcript excerpt a prompt carries: the trimmed transcript, capped to
/// its most recent characters.
pub open spec fn live_excerpt(transcript: Seq<char>) -> Seq<char> {
    tail(text::trim_ws(transcript), LIVE_SUMMARY_MAX_CHARS as nat)
}

/// The summary so far, trimmed; empty when there is none.
pub open spec fn previous_text(previous_summary: Option<Seq<char>>) -> Seq<char> {
    match previous_summary {
        Some(p) => text::trim_ws(p),
        None => Seq::empty(),
    }
}

/// The user prompt of a meeting's first chunk.
pub open spec fn first_chunk_prompt(excerpt: Seq<char>) -> Seq<char> {
    FIRST_CHUNK_INTRO@ + excerpt + FIRST_CHUNK_OUTRO@
}

/// The user prompt of a later chunk, with the summary so far as context.
pub open spec fn later_chunk_prompt(context: Seq<char>, excerpt: Seq<char>) -> Seq<char> {
    LATER_CHUNK_INTRO@ + context + LATER_CHUNK_MIDDLE@ + excerpt + LATER_CHUNK_OUTRO@
}

/// The (system, user) prompt pair for one live-summary tick.
pub open spec fn live_summary_prompt(transcript: Seq<char>, previous_summary: Option<Seq<char>>) -> (
    Seq<char>,
    Seq<char>,
) {
    let previous = previous_text(previous_summary);
    if previous.len() == 0 {
        (LIVE_SUMMARY_SYSTEM_PROMPT@, first_chunk_prompt(live_excerpt(transcript)))
    } else {
        (
            LIVE_SUMMARY_APPEND_SYSTEM_PROMPT@,
            later_chunk_prompt(
                tail(previous, LIVE_SUMMARY_CONTEXT_MAX_CHARS as nat),
                live_excerpt(transcript),
            ),
        )
    }
}

/// Builds the (system, user) prompt pair for one live-summary tick.
///
/// Without a summary so far this is the meeting's opening excerpt, so the model
/// simply summarizes it. With one, the model is shown the existing bullets as
/// context and asked for bullets covering only the new excerpt — both inputs are
/// capped so the prompt stays a fixed size however long the meeting runs.
pub fn build_live_summary_prompt(transcript: &str, previous_summary: Option<&str>) -> (res: (
    &'static str,
    String,
))
    ensures
        (res.0@, res.1@) == live_summary_prompt(transcript@, text::opt_str_view(previous_summary)),
{
    let tv = chars_of(transcript);
    assert(tv@.subrange(0, tv@.len() as int) =~= tv@);
    let (ta, tb) = trim_ws_range(&tv, 0, tv.len());
    let ts = tail_start(&tv, ta, tb, LIVE_SUMMARY_MAX_CHARS);
    let pv = match previous_summary {
        Some(p) => chars_of(p),
        None => Vec::new(),
    };
    assert(pv@.subrange(0, pv@.len() as int) =~= pv@);
    let (pa, pb) = trim_ws_range(&pv, 0, pv.len());
    proof {
        if previous_summary is None {
            assert(pv@.subrange(pa as int, pb as int) =~= Seq::<char>::empty());
        }
    }
    if pa == pb {
        let mut user = FIRST_CHUNK_INTRO.to_owned();
        push_range(&mut user, &tv, ts, tb);
        user.append(FIRST_CHUNK_OUTRO);
        (LIVE_SUMMARY_SYSTEM_PROMPT, user)
    } else {
        let ps = tail_start(&pv, pa, pb, LIVE_SUMMARY_CONTEXT_MAX_CHARS);
        let mut user = LATER_CHUNK_INTRO.to_owned();
        push_range(&mut user, &pv, ps, pb);
        user.append(LATER_CHUNK_MIDDLE);
        push_range(&mut user, &tv, ts, tb);
        user.append(LATER_CHUNK_OUTRO);
        (LIVE_SUMMARY_APPEND_SYSTEM_PROMPT, user)
    }
}

/// The prompt stays a fixed size however long the meeting runs: the user prompt
/// never exceeds its template plus both caps, and neither capped piece is longer
/// than its cap.
pub proof fn lemma_prompt_size_bounded(transcript: Seq<char>, previous_summary: Option<Seq<char>>)
    ensures
        live_excerpt(transcript).len() <= LIVE_SUMMARY_MAX_CHARS,
        tail(previous_text(previous_summary), LIVE_SUMMARY_CONTEXT_MAX_CHARS as nat).len()
            <= LIVE_SUMMARY_CONTEXT_MAX_CHARS,
        live_summary_prompt(transcript, previous_summary).1.len() <= LATER_CHUNK_INTRO@.len()
            + LATER_CHUNK_MIDDLE@.len() + LATER_CHUNK_OUTRO@.len() + FIRST_CHUNK_INTRO@.len()
            + FIRST_CHUNK_OUTRO@.len() + LIVE_SUMMARY_MAX_CHARS + LIVE_SUMMARY_CONTEXT_MAX_CHARS,
{
}

/// The most recent speech survives capping: the excerpt a prompt carries is a
/// suffix of the trimmed transcript, and all of it when it fits the cap.
pub proof fn lemma_excerpt_keeps_most_recent(transcript: Seq<char>)
    ensures
        live_excerpt(transcript) == text::trim_ws(transcript).skip(
            text::trim_ws(transcript).len() - live_excerpt(transcript).len(),
        ),
        text::trim_ws(transcript).len() <= LIVE_SUMMARY_MAX_CHARS ==> live_excerpt(transcript)
            == text::trim_ws(transcript),
{
    let t = text::trim_ws(transcript);
    if t.len() <= LIVE_SUMMARY_MAX_CHARS {
        assert(t.skip(0) =~= t);
    }
}

/// With no summary so far — none, empty or only white space — a tick is a first
/// chunk: the plain system prompt, and no earlier summary in the user prompt.
pub proof fn lemma_blank_previous_is_first_chunk(
    transcript: Seq<char>,
    previous_summary: Option<Seq<char>>,
)
    requires
        previous_summary matches Some(p) ==> text::trim_ws(p).len() == 0,
    ensures
        live_summary_prompt(transcript, previous_summary) == (
            LIVE_SUMMARY_SYSTEM_PROMPT@,
            first_chunk_prompt(live_excerpt(transcript)),
        ),
{
}

/// Whether a non-ASCII character is alphanumeric (Unicode `Alphabetic` or
/// `Numeric`), as `char::is_alphanumeric` decides it.
pub uninterp spec fn char_is_alphanumeric(c: char) -> bool;

/// An ASCII letter or digit.
pub open spec fn is_ascii_alphanumeric(c: char) -> bool {
    let u = c as u32;
    (0x30 <= u <= 0x39) || (0x41 <= u <= 0x5a) || (0x61 <= u <= 0x7a)
}

/// Whether `c` is alphanumeric: among ASCII characters exactly the letters
/// and digits, beyond them as `char_is_alphanumeric` names it.
pub open spec fn is_alphanumeric_char(c: char) -> bool {
    if (c as u32) < 0x80 {
        is_ascii_alphanumeric(c)
    } else {
        char_is_alphanumeric(c)
    }
}

/// `char::is_alphanumeric`: whether the character satisfies either
/// `is_alphabetic()` or `is_numeric()`. Among ASCII characters these are
/// exactly the letters and digits; the Unicode tables behind the rest are not
/// restated here, and the result for them is named by `char_is_alphanumeric`.
#[verifier::external_body]
fn is_alphanumeric(c: char) -> (b: bool)
    ensures
        (c as u32) < 0x80 ==> b == is_ascii_alphanumeric(c),
        (c as u32) >= 0x80 ==> b == char_is_alphanumeric(c),
{
    c.is_alphanumeric()
}

/// The alphanumeric characters of `s`, in order.
pub open spec fn alphanumeric_chars(s: Seq<char>) -> Seq<char>
    decreases s.len(),
{
    if s.len() == 0 {
        Seq::empty()
    } else if is_alphanumeric_char(s.last()) {
        alphanumeric_chars(s.drop_last()).push(s.last())
    } else {
        alphanumeric_chars(s.drop_last())
    }
}

/// The code of `c` with ASCII upper case letters mapped to lower case.
pub open spec fn ascii_lower_code(c: char) -> u32 {
    let u = c as u32;
    if 0x41 <= u <= 0x5a {
        (u + 0x20) as u32
    } else {
        u
    }
}

/// Whether `a` and `b` are equal up to ASCII case (`str::eq_ignore_ascii_case`).
pub open spec fn eq_ignore_ascii_case(a: Seq<char>, b: Seq<char>) -> bool {
    a.len() == b.len() && forall|i: int|
        0 <= i < a.len() ==> ascii_lower_code(#[trigger] a[i]) == ascii_lower_code(b[i])
}

fn lower_code(c: char) -> (u: u32)
    ensures
        u == ascii_lower_code(c),
{
    let u = c as u32;
    if 0x41 <= u && u <= 0x5a {
        u + 0x20
    } else {
        u
    }
}

fn chars_eq_ignore_ascii_case(a: &Vec<char>, b: &Vec<char>) -> (r: bool)
    ensures
        r == eq_ignore_ascii_case(a@, b@),
{
    if a.len() != b.len() {
        return false;
    }
    let mut i: usize = 0;
    while i < a.len()
        invariant
            i <= a.len() == b.len(),
            forall|j: int| 0 <= j < i ==> ascii_lower_code(#[trigger] a@[j]) == ascii_lower_code(b@[j]),
        decreases a.len() - i,
    {
        if lower_code(a[i]) != lower_code(b[i]) {
            return false;
        }
        i = i + 1;
    }
    true
}

/// The alphanumeric content of the marker `NOTHING_NEW`: its letters without
/// the underscore.
pub const NOTHING_NEW_LETTERS: &'static str = "NOTHINGNEW";

/// Whether the alphanumeric content of a reply, in order, is the marker's,
/// up to ASCII case.
pub fn marker_matches(alphanumerics: &Vec<char>) -> (b: bool)
    ensures
        b == eq_ignore_ascii_case(alphanumerics@, NOTHING_NEW_LETTERS@),
{
    let letters = chars_of(NOTHING_NEW_LETTERS);
    chars_eq_ignore_ascii_case(alphanumerics, &letters)
}

/// What the model's output comes to: empty when its only alphanumeric content
/// is the marker (in any case), else the output trimmed.
pub open spec fn strip_marker(markdown: Seq<char>) -> Seq<char> {
    let trimmed = text::trim_ws(markdown);
    if eq_ignore_ascii_case(alphanumeric_chars(trimmed), NOTHING_NEW_LETTERS@) {
        Seq::empty()
    } else {
        trimmed
    }
}

/// Maps the model's "nothing to add" marker to an empty result.
///
/// Models emit the marker in varying shapes — bare, bulleted, or fenced in
/// punctuation — so anything whose only alphanumeric content is the marker
/// counts. Bullets that merely mention it alongside real content are kept.
pub fn strip_nothing_new(markdown: &str) -> (res: String)
    ensures
        res@ == strip_marker(markdown@),
{
    let v = chars_of(markdown);
    assert(v@.subrange(0, v@.len() as int) =~= v@);
    let (a, b) = trim_ws_range(&v, 0, v.len());
    let mut alphanumerics: Vec<char> = Vec::new();
    let mut i = a;
    while i < b
        invariant
            a <= i <= b <= v.len(),
            alphanumerics@ == alphanumeric_chars(v@.subrange(a as int, i as int)),
        decreases b - i,
    {
        let c = v[i];
        assert(v@.subrange(a as int, i + 1).drop_last() =~= v@.subrange(a as int, i as int));
        if is_alphanumeric(c) {
            alphanumerics.push(c);
        }
        i = i + 1;
    }
    if marker_matches(&alphanumerics) {
        String::new()
    } else {
        string_from_range(&v, a, b)
    }
}

/// The output is either dropped entirely or kept whole: stripping never edits
/// the text beyond trimming it.
pub proof fn lemma_strip_keeps_or_drops(markdown: Seq<char>)
    ensures
        strip_marker(markdown).len() == 0 || strip_marker(markdown) == text::trim_ws(markdown),
{
}

/// Content beside the marker keeps the text: when the trimmed output has more
/// or fewer alphanumeric characters than the marker, it is returned trimmed and
/// otherwise unchanged.
pub proof fn lemma_real_content_is_kept(markdown: Seq<char>)
    requires
        alphanumeric_chars(text::trim_ws(markdown)).len() != NOTHING_NEW_LETTERS@.len(),
    ensures
        strip_marker(markdown) == text::trim_ws(markdown),
{
}

/// Whatever punctuation, white space or underscores fence the marker, the
/// reply is dropped when its alphanumeric content is the marker's letters.
pub proof fn lemma_fenced_marker_is_dropped(markdown: Seq<char>)
    requires
        eq_ignore_ascii_case(alphanumeric_chars(text::trim_ws(markdown)), NOTHING_NEW_LETTERS@),
    ensures
        strip_marker(markdown).len() == 0,
{
}

/// The marker test is exactly an ASCII-case-insensitive match of the reply's
/// alphanumeric content against `NOTHINGNEW`: a reply whose alphanumeric
/// characters, in order, match those letters up to ASCII case is dropped, and
/// every other reply is kept, trimmed, whatever its length.
pub proof fn lemma_marker_match_decides(markdown: Seq<char>)
    ensures
        ({
            let content = alphanumeric_chars(text::trim_ws(markdown));
            let letters = NOTHING_NEW_LETTERS@;
            &&& (content.len() == letters.len() && forall|i: int|
                0 <= i < content.len() ==> ascii_lower_code(#[trigger] content[i])
                    == ascii_lower_code(letters[i])) ==> strip_marker(markdown).len() == 0
            &&& !(content.len() == letters.len() && forall|i: int|
                0 <= i < content.len() ==> ascii_lower_code(#[trigger] content[i])
                    == ascii_lower_code(letters[i])) ==> strip_marker(markdown)
                == text::trim_ws(markdown)
        }),
{
}

/// A later chunk shows the model the summary so far: when it is not blank, the
/// user prompt carries its last `LIVE_SUMMARY_CONTEXT_MAX_CHARS` characters
/// once trimmed (all of it when it is no longer), every bullet among them, and
/// then the excerpt: the last `LIVE_SUMMARY_MAX_CHARS` characters of the
/// trimmed transcript.
pub proof fn lemma_later_chunk_carries_recent_summary(transcript: Seq<char>, previous: Seq<char>)
    requires
        text::trim_ws(previous).len() > 0,
    ensures
        ({
            let p = text::trim_ws(previous);
            let t = text::trim_ws(transcript);
            let context = if p.len() > LIVE_SUMMARY_CONTEXT_MAX_CHARS {
                p.subrange(p.len() - LIVE_SUMMARY_CONTEXT_MAX_CHARS, p.len() as int)
            } else {
                p
            };
            let excerpt = if t.len() > LIVE_SUMMARY_MAX_CHARS {
                t.subrange(t.len() - LIVE_SUMMARY_MAX_CHARS, t.len() as int)
            } else {
                t
            };
            live_summary_prompt(transcript, Some(previous)) == (
                LIVE_SUMMARY_APPEND_SYSTEM_PROMPT@,
                LATER_CHUNK_INTRO@ + context + LATER_CHUNK_MIDDLE@ + excerpt + LATER_CHUNK_OUTRO@,
            )
        }),
{
    let p = text::trim_ws(previous);
    let t = text::trim_ws(transcript);
    assert(p.skip(p.len() - LIVE_SUMMARY_CONTEXT_MAX_CHARS) =~= p.subrange(
        p.len() - LIVE_SUMMARY_CONTEXT_MAX_CHARS,
        p.len() as int,
    ));
    assert(t.skip(t.len() - LIVE_SUMMARY_MAX_CHARS) =~= t.subrange(
        t.len() - LIVE_SUMMARY_MAX_CHARS,
        t.len() as int,
    ));
}

/// A first chunk shows only the excerpt: with no summary so far, or a blank
/// one, the user prompt is the first-chunk template around the last
/// `LIVE_SUMMARY_MAX_CHARS` characters of the trimmed transcript.
pub proof fn lemma_first_chunk_carries_excerpt(
    transcript: Seq<char>,
    previous_summary: Option<Seq<char>>,
)
    requires
        previous_summary matches Some(p) ==> text::trim_ws(p).len() == 0,
    ensures
        ({
            let t = text::trim_ws(transcript);
            let excerpt = if t.len() > LIVE_SUMMARY_MAX_CHARS {
                t.subrange(t.len() - LIVE_SUMMARY_MAX_CHARS, t.len() as int)
            } else {
                t
            };
            live_summary_prompt(transcript, previous_summary) == (
                LIVE_SUMMARY_SYSTEM_PROMPT@,
                FIRST_CHUNK_INTRO@ + excerpt + FIRST_CHUNK_OUTRO@,
            )
        }),
{
    let t = text::trim_ws(transcript);
    assert(t.skip(t.len() - LIVE_SUMMARY_MAX_CHARS) =~= t.subrange(
        t.len() - LIVE_SUMMARY_MAX_CHARS,
        t.len() as int,
    ));
}

/// What looking up the configured summary model gave.
#[derive(Debug)]
pub enum ModelConfigLookup {
    /// A model is configured; `provider_is_local` tells whether its provider
    /// is a local one (Ollama or built-in AI).
    Found { provider_is_local: bool, model: String },
    /// No model is configured yet.
    Missing,
    /// The lookup failed with this error.
    Failed(String),
}

/// What a live summary tick does.
#[derive(Debug)]
pub enum LiveSummaryPlan {
    /// Answer with this error, without calling a model.
    Refuse(String),
    /// The transcript is blank: answer with an empty summary, without a call.
    NothingToSummarize,
    /// Call the local model with this prompt pair, within
    /// `LIVE_SUMMARY_TIMEOUT_SECS` seconds.
    Generate { model_name: String, system_prompt: &'static str, user_prompt: String },
}

/// Prefix of the error when the model configuration cannot be read.
pub const CONFIG_ERROR_PREFIX: &'static str = "Failed to load model config: ";

/// Error when a live summary call takes longer than its budget.
pub const LIVE_SUMMARY_TIMED_OUT: &'static str = "Live summary timed out";

/// Whether a lookup gave a local model with a non-blank name.
pub open spec fn has_local_model(config: ModelConfigLookup) -> bool {
    match config {
        ModelConfigLookup::Found { provider_is_local, model } => provider_is_local
            && text::trim_ws(model@).len() > 0,
        _ => false,
    }
}

/// Decides a live summary tick from the configured model and the transcript.
///
/// Local-only: without a configured model, with a provider that is not a local
/// one, or with a blank model name, the tick is refused with the
/// `LIVE_SUMMARY_LOCAL_ONLY` sentinel and nothing is called; a failed lookup is
/// reported as such. A blank transcript gives an empty summary.
pub fn plan_live_summary(
    config: ModelConfigLookup,
    transcript: &str,
    previous_summary: Option<&str>,
) -> (plan: LiveSummaryPlan)
    ensures
        config matches ModelConfigLookup::Failed(e) ==> (plan matches LiveSummaryPlan::Refuse(m)
            && m@ == CONFIG_ERROR_PREFIX@ + e@),
        !(config is Failed) && !has_local_model(config) ==> (plan matches LiveSummaryPlan::Refuse(
            m,
        ) && m@ == LIVE_SUMMARY_LOCAL_ONLY@),
        has_local_model(config) && text::trim_ws(transcript@).len() == 0 ==> plan
            is NothingToSummarize,
        has_local_model(config) && text::trim_ws(transcript@).len() > 0 ==> (
        plan matches LiveSummaryPlan::Generate { model_name, system_prompt, user_prompt }
            && config matches ModelConfigLookup::Found { model, .. } && model_name@
            == text::trim_ws(model@) && (system_prompt@, user_prompt@) == live_summary_prompt(
            transcript@,
            text::opt_str_view(previous_summary),
        )),
{
    let model = match config {
        ModelConfigLookup::Missing => {
            return LiveSummaryPlan::Refuse(LIVE_SUMMARY_LOCAL_ONLY.to_owned());
        },
        ModelConfigLookup::Failed(e) => {
            let mut m = CONFIG_ERROR_PREFIX.to_owned();
            m.append(e.as_str());
            return LiveSummaryPlan::Refuse(m);
        },
        ModelConfigLookup::Found { provider_is_local, model } => {
            if !provider_is_local {
                return LiveSummaryPlan::Refuse(LIVE_SUMMARY_LOCAL_ONLY.to_owned());
            }
            model
        },
    };
    let mv = chars_of(model.as_str());
    assert(mv@.subrange(0, mv@.len() as int) =~= mv@);
    let (ma, mb) = trim_ws_range(&mv, 0, mv.len());
    if ma == mb {
        return LiveSummaryPlan::Refuse(LIVE_SUMMARY_LOCAL_ONLY.to_owned());
    }
    let model_name = string_from_range(&mv, ma, mb);
    let tv = chars_of(transcript);
    assert(tv@.subrange(0, tv@.len() as int) =~= tv@);
    let (ta, tb) = trim_ws_range(&tv, 0, tv.len());
    if ta == tb {
        return LiveSummaryPlan::NothingToSummarize;
    }
    let (system_prompt, user_prompt) = build_live_summary_prompt(transcript, previous_summary);
    LiveSummaryPlan::Generate { model_name, system_prompt, user_prompt }
}

/// How a live summary call ended.
#[derive(Debug)]
pub enum LiveSummaryReply {
    /// The model replied; this is its reply with the Markdown cleaned up.
    Cleaned(String),
    /// The call failed with this error.
    Failed(String),
    /// The call took longer than `LIVE_SUMMARY_TIMEOUT_SECS` seconds.
    TimedOut,
}

/// The answer of a live summary tick once the call has ended: the cleaned
/// reply with the "nothing new" marker mapped to an empty result, the call's
/// error as it is, or a timeout error.
pub fn live_summary_result(reply: LiveSummaryReply) -> (res: Result<String, String>)
    ensures
        match reply {
            LiveSummaryReply::Cleaned(c) => res matches Ok(r) && r@ == strip_marker(c@),
            LiveSummaryReply::Failed(e) => res matches Err(m) && m@ == e@,
            LiveSummaryReply::TimedOut => res matches Err(m) && m@ == LIVE_SUMMARY_TIMED_OUT@,
        },
{
    match reply {
        LiveSummaryReply::Cleaned(c) => Ok(strip_nothing_new(c.as_str())),
        LiveSummaryReply::Failed(e) => Err(e),
        LiveSummaryReply::TimedOut => Err(LIVE_SUMMARY_TIMED_OUT.to_owned()),
    }
}

} // verus!
