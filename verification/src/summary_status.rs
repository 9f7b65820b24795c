//! The summary status of a meeting, as the summary view asks for it: the
//! status (pending/processing/completed/failed, or idle when no summary process
//! exists) and the parsed result data.

use vstd::prelude::*;
use crate::live_summary;

verus! {

#[verifier::external_type_specification]
#[verifier::external_body]
pub struct ExJsonValue(serde_json::Value);

/// Whether `text` is a JSON document that `serde_json` parses into a `Value`.
pub uninterp spec fn json_parses(text: Seq<char>) -> bool;

/// The `Value` that `serde_json` parses `text` into, where it parses.
pub uninterp spec fn json_value(text: Seq<char>) -> serde_json::Value;

/// `serde_json::from_str::<Value>`: the value of a JSON document, or `None`
/// where parsing fails. Both depend on the text alone: whether it parses is
/// named by `json_parses`, and the value by `json_value`. What the value holds
/// is not restated.
#[verifier::external_body]
fn parse_json(text: &str) -> (value: Option<serde_json::Value>)
    ensures
        value is Some == json_parses(text@),
        value matches Some(v) ==> v == json_value(text@),
{
    serde_json::from_str::<serde_json::Value>(text).ok()
}

/// The lowercase form of `s`, as `str::to_lowercase` maps it by Unicode's
/// lowercase mapping.
pub uninterp spec fn lowercase(s: Seq<char>) -> Seq<char>;

/// Every character of `s` is ASCII.
pub open spec fn all_ascii(s: Seq<char>) -> bool {
    forall|i: int| 0 <= i < s.len() ==> (#[trigger] s[i] as u32) < 0x80
}

/// `str::to_lowercase`: the lowercase equivalent of the text. On ASCII text it
/// maps `A` to `Z` to `a` to `z` and keeps every other character; the Unicode
/// mapping behind the rest is not restated, and the result is named by
/// `lowercase`.
#[verifier::external_body]
fn to_lowercase(s: &str) -> (res: String)
    ensures
        res@ == lowercase(s@),
        all_ascii(s@) ==> res@.len() == s@.len() && forall|i: int|
            0 <= i < s@.len() ==> (#[trigger] res@[i] as u32) == live_summary::ascii_lower_code(
                s@[i],
            ),
{
    s.to_lowercase()
}

/// The stored summary process of a meeting, as plain values.
#[derive(Debug, Clone)]
pub struct SummaryProcessRecord {
    /// The stored status, in whatever case it was written.
    pub status: String,
    /// The stored result, a JSON document, if any.
    pub result: Option<String>,
    /// The stored error, if any.
    pub error: Option<String>,
    /// When processing started, as RFC 3339 text.
    pub start: Option<String>,
    /// When processing ended, as RFC 3339 text.
    pub end: Option<String>,
}

/// Summary status and data of a meeting.
#[derive(Debug)]
pub struct SummaryResponse {
    pub status: String,
    pub meeting_name: Option<String>,
    pub meeting_id: String,
    pub start: Option<String>,
    pub end: Option<String>,
    pub data: Option<serde_json::Value>,
    pub error: Option<String>,
}

/// Status of a meeting for which no summary process exists.
pub const IDLE_STATUS: &'static str = "idle";

/// The data of a stored result: its parsed value, where it is present and
/// parses as JSON.
pub open spec fn parsed_result(result: Option<String>) -> Option<serde_json::Value> {
    match result {
        Some(t) => if json_parses(t@) {
            Some(json_value(t@))
        } else {
            None
        },
        None => None,
    }
}

/// The summary status and data of a meeting, from its stored summary process
/// (if any) and its title (if it could be fetched).
///
/// The stored result is parsed whatever the status, so a summary restored
/// after a cancellation or failure still shows; a result that does not parse
/// gives no data.
pub fn summary_response(
    meeting_id: String,
    process: Option<SummaryProcessRecord>,
    meeting_name: Option<String>,
) -> (r: SummaryResponse)
    ensures
        r.meeting_id == meeting_id,
        r.meeting_name == meeting_name,
        match process {
            None => {
                &&& r.status@ == IDLE_STATUS@
                &&& r.start is None
                &&& r.end is None
                &&& r.data is None
                &&& r.error is None
            },
            Some(p) => {
                &&& r.status@ == lowercase(p.status@)
                &&& r.start == p.start
                &&& r.end == p.end
                &&& r.error == p.error
                &&& r.data == parsed_result(p.result)
            },
        },
{
    match process {
        None => SummaryResponse {
            status: IDLE_STATUS.to_owned(),
            meeting_name,
            meeting_id,
            start: None,
            end: None,
            data: None,
            error: None,
        },
        Some(p) => {
            let status = to_lowercase(p.status.as_str());
            let data = match &p.result {
                Some(t) => parse_json(t.as_str()),
                None => None,
            };
            SummaryResponse {
                status,
                meeting_name,
                meeting_id,
                start: p.start,
                end: p.end,
                data,
                error: p.error,
            }
        },
    }
}

} // verus!
