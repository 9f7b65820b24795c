//! Values and decisions of the meeting-summary commands: the per-meeting
//! summary language preference, where a meeting's folder is, the inputs of a
//! transcript-processing request, the folder a summary is exported to, and
//! the answers to saving and cancelling a summary.

use vstd::prelude::*;
use crate::text;
use crate::text::{chars_of, trim_non_blank, trim_ws_range};

verus! {

/// Where a meeting's summary language preference is kept.
#[derive(Debug, Clone, Copy, PartialEq, Eq)]
pub enum SummaryLanguageStorage {
    /// In the meeting folder's `metadata.json`.
    Metadata,
    /// The meeting has no folder; the frontend keeps the preference locally.
    LocalFallback,
}

/// A meeting's summary language preference and where it is kept.
#[derive(Debug, Clone)]
pub struct MeetingSummaryLanguagePreference {
    pub language: Option<String>,
    pub storage: SummaryLanguageStorage,
}

impl MeetingSummaryLanguagePreference {
    /// A preference read from the meeting folder's metadata.
    pub fn metadata(language: Option<String>) -> (res: Self)
        ensures
            res.language == language,
            res.storage == SummaryLanguageStorage::Metadata,
    {
        MeetingSummaryLanguagePreference { language, storage: SummaryLanguageStorage::Metadata }
    }

    /// The answer for a meeting without a folder: no language, kept locally.
    pub fn local_fallback() -> (res: Self)
        ensures
            res.language is None,
            res.storage == SummaryLanguageStorage::LocalFallback,
    {
        MeetingSummaryLanguagePreference {
            language: None,
            storage: SummaryLanguageStorage::LocalFallback,
        }
    }
}

/// The answer to a transcript-processing request: the process runs in the
/// background under `process_id`.
#[derive(Debug, Clone)]
pub struct ProcessTranscriptResponse {
    pub message: String,
    pub process_id: String,
}

impl ProcessTranscriptResponse {
    /// The answer once the background summary process for `process_id` has started.
    pub fn started(process_id: String) -> (res: Self)
        ensures
            res.message@ == "Summary generation started"@,
            res.process_id == process_id,
    {
        ProcessTranscriptResponse { message: "Summary generation started".to_owned(), process_id }
    }
}

/// Transcript chunk size used when a request names none.
pub const DEFAULT_CHUNK_SIZE: i32 = 40000;

/// Chunk overlap used when a request names none.
pub const DEFAULT_CHUNK_OVERLAP: i32 = 1000;

/// Summary template used when a request names none.
pub const DEFAULT_TEMPLATE_ID: &'static str = "daily_standup";

/// The settings a transcript-processing request runs with, once its optional
/// inputs are resolved.
#[derive(Debug, Clone)]
pub struct TranscriptProcessingSettings {
    pub chunk_size: i32,
    pub overlap: i32,
    pub custom_prompt: String,
    pub template_id: String,
    pub summary_language: Option<String>,
}

/// Resolves the optional inputs of a transcript-processing request: the chunk
/// size and overlap default to 40000 and 1000, the custom prompt to empty, the
/// template to `daily_standup`, and the summary language is normalised.
pub fn resolve_processing_settings(
    chunk_size: Option<i32>,
    overlap: Option<i32>,
    custom_prompt: Option<String>,
    template_id: Option<String>,
    summary_language: Option<String>,
) -> (res: TranscriptProcessingSettings)
    ensures
        res.chunk_size == match chunk_size {
            Some(c) => c,
            None => DEFAULT_CHUNK_SIZE,
        },
        res.overlap == match overlap {
            Some(o) => o,
            None => DEFAULT_CHUNK_OVERLAP,
        },
        res.custom_prompt@ == match custom_prompt {
            Some(p) => p@,
            None => Seq::<char>::empty(),
        },
        res.template_id@ == match template_id {
            Some(t) => t@,
            None => DEFAULT_TEMPLATE_ID@,
        },
        text::opt_string_view(res.summary_language) == text::trimmed_non_blank(
            text::opt_string_view(summary_language),
        ),
{
    TranscriptProcessingSettings {
        chunk_size: match chunk_size {
            Some(c) => c,
            None => DEFAULT_CHUNK_SIZE,
        },
        overlap: match overlap {
            Some(o) => o,
            None => DEFAULT_CHUNK_OVERLAP,
        },
        custom_prompt: match custom_prompt {
            Some(p) => p,
            None => String::new(),
        },
        template_id: match template_id {
            Some(t) => t,
            None => DEFAULT_TEMPLATE_ID.to_owned(),
        },
        summary_language: normalize_summary_language(summary_language),
    }
}

/// A blank summary language is no language: "" and null behave identically.
pub proof fn lemma_blank_language_is_none(language: Seq<char>)
    requires
        text::trim_ws(language).len() == 0,
    ensures
        text::trimmed_non_blank(Some(language)) == text::trimmed_non_blank(None),
{
}

/// Where a meeting's recording folder is, if it has one.
#[derive(Debug)]
pub enum MeetingFolderResolution {
    Folder(String),
    NoFolder,
}

/// Resolves the folder path stored for a meeting: a path that is absent, empty
/// or only white space means the meeting has no folder; any other path is kept
/// as stored.
pub fn resolve_folder_path(folder_path: Option<String>) -> (res: MeetingFolderResolution)
    ensures
        match folder_path {
            Some(p) => if text::trim_ws(p@).len() > 0 {
                res matches MeetingFolderResolution::Folder(f) && f@ == p@
            } else {
                res is NoFolder
            },
            None => res is NoFolder,
        },
{
    match folder_path {
        Some(p) => {
            let v = chars_of(p.as_str());
            assert(v@.subrange(0, v@.len() as int) =~= v@);
            let (a, b) = trim_ws_range(&v, 0, v.len());
            if a == b {
                MeetingFolderResolution::NoFolder
            } else {
                MeetingFolderResolution::Folder(p)
            }
        },
        None => MeetingFolderResolution::NoFolder,
    }
}

/// Normalises a requested summary language: trimmed, and `None` when it is
/// absent, empty or only white space, so that "" and null behave identically.
pub fn normalize_summary_language(summary_language: Option<String>) -> (res: Option<String>)
    ensures
        text::opt_string_view(res) == text::trimmed_non_blank(
            text::opt_string_view(summary_language),
        ),
{
    trim_non_blank(&summary_language)
}

/// The id a transcript-processing request runs under: the meeting id when the
/// request names one, else `meeting-` followed by `fresh`, a new unique id
/// drawn by the caller.
pub fn process_id(meeting_id: Option<String>, fresh: &str) -> (id: String)
    ensures
        match meeting_id {
            Some(m) => id@ == m@,
            None => id@ == "meeting-"@ + fresh@,
        },
{
    match meeting_id {
        Some(m) => m,
        None => {
            let mut id = "meeting-".to_owned();
            id.append(fresh);
            id
        },
    }
}

/// Error of a summary export for a meeting without a recording folder.
pub const NO_FOLDER_EXPORT_ERROR: &'static str =
    "This meeting has no recording folder, so the summary can't be saved next to the transcript.";

/// Where a meeting's summary is exported: its recording folder, or an error
/// when the meeting has none.
pub fn export_folder(resolution: MeetingFolderResolution) -> (res: Result<String, String>)
    ensures
        match resolution {
            MeetingFolderResolution::Folder(f) => res matches Ok(g) && g@ == f@,
            MeetingFolderResolution::NoFolder => res matches Err(e) && e@ == NO_FOLDER_EXPORT_ERROR@,
        },
{
    match resolution {
        MeetingFolderResolution::Folder(f) => Ok(f),
        MeetingFolderResolution::NoFolder => Err(NO_FOLDER_EXPORT_ERROR.to_owned()),
    }
}

/// Message once a meeting summary is saved.
pub const SUMMARY_SAVED: &'static str = "Meeting summary saved successfully";

/// Error when saving finds no meeting, or a summary it cannot store.
pub const SUMMARY_NOT_SAVED: &'static str = "Meeting not found or can't convert the json";

/// The answer to saving a meeting summary, from what the write reported:
/// `Ok(true)` when a row was updated, `Ok(false)` when none was, or the
/// write's error.
pub fn save_summary_outcome(write: Result<bool, String>) -> (res: Result<String, String>)
    ensures
        match write {
            Ok(true) => res matches Ok(m) && m@ == SUMMARY_SAVED@,
            Ok(false) => res matches Err(e) && e@ == SUMMARY_NOT_SAVED@,
            Err(e) => res matches Err(m) && m@ == e@,
        },
{
    match write {
        Ok(true) => Ok(SUMMARY_SAVED.to_owned()),
        Ok(false) => Err(SUMMARY_NOT_SAVED.to_owned()),
        Err(e) => Err(e),
    }
}

/// Message once a running summary generation is cancelled.
pub const SUMMARY_CANCELLED: &'static str = "Summary generation cancelled successfully";

/// Message when there was no summary generation to cancel.
pub const NOTHING_TO_CANCEL: &'static str = "No active summary generation to cancel";

/// Prefix of the error when a cancellation cannot be recorded.
pub const CANCEL_STATUS_ERROR_PREFIX: &'static str = "Failed to update cancellation status: ";

/// How a cancellation request went: no generation was running, or one was
/// cancelled and recording that gave this result.
#[derive(Debug)]
pub enum CancelEvent {
    NotRunning,
    Cancelled(Result<(), String>),
}

/// The answer to a cancellation request.
pub fn cancel_outcome(event: CancelEvent) -> (res: Result<String, String>)
    ensures
        match event {
            CancelEvent::NotRunning => res matches Ok(m) && m@ == NOTHING_TO_CANCEL@,
            CancelEvent::Cancelled(Ok(())) => res matches Ok(m) && m@ == SUMMARY_CANCELLED@,
            CancelEvent::Cancelled(Err(e)) => res matches Err(m) && m@ == CANCEL_STATUS_ERROR_PREFIX@
                + e@,
        },
{
    match event {
        CancelEvent::NotRunning => Ok(NOTHING_TO_CANCEL.to_owned()),
        CancelEvent::Cancelled(Ok(())) => Ok(SUMMARY_CANCELLED.to_owned()),
        CancelEvent::Cancelled(Err(e)) => {
            let mut m = CANCEL_STATUS_ERROR_PREFIX.to_owned();
            m.append(e.as_str());
            Err(m)
        },
    }
}

} // verus!
