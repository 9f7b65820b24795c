use meetily::summary::{
    cancel_outcome, save_summary_outcome, CancelEvent, export_folder, process_id, resolve_processing_settings, DEFAULT_CHUNK_OVERLAP, DEFAULT_CHUNK_SIZE, normalize_summary_language, resolve_folder_path,
    MeetingFolderResolution, MeetingSummaryLanguagePreference, ProcessTranscriptResponse,
    SummaryLanguageStorage,
};

#[test]
fn language_preference_constructors() {
    let m = MeetingSummaryLanguagePreference::metadata(Some("de".to_string()));
    assert_eq!(m.language.as_deref(), Some("de"));
    assert_eq!(m.storage, SummaryLanguageStorage::Metadata);
    let l = MeetingSummaryLanguagePreference::local_fallback();
    assert_eq!(l.language, None);
    assert_eq!(l.storage, SummaryLanguageStorage::LocalFallback);
}

#[test]
fn process_transcript_response_holds_its_fields() {
    let r = ProcessTranscriptResponse {
        message: "Summary generation started".to_string(),
        process_id: "meeting-1".to_string(),
    };
    assert_eq!(r.process_id, "meeting-1");
}

#[test]
fn blank_folder_paths_mean_no_folder() {
    assert!(matches!(resolve_folder_path(None), MeetingFolderResolution::NoFolder));
    assert!(matches!(resolve_folder_path(Some("".to_string())), MeetingFolderResolution::NoFolder));
    assert!(matches!(resolve_folder_path(Some(" \t".to_string())), MeetingFolderResolution::NoFolder));
    match resolve_folder_path(Some(" /rec/a ".to_string())) {
        MeetingFolderResolution::Folder(p) => assert_eq!(p, " /rec/a "),
        other => panic!("unexpected {:?}", other),
    }
}

#[test]
fn summary_language_is_normalized() {
    assert_eq!(normalize_summary_language(None), None);
    assert_eq!(normalize_summary_language(Some("".to_string())), None);
    assert_eq!(normalize_summary_language(Some("   ".to_string())), None);
    assert_eq!(normalize_summary_language(Some(" fr ".to_string())).as_deref(), Some("fr"));
}

#[test]
fn started_response_names_the_process() {
    let r = ProcessTranscriptResponse::started("meeting-42".to_string());
    assert_eq!(r.message, "Summary generation started");
    assert_eq!(r.process_id, "meeting-42");
}

#[test]
fn processing_settings_fill_in_defaults() {
    let s = resolve_processing_settings(None, None, None, None, Some("  ".to_string()));
    assert_eq!(s.chunk_size, 40000);
    assert_eq!(s.overlap, 1000);
    assert_eq!(s.chunk_size, DEFAULT_CHUNK_SIZE);
    assert_eq!(s.overlap, DEFAULT_CHUNK_OVERLAP);
    assert_eq!(s.custom_prompt, "");
    assert_eq!(s.template_id, "daily_standup");
    assert_eq!(s.summary_language, None);

    let s = resolve_processing_settings(
        Some(5),
        Some(0),
        Some("Be brief".to_string()),
        Some("retro".to_string()),
        Some(" es ".to_string()),
    );
    assert_eq!((s.chunk_size, s.overlap), (5, 0));
    assert_eq!(s.custom_prompt, "Be brief");
    assert_eq!(s.template_id, "retro");
    assert_eq!(s.summary_language.as_deref(), Some("es"));
}

#[test]
fn process_id_prefers_the_meeting_id() {
    assert_eq!(process_id(Some("m-7".to_string()), "abc"), "m-7");
    assert_eq!(process_id(None, "1b4e28ba-2fa1"), "meeting-1b4e28ba-2fa1");
}

#[test]
fn export_needs_a_folder() {
    assert_eq!(export_folder(MeetingFolderResolution::Folder("/rec/a".to_string())), Ok("/rec/a".to_string()));
    assert_eq!(
        export_folder(MeetingFolderResolution::NoFolder),
        Err("This meeting has no recording folder, so the summary can't be saved next to the transcript.".to_string())
    );
}

#[test]
fn save_outcome_maps_the_write() {
    assert_eq!(save_summary_outcome(Ok(true)), Ok("Meeting summary saved successfully".to_string()));
    assert_eq!(save_summary_outcome(Ok(false)), Err("Meeting not found or can't convert the json".to_string()));
    assert_eq!(save_summary_outcome(Err("db locked".to_string())), Err("db locked".to_string()));
}

#[test]
fn cancel_outcome_reports_what_happened() {
    assert_eq!(cancel_outcome(CancelEvent::NotRunning), Ok("No active summary generation to cancel".to_string()));
    assert_eq!(cancel_outcome(CancelEvent::Cancelled(Ok(()))), Ok("Summary generation cancelled successfully".to_string()));
    assert_eq!(
        cancel_outcome(CancelEvent::Cancelled(Err("db locked".to_string()))),
        Err("Failed to update cancellation status: db locked".to_string())
    );
}
