use std::path::PathBuf;
use meetily::meeting_folder::{
    build_folder_name, plan_meeting_folder, sanitize_component, MeetingFolderConfig, RecordingPreferences,
    FALLBACK_NAME, MAX_UNIQUE_ATTEMPTS,
};
use meetily::rename::{finish_rename, plan_rename, RenameOutcome, RenameStep};
use meetily::unique_name::{after_probe, candidate, fallback_unique_name, unique_name_step, UniqueNameStep};

#[test]
fn sanitize_replaces_path_separators() {
    assert_eq!(sanitize_component("a/b\\c"), "a_b_c");
    assert_eq!(sanitize_component("Q1: Review"), "Q1_ Review");
}

#[test]
fn sanitize_rejects_traversal_components() {
    assert_eq!(sanitize_component(".."), FALLBACK_NAME);
    assert_eq!(sanitize_component("."), FALLBACK_NAME);
    assert_eq!(sanitize_component("   "), FALLBACK_NAME);
    assert_eq!(sanitize_component(""), FALLBACK_NAME);
    // Separators are replaced before the traversal check, so this cannot escape.
    assert_eq!(sanitize_component("../../etc"), ".._.._etc");
}

#[test]
fn sanitize_strips_trailing_dots_and_spaces() {
    assert_eq!(sanitize_component("Standup..."), "Standup");
    assert_eq!(sanitize_component("  Standup  "), "Standup");
}

#[test]
fn build_folder_name_applies_prefix_verbatim() {
    assert_eq!(
        build_folder_name(Some("Work_"), "Standup", "2026-07-28_10-30"),
        "Work_Standup_2026-07-28_10-30"
    );
    assert_eq!(
        build_folder_name(Some("Work"), "Standup", "2026-07-28_10-30"),
        "WorkStandup_2026-07-28_10-30"
    );
    assert_eq!(
        build_folder_name(None, "Standup", "2026-07-28_10-30"),
        "Standup_2026-07-28_10-30"
    );
}

#[test]
fn build_folder_name_ignores_unusable_prefix() {
    // A prefix of only whitespace or dots must not inject the fallback name.
    assert_eq!(
        build_folder_name(Some("   "), "Standup", "2026-07-28_10-30"),
        "Standup_2026-07-28_10-30"
    );
    assert_eq!(
        build_folder_name(Some(""), "Standup", "2026-07-28_10-30"),
        "Standup_2026-07-28_10-30"
    );
}

#[test]
fn build_folder_name_sanitizes_prefix_separators() {
    assert_eq!(
        build_folder_name(Some("a/b-"), "Standup", "2026-07-28_10-30"),
        "a_b-Standup_2026-07-28_10-30"
    );
}

#[test]
fn sanitize_replaces_every_reserved_and_control_character() {
    assert_eq!(sanitize_component("a:b*c?d\"e<f>g|h"), "a_b_c_d_e_f_g_h");
    assert_eq!(sanitize_component("tab\there"), "tab_here");
    assert_eq!(sanitize_component("x\u{7f}y\u{9f}z"), "x_y_z");
    // Control characters are replaced before trimming, so they are not trimmed.
    assert_eq!(sanitize_component("\nname\n"), "_name_");
}

#[test]
fn sanitize_trims_unicode_white_space() {
    assert_eq!(sanitize_component("\u{3000}Standup\u{2003}"), "Standup");
    assert_eq!(sanitize_component("Standup. . ."), "Standup");
    assert_eq!(sanitize_component(" . "), FALLBACK_NAME);
    assert_eq!(sanitize_component("...."), FALLBACK_NAME);
}

#[test]
fn sanitize_strips_dots_behind_any_white_space() {
    assert_eq!(sanitize_component("a.\u{a0}."), "a");
    assert_eq!(sanitize_component("a . \u{3000}. "), "a");
    assert_eq!(sanitize_component("a.b"), "a.b");
}

#[test]
fn sanitized_names_are_single_components() {
    for name in ["../escaped", "a/b/c", "..\\..", "  ..  ", "C:\\Windows", "\u{0}", "a.\u{a0}.", "x. \u{2003}"] {
        let s = sanitize_component(name);
        assert!(!s.is_empty());
        assert!(s != "." && s != "..");
        assert!(!s.contains('/') && !s.contains('\\'));
        assert!(!s.chars().any(|c| c.is_control()));
        assert_eq!(s.trim(), s);
        assert!(!s.ends_with('.') && !s.ends_with(' '));
    }
}

#[test]
fn build_folder_name_keeps_the_prefix_verbatim() {
    assert_eq!(
        build_folder_name(Some("[Client] "), "Standup", "2026-07-28_10-30"),
        "[Client] Standup_2026-07-28_10-30"
    );
    assert_eq!(
        build_folder_name(Some("Untitled Meeting"), "Standup", "2026-07-28_10-30"),
        "Untitled MeetingStandup_2026-07-28_10-30"
    );
    assert_eq!(
        build_folder_name(Some("2026-q3-"), "Standup", "2026-07-28_10-30"),
        "2026-q3-Standup_2026-07-28_10-30"
    );
    assert_eq!(
        build_folder_name(Some("v1."), "Standup", "t"),
        "v1.Standup_t"
    );
    assert_eq!(
        build_folder_name(Some("  Work_"), "Standup", "t"),
        "Work_Standup_t"
    );
    assert_eq!(
        build_folder_name(Some("[Client] "), "...", "2026-07-28_10-30"),
        "[Client] Untitled Meeting_2026-07-28_10-30"
    );
}

#[test]
fn build_folder_name_drops_a_prefix_of_only_spaces_and_dots() {
    assert_eq!(
        build_folder_name(Some(".."), "Standup", "2026-07-28_10-30"),
        "Standup_2026-07-28_10-30"
    );
    assert_eq!(
        build_folder_name(Some(" . \u{a0}"), "Standup", "2026-07-28_10-30"),
        "Standup_2026-07-28_10-30"
    );
}

#[test]
fn config_from_preferences_keeps_the_prefix() {
    let prefs = RecordingPreferences {
        save_folder: PathBuf::from("/recordings"),
        folder_prefix: Some("[Client] ".to_string()),
    };
    let config = MeetingFolderConfig::from_preferences(&prefs);
    assert_eq!(config.base_folder, PathBuf::from("/recordings"));
    assert_eq!(config.prefix.as_deref(), Some("[Client] "));

    let blank = RecordingPreferences {
        save_folder: PathBuf::from("/recordings"),
        folder_prefix: Some(" \t ".to_string()),
    };
    assert_eq!(MeetingFolderConfig::from_preferences(&blank).prefix, None);

    let none = RecordingPreferences { save_folder: PathBuf::from("/r"), folder_prefix: None };
    assert_eq!(MeetingFolderConfig::from_preferences(&none).prefix, None);
}

fn is_minute_timestamp(t: &str) -> bool {
    let b = t.as_bytes();
    b.len() == 16
        && b.iter().enumerate().all(|(i, c)| match i {
            4 | 7 | 13 => *c == b'-',
            10 => *c == b'_',
            _ => c.is_ascii_digit(),
        })
}

#[test]
fn config_create_plans_a_prefixed_folder() {
    let config = MeetingFolderConfig {
        base_folder: PathBuf::from("/recordings"),
        prefix: Some("Work_".to_string()),
    };
    let plan = config.create("Team Standup", true).unwrap();
    assert!(is_minute_timestamp(&plan.timestamp), "{}", plan.timestamp);
    assert_eq!(plan.folder_name, format!("Work_Team Standup_{}", plan.timestamp));
    assert!(plan.folder_name.starts_with("Work_Team Standup_"));
    assert!(plan.create_checkpoints_dir);
    assert!(!config.create("Team Standup", false).unwrap().create_checkpoints_dir);
}

#[test]
fn plan_meeting_folder_stamps_the_current_minute() {
    let plan = plan_meeting_folder("Standup", None, false).unwrap();
    assert!(is_minute_timestamp(&plan.timestamp), "{}", plan.timestamp);
    assert_eq!(plan.folder_name, format!("Standup_{}", plan.timestamp));
    assert!(!plan.create_checkpoints_dir);
    let prefixed = plan_meeting_folder("Standup", Some("Work_"), true).unwrap();
    assert!(prefixed.folder_name.starts_with("Work_Standup_"));
    assert!(prefixed.create_checkpoints_dir);
}

fn probe(name: &str, attempt: u32) -> Option<String> {
    match unique_name_step(name, attempt) {
        UniqueNameStep::Probe { name, attempt: a } => {
            assert_eq!(a, attempt);
            Some(name)
        }
        _ => None,
    }
}

#[test]
fn unique_names_count_up_from_two() {
    assert_eq!(probe("Standup_2026", 1).as_deref(), Some("Standup_2026"));
    assert_eq!(probe("Standup_2026", 2).as_deref(), Some("Standup_2026_2"));
    assert_eq!(probe("Standup_2026", 10).as_deref(), Some("Standup_2026_10"));
    assert_eq!(probe("x", 305).as_deref(), Some("x_305"));
    assert_eq!(probe("x", MAX_UNIQUE_ATTEMPTS).as_deref(), Some("x_1000"));
    assert_eq!(probe("x", MAX_UNIQUE_ATTEMPTS + 1), None);
    match unique_name_step("x", MAX_UNIQUE_ATTEMPTS + 1) {
        UniqueNameStep::Use(name) => {
            // `x_HH-MM-SS.mmm`
            assert!(name.starts_with("x_"));
            assert_eq!(name.len(), 2 + 12);
            assert_eq!(&name[10..11], ".");
        }
        other => panic!("unexpected {:?}", other),
    }
    assert!(probe("Standup", 2).unwrap().ends_with("_2"));
    assert_eq!(candidate("Standup", 1), "Standup");
    assert_eq!(candidate("Standup", 7), "Standup_7");
}

#[test]
fn unique_name_probes_are_all_different() {
    let mut seen = std::collections::HashSet::new();
    for attempt in 1..=MAX_UNIQUE_ATTEMPTS {
        assert!(seen.insert(probe("Standup", attempt).unwrap()));
    }
}

fn search(folder: &str, taken: &[&str]) -> String {
    let mut step = unique_name_step(folder, 1);
    loop {
        step = match step {
            UniqueNameStep::Probe { name, attempt } => {
                let is_taken = taken.contains(&name.as_str());
                after_probe(folder, attempt, is_taken)
            }
            UniqueNameStep::Use(name) => return name,
            UniqueNameStep::ClockUnavailable => panic!("no clock"),
        }
    }
}

#[test]
fn search_settles_on_the_first_free_name() {
    assert_eq!(search("S", &[]), "S");
    assert_eq!(search("S", &["S"]), "S_2");
    assert_eq!(search("S", &["S", "S_2", "S_3"]), "S_4");
    // A free earlier name wins over later gaps.
    assert_eq!(search("S", &["S", "S_3"]), "S_2");
}

#[test]
fn after_probe_uses_a_free_name_and_moves_on_from_a_taken_one() {
    match after_probe("S", 3, false) {
        UniqueNameStep::Use(n) => assert_eq!(n, "S_3"),
        other => panic!("unexpected {:?}", other),
    }
    match after_probe("S", 3, true) {
        UniqueNameStep::Probe { name, attempt } => {
            assert_eq!(name, "S_4");
            assert_eq!(attempt, 4);
        }
        other => panic!("unexpected {:?}", other),
    }
    assert!(matches!(after_probe("S", MAX_UNIQUE_ATTEMPTS, true), UniqueNameStep::Use(_)));
}

#[test]
fn fallback_unique_name_appends_the_suffix() {
    assert_eq!(fallback_unique_name("Standup", "10-30-05.123"), "Standup_10-30-05.123");
}

#[test]
fn rename_plan_follows_the_checks_in_order() {
    assert!(matches!(plan_rename(false, true, Some("a"), "b"), RenameStep::FolderMissing));
    assert!(matches!(plan_rename(true, false, Some("a"), "b"), RenameStep::NoParent));
    assert!(matches!(plan_rename(true, true, Some("Standup"), "Standup"), RenameStep::Unchanged));
    assert!(matches!(plan_rename(true, true, Some("Standup"), " Standup. "), RenameStep::Unchanged));
    match plan_rename(true, true, Some("demo"), "Demo") {
        RenameStep::ProbeTarget(t) => assert_eq!(t, "Demo"),
        other => panic!("unexpected {:?}", other),
    }
    match plan_rename(true, true, None, "Standup") {
        RenameStep::ProbeTarget(t) => assert_eq!(t, "Standup"),
        other => panic!("unexpected {:?}", other),
    }
    match plan_rename(true, true, Some("Standup"), "../escaped") {
        RenameStep::ProbeTarget(t) => assert_eq!(t, ".._escaped"),
        other => panic!("unexpected {:?}", other),
    }
}

#[test]
fn finish_rename_refuses_an_existing_target() {
    match finish_rename("Weekly Sync".to_string(), true, false) {
        RenameOutcome::TargetExists(t) => assert_eq!(t, "Weekly Sync"),
        other => panic!("unexpected {:?}", other),
    }
    match finish_rename("Weekly Sync".to_string(), false, false) {
        RenameOutcome::Rename(t) => assert_eq!(t, "Weekly Sync"),
        other => panic!("unexpected {:?}", other),
    }
}

#[test]
fn case_only_rename_goes_ahead_when_the_target_is_the_folder_itself() {
    // On a case-insensitive file system "Demo" finds the folder "demo" itself.
    match finish_rename("Demo".to_string(), true, true) {
        RenameOutcome::Rename(t) => assert_eq!(t, "Demo"),
        other => panic!("unexpected {:?}", other),
    }
}
