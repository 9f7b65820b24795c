use meetily::live_summary::{
    live_summary_result, marker_matches, plan_live_summary, LiveSummaryPlan, LiveSummaryReply,
    ModelConfigLookup, LIVE_SUMMARY_LOCAL_ONLY, build_live_summary_prompt, strip_nothing_new, tail_chars, LIVE_SUMMARY_APPEND_SYSTEM_PROMPT,
    LIVE_SUMMARY_CONTEXT_MAX_CHARS, LIVE_SUMMARY_MAX_CHARS, LIVE_SUMMARY_SYSTEM_PROMPT,
};

#[test]
fn tail_chars_keeps_the_most_recent_text() {
    assert_eq!(tail_chars("abcdef", 3), "def");
    assert_eq!(tail_chars("abc", 10), "abc");
    assert_eq!(tail_chars("", 10), "");
}

#[test]
fn tail_chars_splits_on_characters_not_bytes() {
    // Byte slicing here would panic or corrupt the text
    assert_eq!(tail_chars("añ😀bé", 2), "bé");
}

#[test]
fn nothing_new_marker_becomes_empty() {
    assert_eq!(strip_nothing_new("NOTHING_NEW"), "");
    assert_eq!(strip_nothing_new("  NOTHING_NEW  "), "");
    // Models dress the marker up in bullets, quotes, or code fences
    assert_eq!(strip_nothing_new("- NOTHING_NEW"), "");
    assert_eq!(strip_nothing_new("\"NOTHING_NEW\""), "");
    assert_eq!(strip_nothing_new("- **NOTHING_NEW**"), "");
    assert_eq!(strip_nothing_new("nothing_new"), "");
}

#[test]
fn first_chunk_asks_for_a_plain_summary() {
    let (system, user) = build_live_summary_prompt("We kicked off the project.", None);

    assert_eq!(system, LIVE_SUMMARY_SYSTEM_PROMPT);
    assert!(user.contains("We kicked off the project."));
    assert!(
        !user.contains("<existing_summary>"),
        "there is no earlier summary to show"
    );
}

#[test]
fn blank_previous_summary_is_treated_as_the_first_chunk() {
    for previous in [Some(""), Some("   \n  "), None] {
        let (system, user) = build_live_summary_prompt("Opening remarks.", previous);
        assert_eq!(system, LIVE_SUMMARY_SYSTEM_PROMPT);
        assert!(!user.contains("<existing_summary>"));
    }
}

#[test]
fn later_chunks_carry_the_summary_so_far_as_context() {
    let (system, user) =
        build_live_summary_prompt("Then we agreed to ship.", Some("- Kicked off the project"));

    assert_eq!(system, LIVE_SUMMARY_APPEND_SYSTEM_PROMPT);
    assert!(user.contains("<existing_summary>"));
    assert!(user.contains("- Kicked off the project"));
    assert!(user.contains("<new_transcript>"));
    assert!(user.contains("Then we agreed to ship."));
    assert!(system.contains("Do NOT repeat"));
}

#[test]
fn prompt_size_stays_bounded_as_the_meeting_runs() {
    // A long-running meeting: both the excerpt and the summary-so-far exceed
    // their caps. The prompt must not grow with either.
    // Filler characters are ones the prompt template itself never uses.
    let transcript = "Z".repeat(LIVE_SUMMARY_MAX_CHARS * 3);
    let previous = "9".repeat(LIVE_SUMMARY_CONTEXT_MAX_CHARS * 3);

    let (_, user) = build_live_summary_prompt(&transcript, Some(&previous));

    assert_eq!(user.matches('Z').count(), LIVE_SUMMARY_MAX_CHARS);
    assert_eq!(user.matches('9').count(), LIVE_SUMMARY_CONTEXT_MAX_CHARS);
}

#[test]
fn the_most_recent_excerpt_is_kept_when_capping() {
    let transcript = format!("{}TAIL", "Z".repeat(LIVE_SUMMARY_MAX_CHARS));

    let (_, user) = build_live_summary_prompt(&transcript, None);

    assert!(user.contains("TAIL"), "the newest speech must survive capping");
}

#[test]
fn real_bullets_are_preserved() {
    let bullets = "- Agreed to ship on Friday\n- Alice owns the migration";
    assert_eq!(strip_nothing_new(bullets), bullets);

    // A bullet that merely mentions the marker still carries content
    let mentions = "- Discussed the NOTHING_NEW sentinel handling";
    assert_eq!(strip_nothing_new(mentions), mentions);
}

#[test]
fn first_chunk_prompt_is_exact() {
    let (_, user) = build_live_summary_prompt("  Hello team.  ", Some("  "));
    assert_eq!(
        user,
        "Summarize this opening excerpt as Markdown bullet points.\n\n<transcript>\nHello team.\n</transcript>"
    );
}

#[test]
fn later_chunk_prompt_is_exact() {
    let (_, user) = build_live_summary_prompt("New point.", Some(" - Old point \n"));
    assert_eq!(
        user,
        "Here is the summary written so far. Do not repeat any of it.\n\n<existing_summary>\n- Old point\n</existing_summary>\n\nWrite Markdown bullet points covering ONLY this new excerpt of the transcript.\n\n<new_transcript>\nNew point.\n</new_transcript>"
    );
}

#[test]
fn context_keeps_the_most_recent_summary() {
    let previous = format!("HEAD{}", "9".repeat(LIVE_SUMMARY_CONTEXT_MAX_CHARS));
    let (_, user) = build_live_summary_prompt("x", Some(&previous));
    assert!(!user.contains("HEAD"));
    assert!(user.contains(&"9".repeat(LIVE_SUMMARY_CONTEXT_MAX_CHARS)));
}

#[test]
fn strip_nothing_new_trims_kept_text() {
    assert_eq!(strip_nothing_new("  - Shipped  \n"), "- Shipped");
    // Only the alphanumeric content counts, so a space for the underscore is the marker too.
    assert_eq!(strip_nothing_new("NOTHING NEW"), "");
    assert_eq!(strip_nothing_new("_NOTHING_NEW_"), "");
    assert_eq!(strip_nothing_new("__NOTHING_NEW__"), "");
    assert_eq!(strip_nothing_new("NOTHINGNEW"), "");
    assert_eq!(strip_nothing_new("NOTHING_NEW_AT_ALL"), "NOTHING_NEW_AT_ALL");
    assert_eq!(strip_nothing_new("`NoThInG_nEw`"), "");
    assert_eq!(strip_nothing_new("NOTHING_NEW!!"), "");
    assert_eq!(strip_nothing_new("NOTHING_NEW2"), "NOTHING_NEW2");
    assert_eq!(strip_nothing_new(""), "");
}

#[test]
fn marker_matches_the_letters_in_any_case() {
    let v = |s: &str| s.chars().collect::<Vec<char>>();
    assert!(marker_matches(&v("NOTHINGNEW")));
    assert!(marker_matches(&v("nothingNew")));
    assert!(!marker_matches(&v("NOTHING_NEW")));
    assert!(!marker_matches(&v("NOTHINGNEWS")));
    assert!(!marker_matches(&v("")));
}

fn found(local: bool, model: &str) -> ModelConfigLookup {
    ModelConfigLookup::Found { provider_is_local: local, model: model.to_string() }
}

fn refusal(plan: LiveSummaryPlan) -> String {
    match plan {
        LiveSummaryPlan::Refuse(m) => m,
        other => panic!("unexpected {:?}", other),
    }
}

#[test]
fn live_summary_is_local_only() {
    assert_eq!(refusal(plan_live_summary(ModelConfigLookup::Missing, "hi", None)), LIVE_SUMMARY_LOCAL_ONLY);
    assert_eq!(refusal(plan_live_summary(found(false, "gpt"), "hi", None)), LIVE_SUMMARY_LOCAL_ONLY);
    assert_eq!(refusal(plan_live_summary(found(true, "  "), "hi", None)), LIVE_SUMMARY_LOCAL_ONLY);
    // A blank model is refused even when the transcript is blank too.
    assert_eq!(refusal(plan_live_summary(found(true, ""), " ", None)), LIVE_SUMMARY_LOCAL_ONLY);
    assert_eq!(LIVE_SUMMARY_LOCAL_ONLY, "LIVE_SUMMARY_LOCAL_ONLY");
}

#[test]
fn failed_config_lookup_is_reported() {
    assert_eq!(
        refusal(plan_live_summary(ModelConfigLookup::Failed("disk I/O error".to_string()), "hi", None)),
        "Failed to load model config: disk I/O error"
    );
}

#[test]
fn blank_transcript_needs_no_call() {
    assert!(matches!(
        plan_live_summary(found(true, "llama3"), " \n ", Some("- x")),
        LiveSummaryPlan::NothingToSummarize
    ));
}

#[test]
fn live_summary_generates_with_the_trimmed_model() {
    match plan_live_summary(found(true, " llama3 "), "We kicked off.", None) {
        LiveSummaryPlan::Generate { model_name, system_prompt, user_prompt } => {
            assert_eq!(model_name, "llama3");
            assert_eq!(system_prompt, LIVE_SUMMARY_SYSTEM_PROMPT);
            assert_eq!(user_prompt, build_live_summary_prompt("We kicked off.", None).1);
        }
        other => panic!("unexpected {:?}", other),
    }
}

#[test]
fn live_summary_reply_is_stripped_or_reported() {
    assert_eq!(live_summary_result(LiveSummaryReply::Cleaned(" - Shipped \n".to_string())), Ok("- Shipped".to_string()));
    assert_eq!(live_summary_result(LiveSummaryReply::Cleaned("- **NOTHING_NEW**".to_string())), Ok(String::new()));
    assert_eq!(live_summary_result(LiveSummaryReply::Failed("model not found".to_string())), Err("model not found".to_string()));
    assert_eq!(live_summary_result(LiveSummaryReply::TimedOut), Err("Live summary timed out".to_string()));
}
