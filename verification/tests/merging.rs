use aw_watcher_window::merger::MergerState;
use aw_watcher_window::pipeline::tick;
use aw_watcher_window::rules::RuleSet;
use aw_watcher_window::sample::ActivitySample;

fn sample(app: &str, title: &str) -> ActivitySample {
    ActivitySample::new(String::from(app), String::from(title))
}

#[test]
fn cold_start_emits_exactly_one_heartbeat() {
    let mut m = MergerState::new();
    let out = m.step(sample("chrome.exe", "Docs"), 0);
    assert_eq!(out.len(), 1);
    assert_eq!(out[0].sample.app, "chrome.exe");
    assert_eq!(out[0].sample.title, "Docs");
    assert_eq!(out[0].timestamp_ms, 0);
    assert_eq!(out[0].duration_ms, 0);
}

#[test]
fn continuation_emits_one_later_heartbeat_per_step() {
    let mut m = MergerState::new();
    let first = m.step(sample("chrome.exe", "Docs"), 0);
    let second = m.step(sample("chrome.exe", "Docs"), 5000);
    assert_eq!(first.len(), 1);
    assert_eq!(second.len(), 1);
    assert_eq!(first[0].sample.app, second[0].sample.app);
    assert_eq!(first[0].sample.title, second[0].sample.title);
    assert!(second[0].timestamp_ms > first[0].timestamp_ms);
    assert_eq!(second[0].timestamp_ms, 5000);
}

#[test]
fn transition_emits_close_then_open() {
    let mut m = MergerState::new();
    let _ = m.step(sample("chrome.exe", "Docs"), 1000);
    let out = m.step(sample("code.exe", "main.rs"), 2000);
    assert_eq!(out.len(), 2);
    assert_eq!(out[0].sample.app, "chrome.exe");
    assert_eq!(out[0].sample.title, "Docs");
    assert_eq!(out[0].timestamp_ms, 1999);
    assert_eq!(out[1].sample.app, "code.exe");
    assert_eq!(out[1].sample.title, "main.rs");
    assert_eq!(out[1].timestamp_ms, 2000);
}

#[test]
fn transition_updates_tracked_state() {
    let mut m = MergerState::new();
    let _ = m.step(sample("chrome.exe", "Docs"), 1000);
    let _ = m.step(sample("code.exe", "main.rs"), 2000);
    // The tracked sample is now the new one: feeding it again continues.
    let out = m.step(sample("code.exe", "main.rs"), 3000);
    assert_eq!(out.len(), 1);
    assert_eq!(out[0].sample.app, "code.exe");
    assert_eq!(out[0].timestamp_ms, 3000);
}

#[test]
fn title_change_alone_is_a_transition() {
    let mut m = MergerState::new();
    let _ = m.step(sample("chrome.exe", "Docs"), 1000);
    let out = m.step(sample("chrome.exe", "Mail"), 2000);
    assert_eq!(out.len(), 2);
    assert_eq!(out[0].sample.title, "Docs");
    assert_eq!(out[1].sample.title, "Mail");
}

#[test]
fn end_to_end_scenario() {
    let rules = RuleSet::new(false, vec![], vec![]);
    let mut m = MergerState::new();
    let ticks: Vec<(i64, &str, &str)> = vec![
        (0, "chrome.exe", "Docs"),
        (5000, "chrome.exe", "Docs"),
        (10000, "code.exe", "main.rs"),
    ];
    let mut emitted = Vec::new();
    for (now, app, title) in ticks {
        let obs = Some((String::from(app), String::from(title)));
        emitted.extend(tick(&mut m, obs, &rules, now));
    }
    let got: Vec<(String, String, i64)> = emitted
        .iter()
        .map(|e| (e.sample.app.clone(), e.sample.title.clone(), e.timestamp_ms))
        .collect();
    assert_eq!(
        got,
        vec![
            (String::from("chrome.exe"), String::from("Docs"), 0),
            (String::from("chrome.exe"), String::from("Docs"), 5000),
            (String::from("chrome.exe"), String::from("Docs"), 9999),
            (String::from("code.exe"), String::from("main.rs"), 10000),
        ]
    );
}

#[test]
fn tick_without_observation_is_skipped() {
    let rules = RuleSet::new(false, vec![], vec![]);
    let mut m = MergerState::new();
    let first = tick(
        &mut m,
        Some((String::from("chrome.exe"), String::from("Docs"))),
        &rules,
        0,
    );
    assert_eq!(first.len(), 1);
    let skipped = tick(&mut m, None, &rules, 5000);
    assert_eq!(skipped.len(), 0);
    // The merger still tracks the earlier sample: the same window continues.
    let third = tick(
        &mut m,
        Some((String::from("chrome.exe"), String::from("Docs"))),
        &rules,
        10000,
    );
    assert_eq!(third.len(), 1);
    assert_eq!(third[0].timestamp_ms, 10000);
}

#[test]
fn tick_applies_redaction_before_merging() {
    let rules = RuleSet::new(true, vec![], vec![]);
    let mut m = MergerState::new();
    let out = tick(
        &mut m,
        Some((String::from("secret.exe"), String::from("Confidential Plan"))),
        &rules,
        0,
    );
    assert_eq!(out.len(), 1);
    assert_eq!(out[0].sample.app, "secret.exe");
    assert_eq!(out[0].sample.title, "secret.exe");
}
