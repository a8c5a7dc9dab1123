use zulip_buildkite_bot::fixtures::{
    create_mock_build_finished, create_mock_build_started, create_mock_job_finished,
    create_mock_keyboard_pipeline_event, create_mock_lang_pipeline_event, numbered, sample_events,
    spaces_to_dots,
};
use zulip_buildkite_bot::render::{format_buildkite_message, format_buildkite_topic};
use zulip_buildkite_bot::route::determine_target_stream;

#[test]
fn sample_build_started_renders_with_link() {
    let e = create_mock_build_started(123);
    let m = format_buildkite_message(&e);
    assert_eq!(
        m,
        "🔄 Build [#123](https://buildkite.com/my-org/my-pipeline/builds/123) started\n> Add new feature for user authentication ([a1b2c3d](https://github.com/my-org/my-repo/commit/a1b2c3d4e5f6789012345678901234567890abcd))"
    );
    assert_eq!(format_buildkite_topic(&e), "My Awesome Pipeline - Build");
    let b = e.build.unwrap();
    assert_eq!(b.id.as_deref(), Some("build-started-123"));
    assert_eq!(
        b.url.as_deref(),
        Some("https://api.buildkite.com/v2/organizations/my-org/pipelines/my-pipeline/builds/123")
    );
}

#[test]
fn sample_finished_builds() {
    let e = create_mock_build_finished("failed", 7);
    assert_eq!(
        format_buildkite_message(&e),
        "❌ Build [#7](https://buildkite.com/my-org/my-pipeline/builds/7) failed"
    );
    let b = e.build.unwrap();
    assert_eq!(b.id.as_deref(), Some("build-failed-7"));
    let a = b.author.unwrap();
    assert_eq!(a.name.as_deref(), Some("Charlie Developer"));
    assert_eq!(a.email.as_deref(), Some("charlie.developer@example.com"));
    let e = create_mock_build_finished("weird", 7);
    let b = e.build.unwrap();
    assert_eq!(b.message.as_deref(), Some("Unknown build message"));
    assert_eq!(b.author.unwrap().email.as_deref(), Some("unknown.author@example.com"));
}

#[test]
fn sample_jobs() {
    let ok = create_mock_job_finished(0, 5);
    assert_eq!(format_buildkite_message(&ok), "");
    let bad = create_mock_job_finished(1, 5);
    assert_eq!(
        format_buildkite_message(&bad),
        "❌ Job ['Linting'](https://buildkite.com/my-org/my-pipeline/builds/5#job-lint-456) failed"
    );
}

#[test]
fn sample_routed_pipelines() {
    let e = create_mock_lang_pipeline_event(4);
    assert_eq!(determine_target_stream(&e, "buildkite"), "sami");
    let e = create_mock_keyboard_pipeline_event(4);
    assert_eq!(determine_target_stream(&e, "buildkite"), "finnish");
    assert_eq!(
        e.build.unwrap().web_url.as_deref(),
        Some("https://buildkite.com/my-org/keyboard-finnish-public/builds/4")
    );
}

#[test]
fn numbered_and_dotted_text() {
    assert_eq!(numbered("n-", -30), "n--30");
    assert_eq!(numbered("", 0), "0");
    assert_eq!(spaces_to_dots("a b  c"), "a.b..c");
}

#[test]
fn sample_sets_by_name() {
    let all = sample_events("all", 2).unwrap();
    let kinds: Vec<&str> = all.iter().map(|e| e.event.as_str()).collect();
    assert_eq!(kinds, ["build.started", "job.finished", "job.finished", "build.finished"]);
    let scenario = sample_events("scenario", 2).unwrap();
    assert_eq!(scenario[3].build.as_ref().unwrap().state.as_deref(), Some("failed"));
    let job = sample_events("job-failed", 2).unwrap();
    assert_eq!(job[0].job.as_ref().unwrap().exit_status, Some(1));
    assert!(sample_events("nope", 2).is_none());
}
