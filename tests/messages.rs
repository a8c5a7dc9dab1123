use zulip_buildkite_bot::event::{
    BuildkiteAuthor, BuildkiteBuild, BuildkiteJob, BuildkitePipeline, BuildkiteProvider,
    BuildkiteProviderSettings, BuildkiteWebhookEvent,
};
use zulip_buildkite_bot::render::{format_buildkite_message, format_buildkite_topic};
use zulip_buildkite_bot::route::determine_target_stream;

#[test]
fn test_format_build_started_message() {
    let event = BuildkiteWebhookEvent {
        event: "build.started".to_string(),
        build: Some(BuildkiteBuild {
            id: Some("abc123".to_string()),
            number: Some(42),
            state: None,
            message: Some("Add new feature for user authentication".to_string()),
            commit: Some("abcdef1234567890".to_string()),
            branch: Some("feature/auth-improvements".to_string()),
            url: Some("https://api.buildkite.com/v2/builds/123".to_string()),
            web_url: Some("https://buildkite.com/org/pipeline/builds/42".to_string()),
            author: Some(BuildkiteAuthor {
                name: Some("Alice Developer".to_string()),
                email: Some("alice@example.com".to_string()),
            }),
        }),
        agent: None,
        annotation: None,
        job: None,
        pipeline: Some(BuildkitePipeline {
            id: Some("pipeline123".to_string()),
            name: Some("My Pipeline".to_string()),
            slug: Some("my-pipeline".to_string()),
            url: Some("https://api.buildkite.com/v2/pipelines/123".to_string()),
            web_url: Some("https://buildkite.com/org/my-pipeline".to_string()),
            repository: None,
            provider: Some(BuildkiteProvider {
                id: Some("github".to_string()),
                settings: Some(BuildkiteProviderSettings {
                    repository: Some("my-org/my-repo".to_string()),
                }),
                repository_url: Some("https://github.com/my-org/my-repo".to_string()),
            }),
        }),
    };

    let message = format_buildkite_message(&event);
    assert!(
        message
            .contains("🔄 Build [#42](https://buildkite.com/org/pipeline/builds/42) started")
    );
    assert!(message.contains("> Add new feature for user authentication"));
    assert!(
        message
            .contains("([abcdef1](https://github.com/my-org/my-repo/commit/abcdef1234567890))")
    ); // GitHub commit link
    assert!(!message.contains("```spoiler")); // No spoiler details
    assert!(!message.contains("Details")); // No details section
}

#[test]
fn test_format_build_started_no_message() {
    let event = BuildkiteWebhookEvent {
        event: "build.started".to_string(),
        build: Some(BuildkiteBuild {
            id: Some("abc123".to_string()),
            number: Some(42),
            state: None,
            message: None, // No commit message
            commit: Some("abcdef1234567890".to_string()),
            branch: Some("main".to_string()),
            url: Some("https://api.buildkite.com/v2/builds/123".to_string()),
            web_url: Some("https://buildkite.com/org/pipeline/builds/42".to_string()),
            author: Some(BuildkiteAuthor {
                name: Some("Alice Developer".to_string()),
                email: Some("alice@example.com".to_string()),
            }),
        }),
        agent: None,
        annotation: None,
        job: None,
        pipeline: None,
    };

    let message = format_buildkite_message(&event);
    assert_eq!(
        message,
        "🔄 Build [#42](https://buildkite.com/org/pipeline/builds/42) started"
    );
    assert!(!message.contains(">")); // No quote block when no message
}

#[test]
fn test_format_build_finished_passed() {
    let event = BuildkiteWebhookEvent {
        event: "build.finished".to_string(),
        build: Some(BuildkiteBuild {
            id: Some("abc123".to_string()),
            number: Some(42),
            state: Some("passed".to_string()),
            message: Some("Fix the thing".to_string()),
            commit: Some("abcdef1234567890".to_string()),
            branch: Some("main".to_string()),
            url: Some("https://api.buildkite.com/v2/builds/123".to_string()),
            web_url: Some("https://buildkite.com/org/pipeline/builds/42".to_string()),
            author: Some(BuildkiteAuthor {
                name: Some("John Doe".to_string()),
                email: Some("john@example.com".to_string()),
            }),
        }),
        agent: None,
        annotation: None,
        job: None,
        pipeline: None,
    };

    let message = format_buildkite_message(&event);
    assert!(message.contains("✅ Build [#42]"));
    assert!(message.contains("passed"));
    assert!(!message.contains("```spoiler")); // No spoiler details
}

#[test]
fn test_format_build_finished_failed() {
    let event = BuildkiteWebhookEvent {
        event: "build.finished".to_string(),
        build: Some(BuildkiteBuild {
            id: None,
            number: Some(42),
            state: Some("failed".to_string()),
            message: None,
            commit: None,
            branch: None,
            url: None,
            web_url: None,
            author: None,
        }),
        agent: None,
        annotation: None,
        job: None,
        pipeline: None,
    };

    let message = format_buildkite_message(&event);
    assert!(message.contains("❌ Build [#42]"));
    assert!(message.contains("failed"));
    assert!(!message.contains("```spoiler")); // No spoiler details
}

#[test]
fn test_format_job_finished() {
    // Test failed job (should be forwarded)
    let failed_event = BuildkiteWebhookEvent {
        event: "job.finished".to_string(),
        build: None,
        job: Some(BuildkiteJob {
            id: Some("job123".to_string()),
            name: Some("Test Suite".to_string()),
            command: Some("npm test".to_string()),
            state: Some("failed".to_string()),
            exit_status: Some(1),
            web_url: Some("https://buildkite.com/org/pipeline/builds/42#job123".to_string()),
        }),
        agent: None,
        annotation: None,
        pipeline: None,
    };

    let message = format_buildkite_message(&failed_event);
    assert!(message.contains("❌ Job ['Test Suite']"));
    assert!(message.contains("failed"));
    assert!(message.contains("(https://buildkite.com/org/pipeline/builds/42#job123)"));

    // Test successful job (should be filtered out)
    let success_event = BuildkiteWebhookEvent {
        event: "job.finished".to_string(),
        build: None,
        job: Some(BuildkiteJob {
            id: Some("job123".to_string()),
            name: Some("Test Suite".to_string()),
            command: Some("npm test".to_string()),
            state: Some("passed".to_string()),
            exit_status: Some(0),
            web_url: Some("https://buildkite.com/org/pipeline/builds/42#job123".to_string()),
        }),
        agent: None,
        annotation: None,
        pipeline: None,
    };

    let success_message = format_buildkite_message(&success_event);
    assert!(success_message.is_empty()); // Should be empty (filtered)
}

#[test]
fn test_format_buildkite_topic() {
    let event_with_pipeline_and_build = BuildkiteWebhookEvent {
        event: "build.started".to_string(),
        build: Some(BuildkiteBuild {
            id: None,
            number: Some(42),
            state: None,
            message: None,
            commit: None,
            branch: None,
            url: None,
            web_url: None,
            author: None,
        }),
        agent: None,
        annotation: None,
        job: None,
        pipeline: Some(BuildkitePipeline {
            id: None,
            name: Some("My Pipeline".to_string()),
            slug: None,
            url: None,
            web_url: None,
            repository: None,
            provider: None,
        }),
    };

    let topic = format_buildkite_topic(&event_with_pipeline_and_build);
    assert_eq!(topic, "My Pipeline - Build");

    let event_with_build_only = BuildkiteWebhookEvent {
        event: "build.started".to_string(),
        build: Some(BuildkiteBuild {
            id: None,
            number: Some(42),
            state: None,
            message: None,
            commit: None,
            branch: None,
            url: None,
            web_url: None,
            author: None,
        }),
        agent: None,
        annotation: None,
        job: None,
        pipeline: None,
    };

    let topic = format_buildkite_topic(&event_with_build_only);
    assert_eq!(topic, "Build");

    let event_with_pipeline_only = BuildkiteWebhookEvent {
        event: "job.finished".to_string(),
        build: None,
        job: None,
        pipeline: Some(BuildkitePipeline {
            id: None,
            name: Some("My Pipeline".to_string()),
            slug: None,
            url: None,
            web_url: None,
            repository: None,
            provider: None,
        }),
        agent: None,
        annotation: None,
    };

    let topic = format_buildkite_topic(&event_with_pipeline_only);
    assert_eq!(topic, "My Pipeline - Build");
}

#[test]
fn test_determine_target_stream() {
    // Test lang- prefix
    let lang_event = BuildkiteWebhookEvent {
        event: "build.started".to_string(),
        build: None,
        job: None,
        pipeline: Some(BuildkitePipeline {
            id: None,
            name: Some("lang-foo-x-private".to_string()),
            slug: None,
            url: None,
            web_url: None,
            repository: None,
            provider: None,
        }),
        agent: None,
        annotation: None,
    };

    assert_eq!(determine_target_stream(&lang_event, "default"), "foo");

    // Test keyboard- prefix
    let keyboard_event = BuildkiteWebhookEvent {
        event: "build.started".to_string(),
        build: None,
        job: None,
        pipeline: Some(BuildkitePipeline {
            id: None,
            name: Some("keyboard-bar-public".to_string()),
            slug: None,
            url: None,
            web_url: None,
            repository: None,
            provider: None,
        }),
        agent: None,
        annotation: None,
    };

    assert_eq!(determine_target_stream(&keyboard_event, "default"), "bar");

    // Test case insensitive
    let mixed_case_event = BuildkiteWebhookEvent {
        event: "build.started".to_string(),
        build: None,
        job: None,
        pipeline: Some(BuildkitePipeline {
            id: None,
            name: Some("Lang-Baz-Something".to_string()),
            slug: None,
            url: None,
            web_url: None,
            repository: None,
            provider: None,
        }),
        agent: None,
        annotation: None,
    };

    assert_eq!(determine_target_stream(&mixed_case_event, "default"), "baz");

    // Test default fallback for other pipelines
    let other_event = BuildkiteWebhookEvent {
        event: "build.started".to_string(),
        build: None,
        job: None,
        pipeline: Some(BuildkitePipeline {
            id: None,
            name: Some("regular-pipeline".to_string()),
            slug: None,
            url: None,
            web_url: None,
            repository: None,
            provider: None,
        }),
        agent: None,
        annotation: None,
    };

    assert_eq!(
        determine_target_stream(&other_event, "buildkite"),
        "buildkite"
    );

    // Test no pipeline
    let no_pipeline_event = BuildkiteWebhookEvent {
        event: "build.started".to_string(),
        build: None,
        job: None,
        pipeline: None,
        agent: None,
        annotation: None,
    };

    assert_eq!(
        determine_target_stream(&no_pipeline_event, "buildkite"),
        "buildkite"
    );
}

#[test]
fn test_format_job_scheduled_no_name() {
    let event = BuildkiteWebhookEvent {
        event: "job.scheduled".to_string(),
        build: None,
        job: Some(BuildkiteJob {
            id: Some("019884c5-7882-4b50-a31e-fdad05e19604".to_string()),
            name: None, // No name like in real Buildkite webhook
            command: Some("cargo build --bin box --release\nbuildkite-agent artifact upload target/release/box".to_string()),
            state: Some("scheduled".to_string()),
            exit_status: None,
            web_url: Some("https://buildkite.com/divvun/box/builds/3#019884c5-7882-4b50-a31e-fdad05e19604".to_string()),
        }),
        agent: None,
        annotation: None,
        pipeline: None,
    };

    let message = format_buildkite_message(&event);
    assert!(message.is_empty()); // Filtered out
}

#[test]
fn test_job_events_filtering() {
    // Test that non-failure job events are filtered out
    let scheduled_event = BuildkiteWebhookEvent {
        event: "job.scheduled".to_string(),
        build: None,
        job: Some(BuildkiteJob {
            id: Some("job123".to_string()),
            name: Some("Test Job".to_string()),
            command: Some("npm test".to_string()),
            state: Some("scheduled".to_string()),
            exit_status: None,
            web_url: Some("https://buildkite.com/org/pipeline/builds/42#job123".to_string()),
        }),
        agent: None,
        annotation: None,
        pipeline: None,
    };

    let message = format_buildkite_message(&scheduled_event);
    assert!(message.is_empty()); // Should be filtered out

    let started_event = BuildkiteWebhookEvent {
        event: "job.started".to_string(),
        build: None,
        job: Some(BuildkiteJob {
            id: Some("job123".to_string()),
            name: Some("Test Job".to_string()),
            command: Some("npm test".to_string()),
            state: Some("running".to_string()),
            exit_status: None,
            web_url: Some("https://buildkite.com/org/pipeline/builds/42#job123".to_string()),
        }),
        agent: None,
        annotation: None,
        pipeline: None,
    };

    let started_message = format_buildkite_message(&started_event);
    assert!(started_message.is_empty()); // Should be filtered out
}

#[test]
fn test_format_build_scheduled_message() {
    let event = BuildkiteWebhookEvent {
        event: "build.scheduled".to_string(),
        build: Some(BuildkiteBuild {
            id: Some("abc123".to_string()),
            number: Some(42),
            state: Some("scheduled".to_string()),
            message: Some("Add new feature for user authentication".to_string()),
            commit: Some("abcdef1234567890".to_string()),
            branch: Some("feature/auth-improvements".to_string()),
            url: Some("https://api.buildkite.com/v2/builds/123".to_string()),
            web_url: Some("https://buildkite.com/org/pipeline/builds/42".to_string()),
            author: Some(BuildkiteAuthor {
                name: Some("Alice Developer".to_string()),
                email: Some("alice@example.com".to_string()),
            }),
        }),
        agent: None,
        annotation: None,
        job: None,
        pipeline: Some(BuildkitePipeline {
            id: Some("pipeline123".to_string()),
            name: Some("My Pipeline".to_string()),
            slug: Some("my-pipeline".to_string()),
            url: Some("https://api.buildkite.com/v2/pipelines/123".to_string()),
            web_url: Some("https://buildkite.com/org/my-pipeline".to_string()),
            repository: None,
            provider: Some(BuildkiteProvider {
                id: Some("github".to_string()),
                settings: Some(BuildkiteProviderSettings {
                    repository: Some("my-org/my-repo".to_string()),
                }),
                repository_url: Some("https://github.com/my-org/my-repo".to_string()),
            }),
        }),
    };

    let message = format_buildkite_message(&event);
    assert!(
        message
            .contains("📅 Build [#42](https://buildkite.com/org/pipeline/builds/42) scheduled")
    );
    assert!(message.contains("> Add new feature for user authentication"));
    assert!(
        message
            .contains("([abcdef1](https://github.com/my-org/my-repo/commit/abcdef1234567890))")
    ); // GitHub commit link
}
