//! Sample events, for trying a running service end to end.
use vstd::prelude::*;
use vstd::string::*;
use crate::event::{
    BuildkiteAuthor, BuildkiteBuild, BuildkiteJob, BuildkitePipeline, BuildkiteProvider,
    BuildkiteProviderSettings, BuildkiteWebhookEvent,
};
use crate::repo::repo_url;
use crate::route::{lower_of, lowercase};
use crate::text::{decimal, push_decimal, str_eq};

verus! {

/// An optional field that holds exactly the text `t`.
pub open spec fn holds(o: Option<String>, t: Seq<char>) -> bool {
    o is Some && o->Some_0@ == t
}

/// A text with every space turned into a dot.
pub open spec fn dotted(s: Seq<char>) -> Seq<char> {
    s.map_values(|c: char| if c == ' ' { '.' } else { c })
}

/// `<prefix><n>`.
pub fn numbered(prefix: &str, n: i32) -> (r: String)
    ensures
        r@ == prefix@ + decimal(n as int),
{
    let mut out = String::from_str(prefix);
    push_decimal(&mut out, n);
    out
}

/// The text with every space turned into a dot.
pub fn spaces_to_dots(s: &str) -> (r: String)
    ensures
        r@ == dotted(s@),
{
    let n = s.unicode_len();
    let mut out = String::new();
    let mut i: usize = 0;
    while i < n
        invariant
            n == s@.len(),
            0 <= i <= n,
            out@ == dotted(s@.subrange(0, i as int)),
        decreases n - i,
    {
        let ghost before = out@;
        if s.get_char(i) == ' ' {
            out.append(".");
            proof {
                reveal_strlit(".");
            }
        } else {
            out.append(s.substring_char(i, i + 1));
        }
        assert(s@.subrange(0, i + 1) == s@.subrange(0, i as int).push(s@[i as int]));
        assert(out@ =~= dotted(s@.subrange(0, i + 1)));
        i = i + 1;
    }
    assert(s@.subrange(0, n as int) == s@);
    out
}

/// The sample pipeline `name`, kept under `slug`, whose repository is
/// `my-org/my-repo` on GitHub in all three forms.
fn sample_pipeline(id: &str, name: &str, slug: &str) -> (r: BuildkitePipeline)
    ensures
        holds(r.name, name@),
        holds(r.slug, slug@),
        repo_url(r) == Some("https://github.com/my-org/my-repo"@),
{
    let mut url = String::from_str("https://api.buildkite.com/v2/organizations/my-org/pipelines/");
    url.append(slug);
    let mut web_url = String::from_str("https://buildkite.com/my-org/");
    web_url.append(slug);
    BuildkitePipeline {
        id: Some(String::from_str(id)),
        name: Some(String::from_str(name)),
        slug: Some(String::from_str(slug)),
        url: Some(url),
        web_url: Some(web_url),
        repository: Some(String::from_str("git@github.com:my-org/my-repo.git")),
        provider: Some(
            BuildkiteProvider {
                id: Some(String::from_str("github")),
                settings: Some(
                    BuildkiteProviderSettings {
                        repository: Some(String::from_str("my-org/my-repo")),
                    },
                ),
                repository_url: Some(String::from_str("https://github.com/my-org/my-repo")),
            },
        ),
    }
}

/// A build of `slug` in the given state, with its commit and message.
fn sample_build(
    id_prefix: &str,
    slug: &str,
    state: &str,
    message: &str,
    commit: &str,
    author: &str,
    email: String,
    branch: &str,
    build_number: i32,
) -> (r: BuildkiteBuild)
    ensures
        r.number == Some(build_number),
        holds(r.id, id_prefix@ + decimal(build_number as int)),
        holds(r.state, state@),
        holds(r.message, message@),
        holds(r.commit, commit@),
        holds(r.branch, branch@),
        holds(r.web_url, "https://buildkite.com/my-org/"@ + slug@ + "/builds/"@ + decimal(
            build_number as int,
        )),
        r.author is Some,
        holds(r.author->Some_0.name, author@),
        r.author->Some_0.email == Some(email),
{
    let mut url = String::from_str("https://api.buildkite.com/v2/organizations/my-org/pipelines/");
    url.append(slug);
    url.append("/builds/");
    let mut web_url = String::from_str("https://buildkite.com/my-org/");
    web_url.append(slug);
    web_url.append("/builds/");
    let web_url = numbered(web_url.as_str(), build_number);
    assert(web_url@ =~= "https://buildkite.com/my-org/"@ + slug@ + "/builds/"@ + decimal(
        build_number as int,
    ));
    BuildkiteBuild {
        id: Some(numbered(id_prefix, build_number)),
        number: Some(build_number),
        state: Some(String::from_str(state)),
        message: Some(String::from_str(message)),
        commit: Some(String::from_str(commit)),
        branch: Some(String::from_str(branch)),
        url: Some(numbered(url.as_str(), build_number)),
        web_url: Some(web_url),
        author: Some(BuildkiteAuthor { name: Some(String::from_str(author)), email: Some(email) }),
    }
}

/// A build of `slug` that has just started.
fn sample_started_event(
    id_prefix: &str,
    slug: &str,
    pipeline: BuildkitePipeline,
    message: &str,
    commit: &str,
    author: &str,
    email: &str,
    branch: &str,
    build_number: i32,
) -> (r: BuildkiteWebhookEvent)
    ensures
        r.event@ == "build.started"@,
        r.build is Some,
        r.build->Some_0.number == Some(build_number),
        holds(r.build->Some_0.state, "running"@),
        holds(r.build->Some_0.message, message@),
        holds(r.build->Some_0.commit, commit@),
        holds(r.build->Some_0.web_url, "https://buildkite.com/my-org/"@ + slug@ + "/builds/"@
            + decimal(build_number as int)),
        r.pipeline == Some(pipeline),
        r.job is None,
        r.agent is None,
        r.annotation is None,
{
    BuildkiteWebhookEvent {
        event: String::from_str("build.started"),
        build: Some(
            sample_build(
                id_prefix,
                slug,
                "running",
                message,
                commit,
                author,
                String::from_str(email),
                branch,
                build_number,
            ),
        ),
        agent: None,
        annotation: None,
        job: None,
        pipeline: Some(pipeline),
    }
}

/// The sample pipeline that most sample events belong to.
pub open spec fn awesome_pipeline_name() -> Seq<char> {
    "My Awesome Pipeline"@
}

/// A build that has started on the sample pipeline.
pub fn create_mock_build_started(build_number: i32) -> (r: BuildkiteWebhookEvent)
    ensures
        r.event@ == "build.started"@,
        r.build is Some,
        r.build->Some_0.number == Some(build_number),
        holds(r.build->Some_0.message, "Add new feature for user authentication"@),
        holds(r.build->Some_0.commit, "a1b2c3d4e5f6789012345678901234567890abcd"@),
        r.pipeline is Some,
        holds(r.pipeline->Some_0.name, awesome_pipeline_name()),
        repo_url(r.pipeline->Some_0) == Some("https://github.com/my-org/my-repo"@),
        r.job is None,
{
    let pipeline = sample_pipeline("pipeline-123", "My Awesome Pipeline", "my-awesome-pipeline");
    sample_started_event(
        "build-started-",
        "my-pipeline",
        pipeline,
        "Add new feature for user authentication",
        "a1b2c3d4e5f6789012345678901234567890abcd",
        "Alice Developer",
        "alice@example.com",
        "feature/auth-improvements",
        build_number,
    )
}

/// The commit message of the sample finished build in a state.
pub open spec fn finished_sample_message(state: Seq<char>) -> Seq<char> {
    if state == "passed"@ {
        "Fix critical security vulnerability"@
    } else if state == "failed"@ {
        "Update dependencies to latest versions"@
    } else if state == "canceled"@ {
        "Refactor database connection handling"@
    } else {
        "Unknown build message"@
    }
}

/// The author of the sample finished build in a state.
pub open spec fn finished_sample_author(state: Seq<char>) -> Seq<char> {
    if state == "passed"@ {
        "Bob Tester"@
    } else if state == "failed"@ {
        "Charlie Developer"@
    } else if state == "canceled"@ {
        "Dana Engineer"@
    } else {
        "Unknown Author"@
    }
}

/// Commit, message and author of the sample finished build in a state.
fn finished_sample(state: &str) -> (r: (&'static str, &'static str, &'static str))
    ensures
        r.1@ == finished_sample_message(state@),
        r.2@ == finished_sample_author(state@),
{
    if str_eq(state, "passed") {
        (
            "b2c3d4e5f6789012345678901234567890abcdef",
            "Fix critical security vulnerability",
            "Bob Tester",
        )
    } else if str_eq(state, "failed") {
        (
            "c3d4e5f6789012345678901234567890abcdef12",
            "Update dependencies to latest versions",
            "Charlie Developer",
        )
    } else if str_eq(state, "canceled") {
        (
            "d4e5f6789012345678901234567890abcdef1234",
            "Refactor database connection handling",
            "Dana Engineer",
        )
    } else {
        ("unknown1234567890abcdef1234567890abcdef12", "Unknown build message", "Unknown Author")
    }
}

/// A build of the sample pipeline that finished in `state`; its author's
/// address is the lower-cased name with dots for spaces.
pub fn create_mock_build_finished(state: &str, build_number: i32) -> (r: BuildkiteWebhookEvent)
    ensures
        r.event@ == "build.finished"@,
        r.build is Some,
        r.build->Some_0.number == Some(build_number),
        holds(r.build->Some_0.state, state@),
        holds(r.build->Some_0.id, "build-"@ + state@ + "-"@ + decimal(build_number as int)),
        holds(r.build->Some_0.message, finished_sample_message(state@)),
        r.build->Some_0.author is Some,
        holds(r.build->Some_0.author->Some_0.name, finished_sample_author(state@)),
        holds(
            r.build->Some_0.author->Some_0.email,
            dotted(lower_of(finished_sample_author(state@))) + "@example.com"@,
        ),
        r.pipeline is Some,
        holds(r.pipeline->Some_0.name, awesome_pipeline_name()),
        r.job is None,
{
    let (commit, message, author) = finished_sample(state);
    let mut email = spaces_to_dots(lowercase(author).as_str());
    email.append("@example.com");
    let mut id_prefix = String::from_str("build-");
    id_prefix.append(state);
    id_prefix.append("-");
    let build = sample_build(
        id_prefix.as_str(),
        "my-pipeline",
        state,
        message,
        commit,
        author,
        email,
        "main",
        build_number,
    );
    BuildkiteWebhookEvent {
        event: String::from_str("build.finished"),
        build: Some(build),
        agent: None,
        annotation: None,
        job: None,
        pipeline: Some(
            sample_pipeline("pipeline-123", "My Awesome Pipeline", "my-awesome-pipeline"),
        ),
    }
}

/// A job of the sample pipeline that finished with `exit_status`: the unit
/// tests when it is zero, the linter otherwise.
pub fn create_mock_job_finished(exit_status: i32, build_number: i32) -> (r: BuildkiteWebhookEvent)
    ensures
        r.event@ == "job.finished"@,
        r.job is Some,
        r.job->Some_0.exit_status == Some(exit_status),
        holds(r.job->Some_0.name, if exit_status == 0 { "Unit Tests"@ } else { "Linting"@ }),
        holds(r.job->Some_0.state, if exit_status == 0 { "passed"@ } else { "failed"@ }),
        holds(r.job->Some_0.command, "npm test"@),
        r.job->Some_0.id is Some,
        holds(
            r.job->Some_0.web_url,
            "https://buildkite.com/my-org/my-pipeline/builds/"@ + decimal(build_number as int)
                + "#"@ + r.job->Some_0.id->Some_0@,
        ),
        r.build is None,
        r.pipeline is Some,
        holds(r.pipeline->Some_0.name, awesome_pipeline_name()),
{
    let job_name = if exit_status == 0 {
        "Unit Tests"
    } else {
        "Linting"
    };
    let job_id = if exit_status == 0 {
        "job-tests-123"
    } else {
        "job-lint-456"
    };
    let state = if exit_status == 0 {
        "passed"
    } else {
        "failed"
    };
    let mut web_url = numbered("https://buildkite.com/my-org/my-pipeline/builds/", build_number);
    web_url.append("#");
    web_url.append(job_id);
    BuildkiteWebhookEvent {
        event: String::from_str("job.finished"),
        build: None,
        job: Some(
            BuildkiteJob {
                id: Some(String::from_str(job_id)),
                name: Some(String::from_str(job_name)),
                command: Some(String::from_str("npm test")),
                state: Some(String::from_str(state)),
                exit_status: Some(exit_status),
                web_url: Some(web_url),
            },
        ),
        pipeline: Some(
            sample_pipeline("pipeline-123", "My Awesome Pipeline", "my-awesome-pipeline"),
        ),
        agent: None,
        annotation: None,
    }
}

/// A build that has started on a language pipeline, which is routed to the
/// stream named in its pipeline's name.
pub fn create_mock_lang_pipeline_event(build_number: i32) -> (r: BuildkiteWebhookEvent)
    ensures
        r.event@ == "build.started"@,
        r.build is Some,
        r.build->Some_0.number == Some(build_number),
        holds(r.build->Some_0.message, "Update language pack translations"@),
        r.pipeline is Some,
        holds(r.pipeline->Some_0.name, "lang-sami-x-private"@),
        repo_url(r.pipeline->Some_0) == Some("https://github.com/my-org/my-repo"@),
{
    let pipeline = sample_pipeline(
        "lang-pipeline-123",
        "lang-sami-x-private",
        "lang-sami-x-private",
    );
    sample_started_event(
        "lang-build-",
        "lang-sami-x-private",
        pipeline,
        "Update language pack translations",
        "lang123456789012345678901234567890abcd",
        "Language Team",
        "lang@example.com",
        "main",
        build_number,
    )
}

/// A build that has started on a keyboard pipeline, which is routed to the
/// stream named in its pipeline's name.
pub fn create_mock_keyboard_pipeline_event(build_number: i32) -> (r: BuildkiteWebhookEvent)
    ensures
        r.event@ == "build.started"@,
        r.build is Some,
        r.build->Some_0.number == Some(build_number),
        holds(r.build->Some_0.message, "Update keyboard layout definitions"@),
        r.pipeline is Some,
        holds(r.pipeline->Some_0.name, "keyboard-finnish-public"@),
        repo_url(r.pipeline->Some_0) == Some("https://github.com/my-org/my-repo"@),
{
    let pipeline = sample_pipeline(
        "keyboard-pipeline-123",
        "keyboard-finnish-public",
        "keyboard-finnish-public",
    );
    sample_started_event(
        "keyboard-build-",
        "keyboard-finnish-public",
        pipeline,
        "Update keyboard layout definitions",
        "kbd123456789012345678901234567890abcd",
        "Keyboard Team",
        "keyboard@example.com",
        "main",
        build_number,
    )
}

/// The kinds of the sample events that a sample set named `name` holds, in
/// the order they are sent; nothing for a name that is not known.
pub open spec fn sample_tags(name: Seq<char>) -> Option<Seq<Seq<char>>> {
    if name == "build-started"@ || name == "lang-routing"@ || name == "keyboard-routing"@ {
        Some(seq!["build.started"@])
    } else if name == "build-passed"@ || name == "build-failed"@ || name == "build-canceled"@ {
        Some(seq!["build.finished"@])
    } else if name == "job-passed"@ || name == "job-failed"@ {
        Some(seq!["job.finished"@])
    } else if name == "all"@ || name == "scenario"@ {
        Some(seq!["build.started"@, "job.finished"@, "job.finished"@, "build.finished"@])
    } else {
        None
    }
}

/// The sample events of the set named `name`, for build `build_number`.
pub fn sample_events(name: &str, build_number: i32) -> (r: Option<Vec<BuildkiteWebhookEvent>>)
    ensures
        r is None <==> sample_tags(name@) is None,
        r matches Some(v) ==> v@.len() == sample_tags(name@)->Some_0.len() && forall|i: int|
            0 <= i < v@.len() ==> #[trigger] v@[i].event@ == sample_tags(name@)->Some_0[i],
{
    let events = if str_eq(name, "build-started") || str_eq(name, "lang-routing") || str_eq(
        name,
        "keyboard-routing",
    ) {
        let e = if str_eq(name, "build-started") {
            create_mock_build_started(build_number)
        } else if str_eq(name, "lang-routing") {
            create_mock_lang_pipeline_event(build_number)
        } else {
            create_mock_keyboard_pipeline_event(build_number)
        };
        vec![e]
    } else if str_eq(name, "build-passed") || str_eq(name, "build-failed") || str_eq(
        name,
        "build-canceled",
    ) {
        let state = if str_eq(name, "build-passed") {
            "passed"
        } else if str_eq(name, "build-failed") {
            "failed"
        } else {
            "canceled"
        };
        vec![create_mock_build_finished(state, build_number)]
    } else if str_eq(name, "job-passed") || str_eq(name, "job-failed") {
        let exit_status: i32 = if str_eq(name, "job-passed") {
            0
        } else {
            1
        };
        vec![create_mock_job_finished(exit_status, build_number)]
    } else if str_eq(name, "all") || str_eq(name, "scenario") {
        let last = if str_eq(name, "all") {
            "passed"
        } else {
            "failed"
        };
        vec![
            create_mock_build_started(build_number),
            create_mock_job_finished(0, build_number),
            create_mock_job_finished(1, build_number),
            create_mock_build_finished(last, build_number),
        ]
    } else {
        return None;
    };
    Some(events)
}

} // verus!
