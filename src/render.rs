//! The text of a notification and the topic it is filed under.
use vstd::prelude::*;
use vstd::string::*;
use crate::event::{
    classify, kind_of, BuildkiteBuild, BuildkiteJob, BuildkiteWebhookEvent, EventKind,
};
use crate::job::{display_name, get_job_display_name};
use crate::repo::{get_github_repo_url, repo_url};
use crate::text::{blank, decimal, is_blank, prefix_chars, push_decimal, str_eq, take_at_most};

verus! {

/// The text of an optional field, or a placeholder.
pub open spec fn text_or(o: Option<String>, d: Seq<char>) -> Seq<char> {
    match o {
        Some(s) => s@,
        None => d,
    }
}

/// `<icon> Build [#<number>](<link>) <verb>`.
pub open spec fn build_header(icon: Seq<char>, b: BuildkiteBuild, verb: Seq<char>) -> Seq<char> {
    let n: int = match b.number {
        Some(n) => n as int,
        None => 0,
    };
    icon + " Build [#"@ + decimal(n) + "]("@ + text_or(b.web_url, "#"@) + ") "@ + verb
}

/// `<icon> Build <verb>`, for an event without build data.
pub open spec fn bare_build_line(icon: Seq<char>, verb: Seq<char>) -> Seq<char> {
    icon + " Build "@ + verb
}

/// A link to the built commit: ` ([<short sha>](<repo>/commit/<sha>))`, or
/// nothing when the commit or the repository address is unknown.
pub open spec fn commit_link(e: BuildkiteWebhookEvent, b: BuildkiteBuild) -> Seq<char> {
    if b.commit is Some && e.pipeline is Some && repo_url(e.pipeline->Some_0) is Some {
        let c = b.commit->Some_0@;
        " (["@ + take_at_most(c, 7) + "]("@ + repo_url(e.pipeline->Some_0)->Some_0 + "/commit/"@
            + c + "))"@
    } else {
        Seq::empty()
    }
}

/// The quoted commit message with its link, or nothing when the message is
/// absent or blank.
pub open spec fn commit_quote(e: BuildkiteWebhookEvent, b: BuildkiteBuild) -> Seq<char> {
    if b.message is Some && !blank(b.message->Some_0@) {
        "\n> "@ + b.message->Some_0@ + commit_link(e, b)
    } else {
        Seq::empty()
    }
}

/// A build that starts, is scheduled or created: the header and the quote.
pub open spec fn start_message(e: BuildkiteWebhookEvent, icon: Seq<char>, verb: Seq<char>) -> Seq<
    char,
> {
    match e.build {
        Some(b) => build_header(icon, b, verb) + commit_quote(e, b),
        None => bare_build_line(icon, verb),
    }
}

/// A build status change that is told in one line.
pub open spec fn status_message(e: BuildkiteWebhookEvent, icon: Seq<char>, verb: Seq<char>) -> Seq<
    char,
> {
    match e.build {
        Some(b) => build_header(icon, b, verb),
        None => bare_build_line(icon, verb),
    }
}

/// Icon for the state of a finished build.
pub open spec fn state_icon(s: Option<String>) -> Seq<char> {
    if s is Some && s->Some_0@ == "passed"@ {
        "✅"@
    } else if s is Some && s->Some_0@ == "failed"@ {
        "❌"@
    } else if s is Some && s->Some_0@ == "canceled"@ {
        "⏹️"@
    } else {
        "❓"@
    }
}

/// Word for the state of a finished build.
pub open spec fn state_word(s: Option<String>) -> Seq<char> {
    if s is Some && s->Some_0@ == "passed"@ {
        "passed"@
    } else if s is Some && s->Some_0@ == "failed"@ {
        "failed"@
    } else if s is Some && s->Some_0@ == "canceled"@ {
        "canceled"@
    } else {
        "finished"@
    }
}

pub open spec fn finished_message(e: BuildkiteWebhookEvent) -> Seq<char> {
    match e.build {
        Some(b) => build_header(state_icon(b.state), b, state_word(b.state)),
        None => "✅ Build finished"@,
    }
}

/// `<icon> Job ['<name>'](<link>) <verb>`.
pub open spec fn job_line(j: BuildkiteJob, icon: Seq<char>, verb: Seq<char>) -> Seq<char> {
    icon + " Job ['"@ + display_name(j) + "']("@ + text_or(j.web_url, "#"@) + ") "@ + verb
}

/// A finished job: nothing when it succeeded or carries no job data; a
/// failure when its exit status is not zero; neutral when it has none.
pub open spec fn job_message(e: BuildkiteWebhookEvent) -> Seq<char> {
    match e.job {
        None => Seq::empty(),
        Some(j) => match j.exit_status {
            Some(s) => if s == 0 {
                Seq::empty()
            } else {
                job_line(j, "❌"@, "failed"@)
            },
            None => job_line(j, "❓"@, "finished"@),
        },
    }
}

pub open spec fn agent_message(e: BuildkiteWebhookEvent, icon: Seq<char>, verb: Seq<char>) -> Seq<
    char,
> {
    match e.agent {
        Some(a) => icon + " Agent '"@ + text_or(a.name, "unknown"@) + "' "@ + verb + " ("@
            + text_or(a.hostname, "unknown host"@) + ")"@,
        None => icon + " Agent "@ + verb,
    }
}

/// Icon for an annotation's style.
pub open spec fn style_icon(s: Option<String>) -> Seq<char> {
    if s is Some && s->Some_0@ == "success"@ {
        "✅"@
    } else if s is Some && s->Some_0@ == "warning"@ {
        "⚠️"@
    } else if s is Some && s->Some_0@ == "error"@ {
        "❌"@
    } else if s is Some && s->Some_0@ == "info"@ {
        "ℹ️"@
    } else {
        "📝"@
    }
}

pub open spec fn annotation_message(e: BuildkiteWebhookEvent, verb: Seq<char>) -> Seq<char> {
    match e.annotation {
        Some(a) => style_icon(a.style) + " Annotation "@ + verb + ": "@ + text_or(
            a.context,
            "annotation"@,
        ),
        None => "📝"@ + " Annotation "@ + verb,
    }
}

pub open spec fn annotation_deleted_message(e: BuildkiteWebhookEvent) -> Seq<char> {
    match e.annotation {
        Some(a) => "🗑️ Annotation deleted: "@ + text_or(a.context, "annotation"@),
        None => "🗑️ Annotation deleted"@,
    }
}

pub open spec fn pipeline_message(e: BuildkiteWebhookEvent, icon: Seq<char>, verb: Seq<char>) -> Seq<
    char,
> {
    match e.pipeline {
        Some(p) => icon + " Pipeline '"@ + text_or(p.name, "unknown"@) + "' "@ + verb,
        None => icon + " Pipeline "@ + verb,
    }
}

/// The notification for an event; empty when the event is not forwarded.
pub open spec fn message_of(e: BuildkiteWebhookEvent) -> Seq<char> {
    match kind_of(e.event@) {
        EventKind::BuildStarted => start_message(e, "🔄"@, "started"@),
        EventKind::BuildScheduled => start_message(e, "📅"@, "scheduled"@),
        EventKind::BuildCreated => start_message(e, "🆕"@, "created"@),
        EventKind::BuildRunning => status_message(e, "🏃"@, "running"@),
        EventKind::BuildBlocked => status_message(e, "🚫"@, "blocked"@),
        EventKind::BuildUnblocked => status_message(e, "🟢"@, "unblocked"@),
        EventKind::BuildCanceled => status_message(e, "⏹️"@, "canceled"@),
        EventKind::BuildRebuilt => status_message(e, "🔁"@, "rebuilt"@),
        EventKind::BuildFinished => finished_message(e),
        EventKind::JobFinished => job_message(e),
        EventKind::JobIgnored => Seq::empty(),
        EventKind::AgentConnected => agent_message(e, "🟢"@, "connected"@),
        EventKind::AgentDisconnected => agent_message(e, "🔴"@, "disconnected"@),
        EventKind::AnnotationCreated => annotation_message(e, "created"@),
        EventKind::AnnotationUpdated => annotation_message(e, "updated"@),
        EventKind::AnnotationDeleted => annotation_deleted_message(e),
        EventKind::PipelineCreated => pipeline_message(e, "🆕"@, "created"@),
        EventKind::PipelineUpdated => pipeline_message(e, "📝"@, "updated"@),
        EventKind::PipelineDeleted => pipeline_message(e, "🗑️"@, "deleted"@),
        EventKind::Other => "📢 Buildkite event: "@ + e.event@,
    }
}

/// Events that are filtered out: job progress, and finished jobs that
/// succeeded or carry no job data.
pub open spec fn is_filtered(e: BuildkiteWebhookEvent) -> bool {
    match kind_of(e.event@) {
        EventKind::JobIgnored => true,
        EventKind::JobFinished => e.job is None || e.job->Some_0.exit_status == Some(0i32),
        _ => false,
    }
}

/// The topic of an event: `<pipeline name> - Build` when the pipeline has a
/// name, else `Build`.
pub open spec fn topic_of(e: BuildkiteWebhookEvent) -> Seq<char> {
    if e.pipeline is Some && e.pipeline->Some_0.name is Some {
        e.pipeline->Some_0.name->Some_0@ + " - Build"@
    } else {
        "Build"@
    }
}

fn text_or_else<'a>(o: &'a Option<String>, d: &'a str) -> (r: &'a str)
    ensures
        r@ == text_or(*o, d@),
{
    match o {
        Some(s) => s.as_str(),
        None => d,
    }
}

fn push_build_header(out: &mut String, icon: &str, b: &BuildkiteBuild, verb: &str)
    ensures
        final(out)@ == old(out)@ + build_header(icon@, *b, verb@),
{
    out.append(icon);
    out.append(" Build [#");
    let n: i32 = match b.number {
        Some(n) => n,
        None => 0,
    };
    push_decimal(out, n);
    out.append("](");
    out.append(text_or_else(&b.web_url, "#"));
    out.append(") ");
    out.append(verb);
    assert(out@ =~= old(out)@ + build_header(icon@, *b, verb@));
}

fn bare_build(icon: &str, verb: &str) -> (r: String)
    ensures
        r@ == bare_build_line(icon@, verb@),
{
    let mut out = String::from_str(icon);
    out.append(" Build ");
    out.append(verb);
    assert(out@ =~= bare_build_line(icon@, verb@));
    out
}

fn push_commit_link(out: &mut String, e: &BuildkiteWebhookEvent, b: &BuildkiteBuild)
    ensures
        final(out)@ == old(out)@ + commit_link(*e, *b),
{
    if let (Some(commit), Some(pipeline)) = (&b.commit, &e.pipeline) {
        if let Some(url) = get_github_repo_url(pipeline) {
            out.append(" ([");
            out.append(prefix_chars(commit.as_str(), 7));
            out.append("](");
            out.append(url.as_str());
            out.append("/commit/");
            out.append(commit.as_str());
            out.append("))");
            assert(out@ =~= old(out)@ + commit_link(*e, *b));
            return;
        }
    }
    assert(out@ =~= old(out)@ + commit_link(*e, *b));
}

fn start_text(e: &BuildkiteWebhookEvent, icon: &str, verb: &str) -> (r: String)
    ensures
        r@ == start_message(*e, icon@, verb@),
{
    match &e.build {
        Some(b) => {
            let mut out = String::new();
            push_build_header(&mut out, icon, b, verb);
            if let Some(m) = &b.message {
                if !is_blank(m.as_str()) {
                    let ghost head = out@;
                    out.append("\n> ");
                    out.append(m.as_str());
                    push_commit_link(&mut out, e, b);
                    assert(out@ =~= head + commit_quote(*e, *b));
                }
            }
            assert(out@ =~= build_header(icon@, *b, verb@) + commit_quote(*e, *b));
            out
        },
        None => bare_build(icon, verb),
    }
}

fn status_text(e: &BuildkiteWebhookEvent, icon: &str, verb: &str) -> (r: String)
    ensures
        r@ == status_message(*e, icon@, verb@),
{
    match &e.build {
        Some(b) => {
            let mut out = String::new();
            push_build_header(&mut out, icon, b, verb);
            assert(out@ =~= build_header(icon@, *b, verb@));
            out
        },
        None => bare_build(icon, verb),
    }
}

/// Icon and word for the state of a finished build.
fn state_marks(state: &Option<String>) -> (r: (&'static str, &'static str))
    ensures
        r.0@ == state_icon(*state),
        r.1@ == state_word(*state),
{
    if let Some(s) = state {
        if str_eq(s.as_str(), "passed") {
            return ("✅", "passed");
        } else if str_eq(s.as_str(), "failed") {
            return ("❌", "failed");
        } else if str_eq(s.as_str(), "canceled") {
            return ("⏹️", "canceled");
        }
    }
    ("❓", "finished")
}

fn finished_text(e: &BuildkiteWebhookEvent) -> (r: String)
    ensures
        r@ == finished_message(*e),
{
    match &e.build {
        Some(b) => {
            let (icon, word) = state_marks(&b.state);
            let mut out = String::new();
            push_build_header(&mut out, icon, b, word);
            assert(out@ =~= build_header(state_icon(b.state), *b, state_word(b.state)));
            out
        },
        None => String::from_str("✅ Build finished"),
    }
}

fn job_text(j: &BuildkiteJob, icon: &str, verb: &str) -> (r: String)
    ensures
        r@ == job_line(*j, icon@, verb@),
{
    let mut out = String::from_str(icon);
    out.append(" Job ['");
    let name = get_job_display_name(j);
    out.append(name.as_str());
    out.append("'](");
    out.append(text_or_else(&j.web_url, "#"));
    out.append(") ");
    out.append(verb);
    assert(out@ =~= job_line(*j, icon@, verb@));
    out
}

fn job_finished_text(e: &BuildkiteWebhookEvent) -> (r: String)
    ensures
        r@ == job_message(*e),
{
    match &e.job {
        None => String::new(),
        Some(j) => match j.exit_status {
            Some(s) => if s == 0 {
                String::new()
            } else {
                job_text(j, "❌", "failed")
            },
            None => job_text(j, "❓", "finished"),
        },
    }
}

fn agent_text(e: &BuildkiteWebhookEvent, icon: &str, verb: &str) -> (r: String)
    ensures
        r@ == agent_message(*e, icon@, verb@),
{
    let mut out = String::from_str(icon);
    match &e.agent {
        Some(a) => {
            out.append(" Agent '");
            out.append(text_or_else(&a.name, "unknown"));
            out.append("' ");
            out.append(verb);
            out.append(" (");
            out.append(text_or_else(&a.hostname, "unknown host"));
            out.append(")");
        },
        None => {
            out.append(" Agent ");
            out.append(verb);
        },
    }
    assert(out@ =~= agent_message(*e, icon@, verb@));
    out
}

/// Icon for an annotation's style.
fn style_mark(style: &Option<String>) -> (r: &'static str)
    ensures
        r@ == style_icon(*style),
{
    if let Some(s) = style {
        if str_eq(s.as_str(), "success") {
            return "✅";
        } else if str_eq(s.as_str(), "warning") {
            return "⚠️";
        } else if str_eq(s.as_str(), "error") {
            return "❌";
        } else if str_eq(s.as_str(), "info") {
            return "ℹ️";
        }
    }
    "📝"
}

fn annotation_text(e: &BuildkiteWebhookEvent, verb: &str) -> (r: String)
    ensures
        r@ == annotation_message(*e, verb@),
{
    match &e.annotation {
        Some(a) => {
            let mut out = String::from_str(style_mark(&a.style));
            out.append(" Annotation ");
            out.append(verb);
            out.append(": ");
            out.append(text_or_else(&a.context, "annotation"));
            assert(out@ =~= annotation_message(*e, verb@));
            out
        },
        None => {
            let mut out = String::from_str("📝");
            out.append(" Annotation ");
            out.append(verb);
            assert(out@ =~= annotation_message(*e, verb@));
            out
        },
    }
}

fn annotation_deleted_text(e: &BuildkiteWebhookEvent) -> (r: String)
    ensures
        r@ == annotation_deleted_message(*e),
{
    match &e.annotation {
        Some(a) => {
            let mut out = String::from_str("🗑️ Annotation deleted: ");
            out.append(text_or_else(&a.context, "annotation"));
            out
        },
        None => String::from_str("🗑️ Annotation deleted"),
    }
}

fn pipeline_text(e: &BuildkiteWebhookEvent, icon: &str, verb: &str) -> (r: String)
    ensures
        r@ == pipeline_message(*e, icon@, verb@),
{
    let mut out = String::from_str(icon);
    match &e.pipeline {
        Some(p) => {
            out.append(" Pipeline '");
            out.append(text_or_else(&p.name, "unknown"));
            out.append("' ");
            out.append(verb);
        },
        None => {
            out.append(" Pipeline ");
            out.append(verb);
        },
    }
    assert(out@ =~= pipeline_message(*e, icon@, verb@));
    out
}

/// The notification for an event. An empty text means that the event is
/// filtered out and nothing is to be posted.
pub fn format_buildkite_message(event: &BuildkiteWebhookEvent) -> (r: String)
    ensures
        r@ == message_of(*event),
{
    match classify(event.event.as_str()) {
        EventKind::BuildStarted => start_text(event, "🔄", "started"),
        EventKind::BuildScheduled => start_text(event, "📅", "scheduled"),
        EventKind::BuildCreated => start_text(event, "🆕", "created"),
        EventKind::BuildRunning => status_text(event, "🏃", "running"),
        EventKind::BuildBlocked => status_text(event, "🚫", "blocked"),
        EventKind::BuildUnblocked => status_text(event, "🟢", "unblocked"),
        EventKind::BuildCanceled => status_text(event, "⏹️", "canceled"),
        EventKind::BuildRebuilt => status_text(event, "🔁", "rebuilt"),
        EventKind::BuildFinished => finished_text(event),
        EventKind::JobFinished => job_finished_text(event),
        EventKind::JobIgnored => String::new(),
        EventKind::AgentConnected => agent_text(event, "🟢", "connected"),
        EventKind::AgentDisconnected => agent_text(event, "🔴", "disconnected"),
        EventKind::AnnotationCreated => annotation_text(event, "created"),
        EventKind::AnnotationUpdated => annotation_text(event, "updated"),
        EventKind::AnnotationDeleted => annotation_deleted_text(event),
        EventKind::PipelineCreated => pipeline_text(event, "🆕", "created"),
        EventKind::PipelineUpdated => pipeline_text(event, "📝", "updated"),
        EventKind::PipelineDeleted => pipeline_text(event, "🗑️", "deleted"),
        EventKind::Other => {
            let mut out = String::from_str("📢 Buildkite event: ");
            out.append(event.event.as_str());
            out
        },
    }
}

/// The topic that an event's notification is filed under.
pub fn format_buildkite_topic(event: &BuildkiteWebhookEvent) -> (r: String)
    ensures
        r@ == topic_of(*event),
        r@.len() > 0,
{
    proof {
        reveal_strlit(" - Build");
        reveal_strlit("Build");
    }
    if let Some(pipeline) = &event.pipeline {
        if let Some(name) = &pipeline.name {
            let mut out = name.clone();
            out.append(" - Build");
            return out;
        }
    }
    String::from_str("Build")
}

} // verus!
