//! The event record as it arrives from the CI service, and the closed set of
//! event kinds that the renderer dispatches on.
use vstd::prelude::*;
use crate::text::str_eq;

verus! {

/// One webhook delivery. Every field but `event` may be absent.
#[derive(Debug)]
pub struct BuildkiteWebhookEvent {
    pub event: String,
    pub build: Option<BuildkiteBuild>,
    pub job: Option<BuildkiteJob>,
    pub pipeline: Option<BuildkitePipeline>,
    pub agent: Option<BuildkiteAgent>,
    pub annotation: Option<BuildkiteAnnotation>,
}

#[derive(Debug)]
pub struct BuildkiteBuild {
    pub id: Option<String>,
    pub number: Option<i32>,
    pub state: Option<String>,
    pub message: Option<String>,
    pub commit: Option<String>,
    pub branch: Option<String>,
    pub url: Option<String>,
    pub web_url: Option<String>,
    pub author: Option<BuildkiteAuthor>,
}

#[derive(Debug)]
pub struct BuildkiteJob {
    pub id: Option<String>,
    pub name: Option<String>,
    pub command: Option<String>,
    pub state: Option<String>,
    pub exit_status: Option<i32>,
    pub web_url: Option<String>,
}

#[derive(Debug)]
pub struct BuildkitePipeline {
    pub id: Option<String>,
    pub name: Option<String>,
    pub slug: Option<String>,
    pub url: Option<String>,
    pub web_url: Option<String>,
    pub repository: Option<String>,
    pub provider: Option<BuildkiteProvider>,
}

#[derive(Debug)]
pub struct BuildkiteAuthor {
    pub name: Option<String>,
    pub email: Option<String>,
}

#[derive(Debug)]
pub struct BuildkiteAgent {
    pub id: Option<String>,
    pub name: Option<String>,
    pub hostname: Option<String>,
    pub version: Option<String>,
    pub connection_state: Option<String>,
    pub ip_address: Option<String>,
}

#[derive(Debug)]
pub struct BuildkiteAnnotation {
    pub id: Option<String>,
    pub body: Option<String>,
    pub style: Option<String>,
    pub context: Option<String>,
    pub created_at: Option<String>,
    pub updated_at: Option<String>,
}

#[derive(Debug)]
pub struct BuildkiteProvider {
    pub id: Option<String>,
    pub settings: Option<BuildkiteProviderSettings>,
    pub repository_url: Option<String>,
}

#[derive(Debug)]
pub struct BuildkiteProviderSettings {
    pub repository: Option<String>,
}

/// The event kinds the renderer knows, plus one for everything else.
#[derive(Debug, Clone, Copy, PartialEq, Eq, Structural)]
pub enum EventKind {
    BuildStarted,
    BuildScheduled,
    BuildCreated,
    BuildRunning,
    BuildBlocked,
    BuildUnblocked,
    BuildCanceled,
    BuildRebuilt,
    BuildFinished,
    JobFinished,
    JobIgnored,
    AgentConnected,
    AgentDisconnected,
    AnnotationCreated,
    AnnotationUpdated,
    AnnotationDeleted,
    PipelineCreated,
    PipelineUpdated,
    PipelineDeleted,
    Other,
}

/// The job kinds that are never forwarded.
pub open spec fn is_ignored_job_kind(k: Seq<char>) -> bool {
    k == "job.started"@ || k == "job.scheduled"@ || k == "job.canceled"@ || k == "job.retried"@
        || k == "job.timed_out"@ || k == "job.assigned"@
}

/// The kind that an event's tag names.
pub open spec fn kind_of(k: Seq<char>) -> EventKind {
    if k == "build.started"@ {
        EventKind::BuildStarted
    } else if k == "build.scheduled"@ {
        EventKind::BuildScheduled
    } else if k == "build.created"@ {
        EventKind::BuildCreated
    } else if k == "build.running"@ {
        EventKind::BuildRunning
    } else if k == "build.blocked"@ {
        EventKind::BuildBlocked
    } else if k == "build.unblocked"@ {
        EventKind::BuildUnblocked
    } else if k == "build.canceled"@ {
        EventKind::BuildCanceled
    } else if k == "build.rebuilt"@ {
        EventKind::BuildRebuilt
    } else if k == "build.finished"@ || k == "build.passed"@ || k == "build.failed"@ {
        EventKind::BuildFinished
    } else if k == "job.finished"@ {
        EventKind::JobFinished
    } else if is_ignored_job_kind(k) {
        EventKind::JobIgnored
    } else if k == "agent.connected"@ {
        EventKind::AgentConnected
    } else if k == "agent.disconnected"@ {
        EventKind::AgentDisconnected
    } else if k == "annotation.created"@ {
        EventKind::AnnotationCreated
    } else if k == "annotation.updated"@ {
        EventKind::AnnotationUpdated
    } else if k == "annotation.deleted"@ {
        EventKind::AnnotationDeleted
    } else if k == "pipeline.created"@ {
        EventKind::PipelineCreated
    } else if k == "pipeline.updated"@ {
        EventKind::PipelineUpdated
    } else if k == "pipeline.deleted"@ {
        EventKind::PipelineDeleted
    } else {
        EventKind::Other
    }
}

/// The tags of the job kinds that are never forwarded name no other kind.
pub proof fn lemma_ignored_job_kinds(k: Seq<char>)
    requires
        is_ignored_job_kind(k),
    ensures
        kind_of(k) == EventKind::JobIgnored,
{
    reveal_strlit("job.started");
    reveal_strlit("job.scheduled");
    reveal_strlit("job.canceled");
    reveal_strlit("job.retried");
    reveal_strlit("job.timed_out");
    reveal_strlit("job.assigned");
    reveal_strlit("build.started");
    reveal_strlit("build.scheduled");
    reveal_strlit("build.created");
    reveal_strlit("build.running");
    reveal_strlit("build.blocked");
    reveal_strlit("build.unblocked");
    reveal_strlit("build.canceled");
    reveal_strlit("build.rebuilt");
    reveal_strlit("build.finished");
    reveal_strlit("build.passed");
    reveal_strlit("build.failed");
    reveal_strlit("job.finished");
    assert("build.started"@[0] == 'b');
    assert("build.scheduled"@[0] == 'b');
    assert("build.created"@[0] == 'b');
    assert("build.running"@[0] == 'b');
    assert("build.blocked"@[0] == 'b');
    assert("build.unblocked"@[0] == 'b');
    assert("build.canceled"@[0] == 'b');
    assert("build.rebuilt"@[0] == 'b');
    assert("build.finished"@[0] == 'b');
    assert("build.passed"@[0] == 'b');
    assert("build.failed"@[0] == 'b');
    assert("job.started"@[0] == 'j');
    assert("job.scheduled"@[0] == 'j');
    assert("job.canceled"@[0] == 'j');
    assert("job.retried"@[0] == 'j');
    assert("job.timed_out"@[0] == 'j');
    assert("job.assigned"@[0] == 'j');
    assert("job.finished"@[4] == 'f');
    assert("job.started"@[4] != 'f');
    assert("job.scheduled"@[4] != 'f');
    assert("job.canceled"@[4] != 'f');
    assert("job.retried"@[4] != 'f');
    assert("job.timed_out"@[4] != 'f');
    assert("job.assigned"@[4] != 'f');
}

/// The tag `job.finished` names the finished-job kind.
pub proof fn lemma_job_finished_kind()
    ensures
        kind_of("job.finished"@) == EventKind::JobFinished,
{
    reveal_strlit("build.started");
    reveal_strlit("build.scheduled");
    reveal_strlit("build.created");
    reveal_strlit("build.running");
    reveal_strlit("build.blocked");
    reveal_strlit("build.unblocked");
    reveal_strlit("build.canceled");
    reveal_strlit("build.rebuilt");
    reveal_strlit("build.finished");
    reveal_strlit("build.passed");
    reveal_strlit("build.failed");
    reveal_strlit("job.finished");
    assert("build.started"@[0] == 'b');
    assert("build.scheduled"@[0] == 'b');
    assert("build.created"@[0] == 'b');
    assert("build.running"@[0] == 'b');
    assert("build.blocked"@[0] == 'b');
    assert("build.unblocked"@[0] == 'b');
    assert("build.canceled"@[0] == 'b');
    assert("build.rebuilt"@[0] == 'b');
    assert("build.finished"@[0] == 'b');
    assert("build.passed"@[0] == 'b');
    assert("build.failed"@[0] == 'b');
    assert("job.finished"@[0] == 'j');
}

/// Reads an event's tag.
pub fn classify(k: &str) -> (r: EventKind)
    ensures
        r == kind_of(k@),
{
    if str_eq(k, "build.started") {
        EventKind::BuildStarted
    } else if str_eq(k, "build.scheduled") {
        EventKind::BuildScheduled
    } else if str_eq(k, "build.created") {
        EventKind::BuildCreated
    } else if str_eq(k, "build.running") {
        EventKind::BuildRunning
    } else if str_eq(k, "build.blocked") {
        EventKind::BuildBlocked
    } else if str_eq(k, "build.unblocked") {
        EventKind::BuildUnblocked
    } else if str_eq(k, "build.canceled") {
        EventKind::BuildCanceled
    } else if str_eq(k, "build.rebuilt") {
        EventKind::BuildRebuilt
    } else if str_eq(k, "build.finished") || str_eq(k, "build.passed") || str_eq(k, "build.failed") {
        EventKind::BuildFinished
    } else if str_eq(k, "job.finished") {
        EventKind::JobFinished
    } else if str_eq(k, "job.started") || str_eq(k, "job.scheduled") || str_eq(k, "job.canceled")
        || str_eq(k, "job.retried") || str_eq(k, "job.timed_out") || str_eq(k, "job.assigned") {
        EventKind::JobIgnored
    } else if str_eq(k, "agent.connected") {
        EventKind::AgentConnected
    } else if str_eq(k, "agent.disconnected") {
        EventKind::AgentDisconnected
    } else if str_eq(k, "annotation.created") {
        EventKind::AnnotationCreated
    } else if str_eq(k, "annotation.updated") {
        EventKind::AnnotationUpdated
    } else if str_eq(k, "annotation.deleted") {
        EventKind::AnnotationDeleted
    } else if str_eq(k, "pipeline.created") {
        EventKind::PipelineCreated
    } else if str_eq(k, "pipeline.updated") {
        EventKind::PipelineUpdated
    } else if str_eq(k, "pipeline.deleted") {
        EventKind::PipelineDeleted
    } else {
        EventKind::Other
    }
}

} // verus!
