//! Properties that hold of every event, stated over the renderer's and the
//! resolver's models.
use vstd::prelude::*;
use crate::event::{
    is_ignored_job_kind, lemma_ignored_job_kinds, lemma_job_finished_kind, BuildkitePipeline,
    BuildkiteWebhookEvent,
};
use crate::render::{build_header, commit_quote, is_filtered, message_of, topic_of};
use crate::repo::repo_url;
use crate::text::{blank, ends_with, take_at_most};

verus! {

/// A finished job whose exit status is zero is never forwarded, whatever
/// else the event holds.
pub proof fn lemma_successful_job_dropped(e: BuildkiteWebhookEvent)
    requires
        e.event@ == "job.finished"@,
        e.job is Some,
        e.job->Some_0.exit_status == Some(0i32),
    ensures
        message_of(e).len() == 0,
{
    lemma_job_finished_kind();
}

/// Job events other than a finished job are never forwarded.
pub proof fn lemma_job_progress_dropped(e: BuildkiteWebhookEvent)
    requires
        is_ignored_job_kind(e.event@),
    ensures
        message_of(e).len() == 0,
{
    lemma_ignored_job_kinds(e.event@);
}

/// A started build with a commit message that is not blank has a line that
/// begins with `> ` and goes on with that message.
pub proof fn lemma_started_build_quotes_message(e: BuildkiteWebhookEvent)
    requires
        e.event@ == "build.started"@,
        e.build is Some,
        e.build->Some_0.message is Some,
        !blank(e.build->Some_0.message->Some_0@),
    ensures
        ({
            let r = message_of(e);
            let m = e.build->Some_0.message->Some_0@;
            exists|k: int|
                1 <= k && k + 2 + m.len() as int <= r.len() && r[k - 1] == '\n' && #[trigger] r.subrange(
                    k,
                    k + 2 + m.len() as int,
                ) == "> "@ + m
        }),
{
    let b = e.build->Some_0;
    let m = b.message->Some_0@;
    let h = build_header("🔄"@, b, "started"@);
    let r = message_of(e);
    reveal_strlit("\n> ");
    reveal_strlit("> ");
    assert(r == h + commit_quote(e, b));
    let k: int = h.len() as int + 1;
    assert(r[k - 1] == '\n');
    assert(r.subrange(k, k + 2 + m.len() as int) =~= "> "@ + m);
}

/// When a build start names a commit and the pipeline's repository address
/// resolves, the message ends with the quoted commit message, one space, and
/// a link to the commit whose text is the first seven characters of its hash.
pub proof fn lemma_started_build_links_commit(e: BuildkiteWebhookEvent)
    requires
        e.event@ == "build.started"@,
        e.build is Some,
        e.build->Some_0.message is Some,
        !blank(e.build->Some_0.message->Some_0@),
        e.build->Some_0.commit is Some,
        e.pipeline is Some,
        repo_url(e.pipeline->Some_0) is Some,
    ensures
        ({
            let c = e.build->Some_0.commit->Some_0@;
            let u = repo_url(e.pipeline->Some_0)->Some_0;
            let m = e.build->Some_0.message->Some_0@;
            ends_with(
                message_of(e),
                "> "@ + m + " (["@ + take_at_most(c, 7) + "]("@ + u + "/commit/"@ + c + "))"@,
            )
        }),
{
    let b = e.build->Some_0;
    let c = b.commit->Some_0@;
    let u = repo_url(e.pipeline->Some_0)->Some_0;
    let m = b.message->Some_0@;
    let h = build_header("🔄"@, b, "started"@);
    let r = message_of(e);
    let tail = "> "@ + m + " (["@ + take_at_most(c, 7) + "]("@ + u + "/commit/"@ + c + "))"@;
    reveal_strlit("\n> ");
    reveal_strlit("> ");
    assert(r =~= h + seq!['\n'] + tail);
    assert(r.subrange(r.len() - tail.len(), r.len() as int) =~= tail);
}

/// The message is empty exactly when the event is filtered out; every other
/// event gets some text.
pub proof fn lemma_empty_exactly_when_filtered(e: BuildkiteWebhookEvent)
    ensures
        message_of(e).len() == 0 <==> is_filtered(e),
{
    reveal_strlit("🔄");
    reveal_strlit("📅");
    reveal_strlit("🆕");
    reveal_strlit("🏃");
    reveal_strlit("🚫");
    reveal_strlit("🟢");
    reveal_strlit("⏹️");
    reveal_strlit("🔁");
    reveal_strlit("✅");
    reveal_strlit("❌");
    reveal_strlit("❓");
    reveal_strlit("🔴");
    reveal_strlit("⚠️");
    reveal_strlit("ℹ️");
    reveal_strlit("📝");
    reveal_strlit("🗑️");
    reveal_strlit("✅ Build finished");
    reveal_strlit("🗑️ Annotation deleted: ");
    reveal_strlit("🗑️ Annotation deleted");
    reveal_strlit("📢 Buildkite event: ");
}

/// An explicit repository address from the provider is taken as it stands,
/// whatever the other repository fields hold.
pub proof fn lemma_explicit_repository_url_wins(p: BuildkitePipeline)
    requires
        p.provider is Some,
        p.provider->Some_0.repository_url is Some,
    ensures
        repo_url(p) == Some(p.provider->Some_0.repository_url->Some_0@),
{
}

/// The topic depends on the pipeline alone, not on the kind of event nor on
/// its build or job data.
pub proof fn lemma_topic_depends_on_pipeline(
    e1: BuildkiteWebhookEvent,
    e2: BuildkiteWebhookEvent,
)
    requires
        e1.pipeline == e2.pipeline,
    ensures
        topic_of(e1) == topic_of(e2),
{
}

} // verus!
