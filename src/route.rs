//! Which chat stream an event goes to.
use vstd::prelude::*;
use vstd::string::*;
use crate::event::BuildkiteWebhookEvent;
use crate::text::{find_from, has_prefix, scan_to, starts_with};

verus! {

/// What `str::to_lowercase` makes of a text.
pub uninterp spec fn lower_of(s: Seq<char>) -> Seq<char>;

/// Relies on `str::to_lowercase`: its result depends on the characters alone.
#[verifier::external_body]
pub(crate) fn lowercase(s: &str) -> (r: String)
    ensures
        r@ == lower_of(s@),
{
    s.to_lowercase()
}

/// Pipeline names that pick their own stream.
pub open spec fn routes_by_name(l: Seq<char>) -> bool {
    starts_with(l, "lang-"@) || starts_with(l, "keyboard-"@)
}

/// The stream for a lower-cased pipeline name: its second `-`-separated
/// segment where the name has a routing prefix, else the default.
pub open spec fn stream_for(l: Seq<char>, default_stream: Seq<char>) -> Seq<char> {
    let a = scan_to(l, 0, '-');
    if routes_by_name(l) && a < l.len() {
        l.subrange(a + 1, scan_to(l, a + 1, '-'))
    } else {
        default_stream
    }
}

/// The stream for an event: decided by its pipeline's name, compared without case.
pub open spec fn target_stream(e: BuildkiteWebhookEvent, default_stream: Seq<char>) -> Seq<char> {
    if e.pipeline is Some && e.pipeline->Some_0.name is Some {
        stream_for(lower_of(e.pipeline->Some_0.name->Some_0@), default_stream)
    } else {
        default_stream
    }
}

/// The stream for a pipeline name that is already lower-cased.
pub fn stream_for_lowered(lowered: &str, default_stream: &str) -> (r: String)
    ensures
        r@ == stream_for(lowered@, default_stream@),
{
    if has_prefix(lowered, "lang-") || has_prefix(lowered, "keyboard-") {
        let n = lowered.unicode_len();
        let a = find_from(lowered, 0, '-');
        if a < n {
            let b = find_from(lowered, a + 1, '-');
            return String::from_str(lowered.substring_char(a + 1, b));
        }
    }
    String::from_str(default_stream)
}

/// The stream that an event is posted to.
pub fn determine_target_stream(event: &BuildkiteWebhookEvent, default_stream: &str) -> (r: String)
    ensures
        r@ == target_stream(*event, default_stream@),
{
    if let Some(pipeline) = &event.pipeline {
        if let Some(name) = &pipeline.name {
            let lowered = lowercase(name.as_str());
            return stream_for_lowered(lowered.as_str(), default_stream);
        }
    }
    String::from_str(default_stream)
}

} // verus!
