//! How a job is named in a notification.
use vstd::prelude::*;
use vstd::string::*;
use crate::event::BuildkiteJob;
use crate::text::{blank, first_line, first_line_of, is_blank, trim, trimmed};

verus! {

/// Longest command line shown whole; a longer one keeps its first
/// `SHORTENED_LEN` characters and gains an ellipsis.
pub const MAX_COMMAND_LEN: usize = 40;

pub const SHORTENED_LEN: usize = 37;

/// The label of a command line, shortened when it is too long.
pub open spec fn command_label(t: Seq<char>) -> Seq<char> {
    if t.len() > MAX_COMMAND_LEN {
        t.take(SHORTENED_LEN as int) + "..."@
    } else {
        t
    }
}

/// A job's name when it is not blank; else the first line of its command,
/// trimmed and shortened; else a fixed placeholder.
pub open spec fn display_name(j: BuildkiteJob) -> Seq<char> {
    if j.name is Some && !blank(j.name->Some_0@) {
        j.name->Some_0@
    } else if j.command is Some && !blank(first_line(j.command->Some_0@)) {
        command_label(trim(first_line(j.command->Some_0@)))
    } else {
        "unnamed job"@
    }
}

/// The name under which a job is shown.
pub fn get_job_display_name(job: &BuildkiteJob) -> (r: String)
    ensures
        r@ == display_name(*job),
{
    if let Some(name) = &job.name {
        if !is_blank(name.as_str()) {
            return name.clone();
        }
    }
    if let Some(command) = &job.command {
        let line = first_line_of(command.as_str());
        if !is_blank(line) {
            let t = trimmed(line);
            if t.unicode_len() > MAX_COMMAND_LEN {
                let mut s = String::from_str(t.substring_char(0, SHORTENED_LEN));
                s.append("...");
                return s;
            }
            return String::from_str(t);
        }
    }
    String::from_str("unnamed job")
}

} // verus!
