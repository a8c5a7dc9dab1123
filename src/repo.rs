//! Web address of a pipeline's source repository, used to link commits.
use vstd::prelude::*;
use vstd::string::*;
use crate::event::BuildkitePipeline;
use crate::text::{has_prefix, starts_with, strip_suffix, without_suffix};

verus! {

pub open spec fn github_base() -> Seq<char> {
    "https://github.com/"@
}

pub open spec fn ssh_prefix() -> Seq<char> {
    "git@github.com:"@
}

/// What a bare `pipeline.repository` resolves to: an SSH address or an HTTPS
/// address on GitHub, each without a trailing `.git`; any other form resolves
/// to nothing.
pub open spec fn repository_address(r: Seq<char>) -> Option<Seq<char>> {
    if starts_with(r, ssh_prefix()) {
        Some(github_base() + strip_suffix(r.subrange(ssh_prefix().len() as int, r.len() as int), ".git"@))
    } else if starts_with(r, github_base()) {
        Some(strip_suffix(r, ".git"@))
    } else {
        None
    }
}

/// The repository address of a pipeline, first match wins: the provider's
/// explicit address as it stands; the provider's `owner/repo` slug on GitHub;
/// the pipeline's own repository field.
pub open spec fn repo_url(p: BuildkitePipeline) -> Option<Seq<char>> {
    if p.provider is Some && p.provider->Some_0.repository_url is Some {
        Some(p.provider->Some_0.repository_url->Some_0@)
    } else if p.provider is Some && p.provider->Some_0.settings is Some
        && p.provider->Some_0.settings->Some_0.repository is Some {
        Some(github_base() + p.provider->Some_0.settings->Some_0.repository->Some_0@)
    } else {
        match p.repository {
            Some(r) => repository_address(r@),
            None => None,
        }
    }
}

/// The web address of the pipeline's repository, where one of the known forms gives it.
pub fn get_github_repo_url(pipeline: &BuildkitePipeline) -> (r: Option<String>)
    ensures
        r matches Some(u) ==> repo_url(*pipeline) == Some(u@),
        r is None ==> repo_url(*pipeline) is None,
{
    if let Some(provider) = &pipeline.provider {
        if let Some(repo_url) = &provider.repository_url {
            return Some(repo_url.clone());
        }
        if let Some(settings) = &provider.settings {
            if let Some(repository) = &settings.repository {
                let mut u = String::from_str("https://github.com/");
                u.append(repository.as_str());
                return Some(u);
            }
        }
    }
    if let Some(repository) = &pipeline.repository {
        let r = repository.as_str();
        if has_prefix(r, "git@github.com:") {
            proof {
                reveal_strlit("git@github.com:");
            }
            let n = r.unicode_len();
            let rest = r.substring_char(15, n);
            let mut u = String::from_str("https://github.com/");
            u.append(without_suffix(rest, ".git"));
            return Some(u);
        }
        if has_prefix(r, "https://github.com/") {
            return Some(String::from_str(without_suffix(r, ".git")));
        }
    }
    None
}

} // verus!
