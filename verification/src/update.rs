//! Where the self-updater looks for releases: the GitHub owner, repository
//! and binary name come from `UTAH_UPDATE_REPO_OWNER`, `UTAH_UPDATE_REPO_NAME`
//! and `UTAH_UPDATE_BIN_NAME`, with built-in defaults for unset variables;
//! a `GITHUB_TOKEN`, when set, authenticates the release queries.

use vstd::prelude::*;

verus! {

/// The release source of the self-updater.
#[derive(Debug)]
pub struct UpdateConfig {
    pub repo_owner: String,
    pub repo_name: String,
    pub bin_name: String,
    /// The token for the GitHub API, when one is set.
    pub auth_token: Option<String>,
}

/// A setting's value, or `default` when it is not set.
pub open spec fn setting_or(value: Option<String>, default: Seq<char>) -> Seq<char> {
    match value {
        Some(v) => v@,
        None => default,
    }
}

fn setting_or_default(value: Option<String>, default: &str) -> (s: String)
    ensures
        s@ == setting_or(value, default@),
{
    match value {
        Some(v) => v,
        None => String::from_str(default),
    }
}

/// The release source for the given settings, with `Utah-1`,
/// `utah-framework` and `utah-core` for the unset ones, and the API token
/// when one is set.
pub fn update_config(
    owner: Option<String>,
    repo: Option<String>,
    bin: Option<String>,
    token: Option<String>,
) -> (c: UpdateConfig)
    ensures
        c.auth_token == token,
        c.repo_owner@ == setting_or(owner, "Utah-1"@),
        c.repo_name@ == setting_or(repo, "utah-framework"@),
        c.bin_name@ == setting_or(bin, "utah-core"@),
{
    UpdateConfig {
        repo_owner: setting_or_default(owner, "Utah-1"),
        repo_name: setting_or_default(repo, "utah-framework"),
        bin_name: setting_or_default(bin, "utah-core"),
        auth_token: token,
    }
}

} // verus!
