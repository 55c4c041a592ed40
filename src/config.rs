use vstd::prelude::*;
use vstd::string::*;

use crate::text::{decimal_value, is_decimal, parse_decimal};

verus! {

/// A tracked repository, `user/name`.
#[derive(Debug)]
pub struct Repo {
    pub user: String,
    pub name: String,
}

/// Why a run cannot start.
#[derive(Clone, Copy, PartialEq, Eq, Structural, Debug)]
pub enum ConfigError {
    /// No branch was given.
    MissingBranch,
    /// The timeout is not a number of seconds.
    MalformedTimeout,
    /// The repository argument at this position has no `/`.
    MalformedRepo(usize),
}

/// Seconds a run waits for its requests when no timeout is given.
pub const DEFAULT_TIMEOUT_SECS: u64 = 30;

/// The timeout text reads as a number of seconds.
pub open spec fn timeout_readable(t: Seq<char>) -> bool {
    is_decimal(t) && decimal_value(t) <= u64::MAX
}

/// Everything one run reads: the branch, one optional token per service (a
/// service without a token is skipped), the optional account and
/// organisation names, the seconds the run may take, and the repositories.
#[derive(Debug)]
pub struct Config {
    pub branch: String,
    pub travis_token: Option<String>,
    pub appveyor_token: Option<String>,
    pub azure_pipelines_token: Option<String>,
    pub appveyor_account_name: Option<String>,
    pub azure_pipelines_org: Option<String>,
    pub timeout_secs: u64,
    pub repos: Vec<Repo>,
}

/// `i` is the position of the first `/` in `s`.
pub open spec fn first_slash(s: Seq<char>, i: int) -> bool {
    0 <= i < s.len() && s[i] == '/' && forall|j: int| 0 <= j < i ==> s[j] != '/'
}

pub open spec fn has_slash(s: Seq<char>) -> bool {
    exists|i: int| 0 <= i < s.len() && s[i] == '/'
}

/// `r` is `s` split at its first `/`.
pub open spec fn split_of(s: Seq<char>, r: Repo) -> bool {
    exists|i: int|
        first_slash(s, i) && r.user@ == s.subrange(0, i) && r.name@ == s.subrange(i + 1, s.len() as int)
}

/// Reads `user/name`; the name is everything after the first `/`.
pub fn parse_repo(s: &str) -> (r: Option<Repo>)
    ensures
        r.is_some() <==> has_slash(s@),
        r.is_some() ==> split_of(s@, r.unwrap()),
{
    let n = s.unicode_len();
    let mut i: usize = 0;
    while i < n
        invariant
            n == s@.len(),
            0 <= i <= n,
            forall|j: int| 0 <= j < i ==> s@[j] != '/',
        decreases n - i,
    {
        if s.get_char(i) == '/' {
            let user = String::from_str(s.substring_char(0, i));
            let name = String::from_str(s.substring_char(i + 1, n));
            let r = Repo { user, name };
            assert(first_slash(s@, i as int));
            return Some(r);
        }
        i = i + 1;
    }
    None
}

/// `repos` holds each argument split at its first `/`, in order.
pub open spec fn repos_of(specs: Seq<String>, repos: Seq<Repo>) -> bool {
    &&& repos.len() == specs.len()
    &&& forall|k: int| 0 <= k < specs.len() ==> split_of(specs[k]@, #[trigger] repos[k])
}

/// The argument at `k` is the first one without a `/`.
pub open spec fn first_malformed(specs: Seq<String>, k: int) -> bool {
    &&& 0 <= k < specs.len()
    &&& !has_slash(specs[k]@)
    &&& forall|j: int| 0 <= j < k ==> has_slash(#[trigger] specs[j]@)
}

/// Reads every repository argument; fails on the first one without a `/`.
pub fn parse_repos(specs: &Vec<String>) -> (r: Result<Vec<Repo>, ConfigError>)
    ensures
        r.is_ok() <==> forall|k: int| 0 <= k < specs@.len() ==> has_slash(#[trigger] specs@[k]@),
        match r {
            Ok(repos) => repos_of(specs@, repos@),
            Err(e) => exists|k: int| first_malformed(specs@, k) && e == ConfigError::MalformedRepo(k as usize),
        },
{
    let mut repos: Vec<Repo> = Vec::new();
    let mut i: usize = 0;
    while i < specs.len()
        invariant
            0 <= i <= specs@.len(),
            repos@.len() == i,
            forall|k: int| 0 <= k < i ==> split_of(specs@[k]@, #[trigger] repos@[k]),
            forall|j: int| 0 <= j < i ==> has_slash(#[trigger] specs@[j]@),
        decreases specs@.len() - i,
    {
        match parse_repo(specs[i].as_str()) {
            Some(repo) => {
                repos.push(repo);
            },
            None => {
                assert(first_malformed(specs@, i as int));
                return Err(ConfigError::MalformedRepo(i));
            },
        }
        i = i + 1;
    }
    Ok(repos)
}

impl Config {
    /// Assembles the configuration of a run. The branch is required; the
    /// timeout, when given, must be a number of seconds (30 otherwise); and
    /// every repository argument must read as `user/name`. The first of
    /// these that fails, in that order, is the error.
    pub fn new(
        branch: Option<String>,
        travis_token: Option<String>,
        appveyor_token: Option<String>,
        azure_pipelines_token: Option<String>,
        appveyor_account_name: Option<String>,
        azure_pipelines_org: Option<String>,
        timeout: Option<String>,
        repo_specs: &Vec<String>,
    ) -> (r: Result<Config, ConfigError>)
        ensures
            r.is_ok() <==> branch.is_some() && (timeout is None || timeout_readable(
                timeout.unwrap()@,
            )) && forall|k: int| 0 <= k < repo_specs@.len() ==> has_slash(#[trigger] repo_specs@[k]@),
            branch.is_none() ==> r == Err::<Config, ConfigError>(ConfigError::MissingBranch),
            branch.is_some() && timeout is Some && !timeout_readable(timeout.unwrap()@) ==> r == Err::<
                Config,
                ConfigError,
            >(ConfigError::MalformedTimeout),
            branch.is_some() && (timeout is None || timeout_readable(timeout.unwrap()@)) ==> match r {
                Ok(c) => {
                    &&& c.branch == branch.unwrap()
                    &&& c.travis_token == travis_token
                    &&& c.appveyor_token == appveyor_token
                    &&& c.azure_pipelines_token == azure_pipelines_token
                    &&& c.appveyor_account_name == appveyor_account_name
                    &&& c.azure_pipelines_org == azure_pipelines_org
                    &&& c.timeout_secs == match timeout {
                        None => DEFAULT_TIMEOUT_SECS,
                        Some(t) => decimal_value(t@) as u64,
                    }
                    &&& repos_of(repo_specs@, c.repos@)
                },
                Err(e) => exists|k: int|
                    first_malformed(repo_specs@, k) && e == ConfigError::MalformedRepo(k as usize),
            },
    {
        let branch = match branch {
            Some(b) => b,
            None => {
                return Err(ConfigError::MissingBranch);
            },
        };
        let timeout_secs = match timeout {
            None => DEFAULT_TIMEOUT_SECS,
            Some(t) => match parse_decimal(t.as_str()) {
                Some(secs) => secs,
                None => {
                    return Err(ConfigError::MalformedTimeout);
                },
            },
        };
        let repos = match parse_repos(repo_specs) {
            Ok(repos) => repos,
            Err(e) => {
                return Err(e);
            },
        };
        Ok(
            Config {
                branch,
                travis_token,
                appveyor_token,
                azure_pipelines_token,
                appveyor_account_name,
                azure_pipelines_org,
                timeout_secs,
                repos,
            },
        )
    }
}

} // verus!
