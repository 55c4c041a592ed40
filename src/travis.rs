use vstd::prelude::*;
use vstd::string::*;

use crate::call::{Backend, Call, CallView, PurposeView, FetchError, Purpose};
use crate::config::Repo;
use crate::policy::{select, selection, Candidate, Pick};
use crate::request::{request_of, travis_base, travis_get, travis_headers_of, travis_post, Method};
use crate::text::{decimal, decimal_string, decimal_value, is_decimal, join_url, parse_decimal, str_eq};

verus! {

/// Reply to `GET /repos/{user}/{name}/builds`.
#[derive(Debug)]
pub struct GetBuilds {
    pub builds: Vec<Build>,
    pub commits: Vec<Commit>,
}

#[derive(Debug)]
pub struct Build {
    pub id: u32,
    pub number: String,
    pub state: String,
    pub commit_id: u32,
    pub job_ids: Vec<u32>,
}

#[derive(Debug)]
pub struct Commit {
    pub id: u32,
    pub branch: String,
}

/// Reply to `GET /builds/{id}`.
#[derive(Debug)]
pub struct GetBuild {
    pub commit: Commit,
    pub build: Build,
    pub jobs: Vec<Job>,
}

#[derive(Debug)]
pub struct Job {
    pub id: u32,
    pub build_id: u32,
    pub allow_failure: bool,
    pub state: String,
}

/// The branch of the commit with this id; a later record of the same id
/// overrides an earlier one.
pub open spec fn commit_branch(commits: Seq<Commit>, id: u32) -> Option<Seq<char>>
    decreases commits.len(),
{
    if commits.len() == 0 {
        None
    } else if commits.last().id == id {
        Some(commits.last().branch@)
    } else {
        commit_branch(commits.drop_last(), id)
    }
}

pub open spec fn is_terminal(state: Seq<char>) -> bool {
    state == "passed"@ || state == "failed"@ || state == "canceled"@ || state == "errored"@
}

pub open spec fn is_failed_job(state: Seq<char>) -> bool {
    state == "failed"@ || state == "errored"@ || state == "canceled"@
}

pub open spec fn any_job_failed(jobs: Seq<Job>) -> bool {
    exists|i: int| 0 <= i < jobs.len() && is_failed_job(#[trigger] jobs[i].state@)
}

/// The build's commit is known and lies on `branch`.
pub open spec fn on_branch(list: GetBuilds, b: Build, branch: Seq<char>) -> bool {
    commit_branch(list.commits@, b.commit_id) == Some(branch)
}

pub open spec fn readable_number(b: Build) -> bool {
    is_decimal(b.number@) && decimal_value(b.number@) <= u64::MAX
}

/// Every build of the branch carries a build number that reads as a `u64`.
pub open spec fn numbers_readable(list: GetBuilds, branch: Seq<char>) -> bool {
    forall|i: int|
        0 <= i < list.builds@.len() && on_branch(list, #[trigger] list.builds@[i], branch)
            ==> readable_number(list.builds@[i])
}

/// `e` reports a build of the branch whose number does not read, by that
/// number.
pub open spec fn unreadable_error(list: GetBuilds, branch: Seq<char>, e: FetchError) -> bool {
    exists|i: int|
        0 <= i < list.builds@.len() && on_branch(list, #[trigger] list.builds@[i], branch)
            && !readable_number(list.builds@[i]) && e == FetchError::Decode(list.builds@[i].number)
}

pub open spec fn candidate_of(list: GetBuilds, b: Build, branch: Seq<char>) -> Candidate {
    let on = on_branch(list, b, branch);
    Candidate {
        key: if on {
            decimal_value(b.number@) as u64
        } else {
            0
        },
        on_branch: on,
        running: !is_terminal(b.state@),
    }
}

pub open spec fn candidates_of(list: GetBuilds, branch: Seq<char>) -> Seq<Candidate> {
    list.builds@.map_values(|b: Build| candidate_of(list, b, branch))
}

pub open spec fn list_call(index: usize, user: Seq<char>, name: Seq<char>, token: Seq<char>) -> CallView {
    CallView {
        backend: Backend::Travis,
        repo: index,
        purpose: PurposeView::ListBuilds,
        request: request_of(
            Method::Get,
            join_url(travis_base(), "/repos/"@ + user + "/"@ + name + "/builds"@),
            travis_headers_of(token),
            None,
        ),
    }
}

pub open spec fn cancel_call(index: usize, token: Seq<char>, id: u32) -> CallView {
    CallView {
        backend: Backend::Travis,
        repo: index,
        purpose: PurposeView::Cancel,
        request: request_of(
            Method::Post,
            join_url(travis_base(), "/builds/"@ + decimal(id as nat) + "/cancel"@),
            travis_headers_of(token),
            None,
        ),
    }
}

pub open spec fn detail_call(index: usize, token: Seq<char>, id: u32) -> CallView {
    CallView {
        backend: Backend::Travis,
        repo: index,
        purpose: PurposeView::BuildDetail,
        request: request_of(
            Method::Get,
            join_url(travis_base(), "/builds/"@ + decimal(id as nat)),
            travis_headers_of(token),
            None,
        ),
    }
}

/// A stale build is cancelled; the latest build is fetched with its jobs.
pub open spec fn pick_call(index: usize, token: Seq<char>, list: GetBuilds, p: Pick) -> CallView {
    let id = list.builds@[p.index as int].id;
    if p.stale {
        cancel_call(index, token, id)
    } else {
        detail_call(index, token, id)
    }
}

/// Whether the build is still queued or running.
pub fn build_running(build: &Build) -> (r: bool)
    ensures
        r == !is_terminal(build.state@),
{
    let s = build.state.as_str();
    !(str_eq(s, "passed") || str_eq(s, "failed") || str_eq(s, "canceled") || str_eq(s, "errored"))
}

/// Whether some job has failed, errored or been cancelled.
pub fn jobs_failed(jobs: &Vec<Job>) -> (r: bool)
    ensures
        r == any_job_failed(jobs@),
{
    let mut i: usize = 0;
    while i < jobs.len()
        invariant
            0 <= i <= jobs@.len(),
            forall|j: int| 0 <= j < i ==> !is_failed_job(#[trigger] jobs@[j].state@),
        decreases jobs@.len() - i,
    {
        let s = jobs[i].state.as_str();
        if str_eq(s, "failed") || str_eq(s, "errored") || str_eq(s, "canceled") {
            return true;
        }
        i = i + 1;
    }
    false
}

fn commit_on_branch(commits: &Vec<Commit>, id: u32, branch: &str) -> (r: bool)
    ensures
        r == (commit_branch(commits@, id) == Some(branch@)),
{
    let mut i: usize = commits.len();
    assert(commits@.take(i as int) == commits@);
    while i > 0
        invariant
            0 <= i <= commits@.len(),
            commit_branch(commits@, id) == commit_branch(commits@.take(i as int), id),
        decreases i,
    {
        assert(commits@.take(i as int).drop_last() == commits@.take(i - 1));
        let c = &commits[i - 1];
        if c.id == id {
            return str_eq(c.branch.as_str(), branch);
        }
        i = i - 1;
    }
    false
}

/// The listing as the selection policy sees it; fails when a build of the
/// branch has a build number that does not read as a number.
pub fn candidates(list: &GetBuilds, branch: &str) -> (r: Result<Vec<Candidate>, FetchError>)
    ensures
        r.is_ok() <==> numbers_readable(*list, branch@),
        match r {
            Ok(c) => c@ == candidates_of(*list, branch@),
            Err(e) => unreadable_error(*list, branch@, e),
        },
{
    let mut r: Vec<Candidate> = Vec::new();
    let mut i: usize = 0;
    while i < list.builds.len()
        invariant
            0 <= i <= list.builds@.len(),
            r@ == candidates_of(*list, branch@).take(i as int),
            forall|j: int|
                0 <= j < i && on_branch(*list, #[trigger] list.builds@[j], branch@) ==> readable_number(
                    list.builds@[j],
                ),
        decreases list.builds@.len() - i,
    {
        let b = &list.builds[i];
        let on = commit_on_branch(&list.commits, b.commit_id, branch);
        let mut key: u64 = 0;
        if on {
            match parse_decimal(b.number.as_str()) {
                Some(k) => {
                    key = k;
                },
                None => {
                    let e = FetchError::Decode(b.number.clone());
                    assert(unreadable_error(*list, branch@, e));
                    return Err(e);
                },
            }
        }
        r.push(Candidate { key, on_branch: on, running: build_running(b) });
        assert(r@ =~= candidates_of(*list, branch@).take(i + 1));
        i = i + 1;
    }
    assert(candidates_of(*list, branch@).take(i as int) =~= candidates_of(*list, branch@));
    Ok(r)
}

fn path_text(s: &str) -> (r: String)
    ensures
        r@ == s@,
{
    String::from_str(s)
}

/// The request for the builds of `repo`.
pub fn list_builds(index: usize, repo: &Repo, token: &str) -> (r: Call)
    ensures
        r@ == list_call(index, repo.user@, repo.name@, token@),
{
    let url = path_text("/repos/").concat(repo.user.as_str()).concat("/").concat(
        repo.name.as_str(),
    ).concat("/builds");
    Call {
        backend: Backend::Travis,
        repo: index,
        purpose: Purpose::ListBuilds,
        request: travis_get(url.as_str(), token),
    }
}

/// The request that cancels build `id`.
pub fn cancel_build(index: usize, token: &str, id: u32) -> (r: Call)
    ensures
        r@ == cancel_call(index, token@, id),
{
    let url = path_text("/builds/").concat(decimal_string(id as u64).as_str()).concat("/cancel");
    Call {
        backend: Backend::Travis,
        repo: index,
        purpose: Purpose::Cancel,
        request: travis_post(url.as_str(), token),
    }
}

fn build_detail(index: usize, token: &str, id: u32) -> (r: Call)
    ensures
        r@ == detail_call(index, token@, id),
{
    let url = path_text("/builds/").concat(decimal_string(id as u64).as_str());
    Call {
        backend: Backend::Travis,
        repo: index,
        purpose: Purpose::BuildDetail,
        request: travis_get(url.as_str(), token),
    }
}

/// What follows the listing of a repository: every running build of the
/// branch below the latest build number is cancelled, and the running builds
/// that carry the latest number are fetched with their jobs. Builds whose
/// commit is on another branch, or unknown, are ignored.
pub fn after_builds(index: usize, token: &str, branch: &str, list: &GetBuilds) -> (r: Result<
    Vec<Call>,
    FetchError,
>)
    ensures
        r.is_ok() <==> numbers_readable(*list, branch@),
        match r {
            Ok(calls) => {
                let sel = selection(candidates_of(*list, branch@), true);
                &&& calls@.len() == sel.len()
                &&& forall|k: int|
                    0 <= k < sel.len() ==> (#[trigger] calls@[k])@ == pick_call(
                        index,
                        token@,
                        *list,
                        sel[k],
                    )
            },
            Err(e) => unreadable_error(*list, branch@, e),
        },
{
    let cands = candidates(list, branch)?;
    let picks = select(&cands, true);
    let n = cands.len();
    proof {
        assert(cands@.len() == n);
        crate::policy::lemma_picks_sound(cands@, crate::policy::max_key(cands@), true);
    }
    let mut calls: Vec<Call> = Vec::new();
    let mut k: usize = 0;
    while k < picks.len()
        invariant
            0 <= k <= picks@.len(),
            picks@ == selection(candidates_of(*list, branch@), true),
            cands@ == candidates_of(*list, branch@),
            cands@.len() == list.builds@.len(),
            forall|j: int| 0 <= j < picks@.len() ==> (#[trigger] picks@[j]).index < cands@.len(),
            calls@.len() == k,
            forall|j: int|
                0 <= j < k ==> (#[trigger] calls@[j])@ == pick_call(index, token@, *list, picks@[j]),
        decreases picks@.len() - k,
    {
        let p = picks[k];
        let id = list.builds[p.index].id;
        if p.stale {
            calls.push(cancel_build(index, token, id));
        } else {
            calls.push(build_detail(index, token, id));
        }
        k = k + 1;
    }
    Ok(calls)
}

/// What follows the detail of the latest build: it is cancelled when it
/// still runs and one of its jobs failed, errored or was cancelled, and left
/// alone otherwise.
pub fn after_build(index: usize, token: &str, detail: &GetBuild) -> (r: Vec<Call>)
    ensures
        r@.len() == (if !is_terminal(detail.build.state@) && any_job_failed(detail.jobs@) {
            1int
        } else {
            0int
        }),
        r@.len() == 1 ==> r@[0]@ == cancel_call(index, token@, detail.build.id),
{
    let mut r: Vec<Call> = Vec::new();
    if build_running(&detail.build) && jobs_failed(&detail.jobs) {
        r.push(cancel_build(index, token, detail.build.id));
    }
    r
}

} // verus!
