#![allow(non_snake_case)]

use vstd::prelude::*;
use vstd::string::*;

use crate::call::{Backend, Call, CallView, PurposeView, Purpose};
use crate::policy::{first_with_key, latest_position, max_key, select, selection, Candidate, Pick};
use crate::request::{appveyor_base, appveyor_delete, appveyor_get, appveyor_headers_of, request_of, Method};
use crate::text::{join_url, str_eq};

verus! {

/// Reply to `GET /projects/{account}/{name}/history`.
#[derive(Debug)]
pub struct History {
    pub project: Project,
    pub builds: Vec<Build>,
}

#[derive(Debug)]
pub struct Project {
    pub projectId: u32,
    pub accountId: u32,
    pub accountName: String,
    pub name: String,
    pub slug: String,
    pub repositoryName: String,
    pub repositoryType: String,
}

#[derive(Debug)]
pub struct Build {
    pub buildId: u32,
    pub jobs: Vec<Job>,
    pub buildNumber: u32,
    pub version: String,
    pub message: String,
    pub branch: String,
    pub commitId: String,
    pub status: String,
    pub started: Option<String>,
    pub finished: Option<String>,
    pub created: String,
    pub updated: Option<String>,
}

#[derive(Debug)]
pub struct Job {
    pub jobId: String,
    pub status: String,
}

/// Reply to `GET /projects/{account}/{name}/branch/{branch}`.
#[derive(Debug)]
pub struct LastBuild {
    pub build: Build,
}

pub open spec fn is_terminal(status: Seq<char>) -> bool {
    status == "failed"@ || status == "cancelled"@ || status == "success"@
}

/// A job status that does not count against the build.
pub open spec fn is_healthy_job(status: Seq<char>) -> bool {
    status == "success"@ || status == "queued"@ || status == "starting"@ || status == "running"@
}

/// The build still runs and one of its jobs is in a status other than
/// success, queued, starting or running.
pub open spec fn tip_failing(b: Build) -> bool {
    &&& !is_terminal(b.status@)
    &&& exists|i: int| 0 <= i < b.jobs@.len() && !is_healthy_job(#[trigger] b.jobs@[i].status@)
}

/// The history is filtered by branch on the server, so every build counts.
pub open spec fn candidates_of(history: History) -> Seq<Candidate> {
    history.builds@.map_values(
        |b: Build| Candidate { key: b.buildNumber as u64, on_branch: true, running: !is_terminal(b.status@) },
    )
}

pub open spec fn project_path(account: Seq<char>, name: Seq<char>) -> Seq<char> {
    "/projects/"@ + account + "/"@ + name
}

pub open spec fn history_call(
    index: usize,
    token: Seq<char>,
    account: Seq<char>,
    name: Seq<char>,
    branch: Seq<char>,
) -> CallView {
    CallView {
        backend: Backend::AppVeyor,
        repo: index,
        purpose: PurposeView::ListBuilds,
        request: request_of(
            Method::Get,
            join_url(
                appveyor_base(),
                project_path(account, name) + "/history?recordsNumber=10&branch="@ + branch,
            ),
            appveyor_headers_of(token),
            None,
        ),
    }
}

pub open spec fn tip_call(
    index: usize,
    token: Seq<char>,
    account: Seq<char>,
    name: Seq<char>,
    branch: Seq<char>,
    number: u32,
    version: Seq<char>,
) -> CallView {
    CallView {
        backend: Backend::AppVeyor,
        repo: index,
        purpose: PurposeView::BranchTip(number, version),
        request: request_of(
            Method::Get,
            join_url(appveyor_base(), project_path(account, name) + "/branch/"@ + branch),
            appveyor_headers_of(token),
            None,
        ),
    }
}

pub open spec fn cancel_call(
    index: usize,
    token: Seq<char>,
    account: Seq<char>,
    name: Seq<char>,
    version: Seq<char>,
) -> CallView {
    CallView {
        backend: Backend::AppVeyor,
        repo: index,
        purpose: PurposeView::Cancel,
        request: request_of(
            Method::Delete,
            join_url(appveyor_base(), "/builds/"@ + account + "/"@ + name + "/"@ + version),
            appveyor_headers_of(token),
            None,
        ),
    }
}

/// Different versions give different deletion URLs.
pub proof fn lemma_cancel_url_injective(
    token: Seq<char>,
    account: Seq<char>,
    name: Seq<char>,
    v1: Seq<char>,
    v2: Seq<char>,
)
    requires
        cancel_call(0, token, account, name, v1).request.url == cancel_call(
            0,
            token,
            account,
            name,
            v2,
        ).request.url,
    ensures
        v1 == v2,
{
    reveal_strlit("/builds/");
    reveal_strlit("https://");
    let pre = "/builds/"@ + account + "/"@ + name + "/"@;
    let p1 = pre + v1;
    let p2 = pre + v2;
    assert(p1[0] == '/');
    assert(p2[0] == '/');
    let h = "https://"@;
    assert(h[0] == 'h');
    if h.is_prefix_of(p1) {
        assert(h[0] == p1.subrange(0, h.len() as int)[0]);
    }
    if h.is_prefix_of(p2) {
        assert(h[0] == p2.subrange(0, h.len() as int)[0]);
    }
    assert("/builds/"@ + account + "/"@ + name + "/"@ + v1 == p1);
    assert("/builds/"@ + account + "/"@ + name + "/"@ + v2 == p2);
    let u1 = appveyor_base() + p1;
    let u2 = appveyor_base() + p2;
    let n = (appveyor_base().len() + pre.len()) as int;
    assert(v1 =~= u1.subrange(n, u1.len() as int));
    assert(v2 =~= u2.subrange(n, u2.len() as int));
}

/// Position of the latest build of the history, or -1 when it is empty.
pub open spec fn latest_of(history: History) -> int {
    let c = candidates_of(history);
    first_with_key(c, max_key(c))
}

/// Version of the latest build of the history.
pub open spec fn latest_version(history: History) -> Option<Seq<char>> {
    if latest_of(history) >= 0 {
        Some(history.builds@[latest_of(history)].version@)
    } else {
        None
    }
}

/// Versions to delete for the stale picks `sel`, in order: each version
/// once, and never the version of the latest build.
pub open spec fn stale_versions(history: History, sel: Seq<Pick>) -> Seq<Seq<char>>
    decreases sel.len(),
{
    if sel.len() == 0 {
        seq![]
    } else {
        let rest = stale_versions(history, sel.drop_last());
        let v = history.builds@[sel.last().index as int].version@;
        if latest_version(history) != Some(v) && !rest.contains(v) {
            rest.push(v)
        } else {
            rest
        }
    }
}

/// What the history leads to: the deletions of the stale versions, then,
/// when the latest build still runs, the request for the branch tip, tagged
/// with that build's number and version.
pub open spec fn history_plan(
    index: usize,
    token: Seq<char>,
    account: Seq<char>,
    name: Seq<char>,
    branch: Seq<char>,
    history: History,
) -> Seq<CallView> {
    let vs = stale_versions(history, selection(candidates_of(history), false));
    let l = latest_of(history);
    vs.map_values(|v: Seq<char>| cancel_call(index, token, account, name, v)) + if l >= 0
        && !is_terminal(history.builds@[l].status@) {
        seq![
            tip_call(
                index,
                token,
                account,
                name,
                branch,
                history.builds@[l].buildNumber,
                history.builds@[l].version@,
            ),
        ]
    } else {
        seq![]
    }
}

/// The stale versions hold no repeat and never the latest build's version.
pub proof fn lemma_stale_versions(history: History, sel: Seq<Pick>)
    ensures
        stale_versions(history, sel).no_duplicates(),
        latest_version(history) is Some ==> !stale_versions(history, sel).contains(
            latest_version(history).unwrap(),
        ),
    decreases sel.len(),
{
    if sel.len() > 0 {
        lemma_stale_versions(history, sel.drop_last());
        let rest = stale_versions(history, sel.drop_last());
        let v = history.builds@[sel.last().index as int].version@;
        if latest_version(history) != Some(v) && !rest.contains(v) {
            let r = rest.push(v);
            assert forall|i: int, j: int| 0 <= i < r.len() && 0 <= j < r.len() && i != j implies r[i]
                != r[j] by {
                if i < rest.len() && j < rest.len() {
                } else if i < rest.len() {
                    assert(rest.contains(rest[i]));
                } else {
                    assert(rest.contains(rest[j]));
                }
            }
            if latest_version(history) is Some {
                let lv = latest_version(history).unwrap();
                if r.contains(lv) {
                    let k = choose|k: int| 0 <= k < r.len() && r[k] == lv;
                    if k < rest.len() {
                        assert(rest.contains(lv));
                    }
                }
            }
        }
    }
}

/// Whether the build is still queued or running.
pub fn build_running(build: &Build) -> (r: bool)
    ensures
        r == !is_terminal(build.status@),
{
    let s = build.status.as_str();
    !(str_eq(s, "failed") || str_eq(s, "cancelled") || str_eq(s, "success"))
}

/// Whether the last build of the branch should be cancelled because a job
/// went wrong; the first such job decides.
pub fn tip_should_cancel(last: &LastBuild) -> (r: bool)
    ensures
        r == tip_failing(last.build),
{
    if !build_running(&last.build) {
        return false;
    }
    let jobs = &last.build.jobs;
    let mut i: usize = 0;
    while i < jobs.len()
        invariant
            0 <= i <= jobs@.len(),
            jobs == last.build.jobs,
            !is_terminal(last.build.status@),
            forall|j: int| 0 <= j < i ==> is_healthy_job(#[trigger] jobs@[j].status@),
        decreases jobs@.len() - i,
    {
        let s = jobs[i].status.as_str();
        if !(str_eq(s, "success") || str_eq(s, "queued") || str_eq(s, "starting") || str_eq(
            s,
            "running",
        )) {
            return true;
        }
        i = i + 1;
    }
    false
}

/// The listing as the selection policy sees it.
pub fn candidates(history: &History) -> (r: Vec<Candidate>)
    ensures
        r@ == candidates_of(*history),
{
    let mut r: Vec<Candidate> = Vec::new();
    let mut i: usize = 0;
    while i < history.builds.len()
        invariant
            0 <= i <= history.builds@.len(),
            r@ == candidates_of(*history).take(i as int),
        decreases history.builds@.len() - i,
    {
        let b = &history.builds[i];
        r.push(Candidate { key: b.buildNumber as u64, on_branch: true, running: build_running(b) });
        assert(r@ =~= candidates_of(*history).take(i + 1));
        i = i + 1;
    }
    assert(candidates_of(*history).take(i as int) =~= candidates_of(*history));
    r
}

fn project_url(account: &str, name: &str) -> (r: String)
    ensures
        r@ == project_path(account@, name@),
{
    String::from_str("/projects/").concat(account).concat("/").concat(name)
}

/// The request for the last ten builds of the branch.
pub fn list_history(index: usize, token: &str, account: &str, name: &str, branch: &str) -> (r: Call)
    ensures
        r@ == history_call(index, token@, account@, name@, branch@),
{
    let url = project_url(account, name).concat("/history?recordsNumber=10&branch=").concat(branch);
    Call {
        backend: Backend::AppVeyor,
        repo: index,
        purpose: Purpose::ListBuilds,
        request: appveyor_get(url.as_str(), token),
    }
}

/// The request for the last build of the branch, to be judged only when it
/// is the build with this number and version.
pub fn branch_tip(
    index: usize,
    token: &str,
    account: &str,
    name: &str,
    branch: &str,
    number: u32,
    version: &str,
) -> (r: Call)
    ensures
        r@ == tip_call(index, token@, account@, name@, branch@, number, version@),
{
    let url = project_url(account, name).concat("/branch/").concat(branch);
    Call {
        backend: Backend::AppVeyor,
        repo: index,
        purpose: Purpose::BranchTip(number, String::from_str(version)),
        request: appveyor_get(url.as_str(), token),
    }
}

fn contains_version(vs: &Vec<String>, v: &str) -> (r: bool)
    ensures
        r == vs.deep_view().contains(v@),
{
    let mut i: usize = 0;
    while i < vs.len()
        invariant
            0 <= i <= vs@.len(),
            forall|j: int| 0 <= j < i ==> vs.deep_view()[j] != v@,
        decreases vs@.len() - i,
    {
        if str_eq(vs[i].as_str(), v) {
            assert(vs.deep_view()[i as int] == v@);
            return true;
        }
        i = i + 1;
    }
    false
}

/// The request that cancels the build with this version.
pub fn cancel_build(index: usize, token: &str, account: &str, name: &str, version: &str) -> (r: Call)
    ensures
        r@ == cancel_call(index, token@, account@, name@, version@),
{
    let url = String::from_str("/builds/").concat(account).concat("/").concat(name).concat(
        "/",
    ).concat(version);
    Call {
        backend: Backend::AppVeyor,
        repo: index,
        purpose: Purpose::Cancel,
        request: appveyor_delete(url.as_str(), token),
    }
}

/// What follows the history of a repository: every running build below the
/// latest build number is deleted, each version once and never the version
/// of the latest build; then, when the latest build still runs, its branch
/// tip is fetched to read its jobs.
pub fn after_history(
    index: usize,
    token: &str,
    account: &str,
    name: &str,
    branch: &str,
    history: &History,
) -> (r: Vec<Call>)
    ensures
        r@.len() == history_plan(index, token@, account@, name@, branch@, *history).len(),
        forall|k: int|
            0 <= k < r@.len() ==> (#[trigger] r@[k])@ == history_plan(
                index,
                token@,
                account@,
                name@,
                branch@,
                *history,
            )[k],
{
    let cands = candidates(history);
    let picks = select(&cands, false);
    let latest = latest_position(&cands);
    let n = cands.len();
    proof {
        assert(cands@.len() == n);
        crate::policy::lemma_picks_sound(cands@, max_key(cands@), false);
        crate::policy::lemma_first_with_key(cands@, max_key(cands@));
    }
    let latest_text: Option<&String> = match latest {
        Some(l) => Some(&history.builds[l].version),
        None => None,
    };
    let ghost sel = selection(candidates_of(*history), false);
    let mut done: Vec<String> = Vec::new();
    let mut calls: Vec<Call> = Vec::new();
    let mut k: usize = 0;
    while k < picks.len()
        invariant
            0 <= k <= picks@.len(),
            picks@ == sel,
            sel == selection(candidates_of(*history), false),
            cands@ == candidates_of(*history),
            forall|j: int| 0 <= j < picks@.len() ==> (#[trigger] picks@[j]).index < cands@.len(),
            latest_text.is_some() == latest_version(*history).is_some(),
            latest_text.is_some() ==> latest_text.unwrap()@ == latest_version(
                *history,
            ).unwrap(),
            done.deep_view() == stale_versions(*history, sel.take(k as int)),
            calls@.len() == done@.len(),
            forall|j: int|
                0 <= j < calls@.len() ==> (#[trigger] calls@[j])@ == cancel_call(
                    index,
                    token@,
                    account@,
                    name@,
                    done.deep_view()[j],
                ),
        decreases picks@.len() - k,
    {
        assert(sel.take(k + 1).drop_last() == sel.take(k as int));
        let p = picks[k];
        let v = &history.builds[p.index].version;
        let is_latest = match latest_text {
            Some(lv) => str_eq(lv.as_str(), v.as_str()),
            None => false,
        };
        if !is_latest && !contains_version(&done, v.as_str()) {
            calls.push(cancel_build(index, token, account, name, v.as_str()));
            let ghost before = done.deep_view();
            done.push(v.clone());
            assert(done.deep_view() =~= before.push(v@));
        }
        k = k + 1;
    }
    assert(sel.take(k as int) == sel);
    let ghost cancels = calls@;
    match latest {
        Some(l) => {
            let b = &history.builds[l];
            if build_running(b) {
                calls.push(
                    branch_tip(index, token, account, name, branch, b.buildNumber, b.version.as_str()),
                );
            }
        },
        None => {},
    }
    proof {
        let plan = history_plan(index, token@, account@, name@, branch@, *history);
        let vs = stale_versions(*history, sel);
        assert forall|j: int| 0 <= j < calls@.len() implies (#[trigger] calls@[j])@ == plan[j] by {
            if j < vs.len() {
                assert(calls@[j] == cancels[j]);
            }
        }
    }
    calls
}

/// What follows the branch tip: the build is deleted when it is the latest
/// build of the history (same number and version), still runs, and one of
/// its jobs went wrong.
pub fn after_tip(
    index: usize,
    token: &str,
    account: &str,
    name: &str,
    number: u32,
    version: &str,
    last: &LastBuild,
) -> (r: Vec<Call>)
    ensures
        r@.len() == (if tip_failing(last.build) && last.build.buildNumber == number
            && last.build.version@ == version@ {
            1int
        } else {
            0int
        }),
        r@.len() == 1 ==> r@[0]@ == cancel_call(index, token@, account@, name@, version@),
{
    let mut r: Vec<Call> = Vec::new();
    if last.build.buildNumber == number && str_eq(last.build.version.as_str(), version)
        && tip_should_cancel(last) {
        r.push(cancel_build(index, token, account, name, version));
    }
    r
}

} // verus!
