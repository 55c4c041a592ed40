use vstd::prelude::*;
use vstd::string::*;

use crate::call::{Backend, Call, CallView, PurposeView, Purpose};
use crate::policy::{select, selection, Candidate, Pick};
use crate::request::{
    azure_base,
    azure_headers_of,
    azure_patch,
    azure_pipelines_get,
    json_content,
    request_of,
    Method,
};
use crate::text::{decimal, decimal_string, join_url, str_eq};

verus! {

/// Reply to the build listing of a repository on a branch.
#[derive(Debug)]
pub struct List {
    pub value: Vec<Build>,
}

#[derive(Debug)]
pub struct Build {
    pub id: u32,
    pub status: String,
    pub _links: BuildLinks,
}

#[derive(Debug)]
pub struct BuildLinks {
    pub timeline: Link,
}

#[derive(Debug)]
pub struct Link {
    pub href: String,
}

/// Reply to a build's timeline link.
#[derive(Debug)]
pub struct Timeline {
    pub records: Vec<Record>,
}

/// One timeline record; `kind` is the record's `type`.
#[derive(Debug)]
pub struct Record {
    pub name: String,
    pub result: Option<String>,
    pub kind: String,
}

pub open spec fn is_terminal(status: Seq<char>) -> bool {
    status == "cancelling"@ || status == "completed"@
}

pub open spec fn is_failed_job(r: Record) -> bool {
    &&& r.kind@ == "Job"@
    &&& r.result is Some
    &&& r.result.unwrap()@ == "failed"@
}

pub open spec fn any_job_failed(t: Timeline) -> bool {
    exists|i: int| 0 <= i < t.records@.len() && is_failed_job(#[trigger] t.records@[i])
}

/// The listing is filtered by branch on the server; the build id orders it.
pub open spec fn candidates_of(list: List) -> Seq<Candidate> {
    list.value@.map_values(
        |b: Build| Candidate { key: b.id as u64, on_branch: true, running: !is_terminal(b.status@) },
    )
}

pub open spec fn list_call(
    index: usize,
    token: Seq<char>,
    org: Seq<char>,
    user: Seq<char>,
    name: Seq<char>,
    branch: Seq<char>,
) -> CallView {
    CallView {
        backend: Backend::Azure,
        repo: index,
        purpose: PurposeView::ListBuilds,
        request: request_of(
            Method::Get,
            join_url(
                azure_base(),
                "/"@ + org + "/"@ + name
                    + "/_apis/build/builds?api-version=5.0&repositoryType=GitHub&repositoryId="@
                    + user + "/"@ + name + "&branchName=refs/heads/"@ + branch,
            ),
            azure_headers_of(token),
            None,
        ),
    }
}

pub open spec fn cancel_body() -> Seq<char> {
    "{\"status\":\"Cancelling\"}"@
}

pub open spec fn cancel_call(
    index: usize,
    token: Seq<char>,
    org: Seq<char>,
    name: Seq<char>,
    id: u32,
) -> CallView {
    CallView {
        backend: Backend::Azure,
        repo: index,
        purpose: PurposeView::Cancel,
        request: request_of(
            Method::Patch,
            join_url(
                azure_base(),
                "/"@ + org + "/"@ + name + "/_apis/build/builds/"@ + decimal(id as nat)
                    + "?api-version=5.0"@,
            ),
            azure_headers_of(token).push(json_content()),
            Some(cancel_body()),
        ),
    }
}

pub open spec fn timeline_call(index: usize, token: Seq<char>, href: Seq<char>, id: u32) -> CallView {
    CallView {
        backend: Backend::Azure,
        repo: index,
        purpose: PurposeView::Timeline(id),
        request: request_of(
            Method::Get,
            join_url(azure_base(), href),
            azure_headers_of(token),
            None,
        ),
    }
}

/// A stale build is cancelled; the latest build has its timeline fetched.
pub open spec fn pick_call(
    index: usize,
    token: Seq<char>,
    org: Seq<char>,
    name: Seq<char>,
    list: List,
    p: Pick,
) -> CallView {
    let b = list.value@[p.index as int];
    if p.stale {
        cancel_call(index, token, org, name, b.id)
    } else {
        timeline_call(index, token, b._links.timeline.href@, b.id)
    }
}

/// Whether the build is still queued or running.
pub fn build_running(build: &Build) -> (r: bool)
    ensures
        r == !is_terminal(build.status@),
{
    let s = build.status.as_str();
    !(str_eq(s, "cancelling") || str_eq(s, "completed"))
}

/// Whether the timeline holds a job record whose result is `failed`.
pub fn timeline_failed(timeline: &Timeline) -> (r: bool)
    ensures
        r == any_job_failed(*timeline),
{
    let records = &timeline.records;
    let mut i: usize = 0;
    while i < records.len()
        invariant
            0 <= i <= records@.len(),
            records == timeline.records,
            forall|j: int| 0 <= j < i ==> !is_failed_job(#[trigger] records@[j]),
        decreases records@.len() - i,
    {
        let rec = &records[i];
        if str_eq(rec.kind.as_str(), "Job") {
            match &rec.result {
                Some(res) => {
                    if str_eq(res.as_str(), "failed") {
                        return true;
                    }
                },
                None => {},
            }
        }
        i = i + 1;
    }
    false
}

/// The listing as the selection policy sees it.
pub fn candidates(list: &List) -> (r: Vec<Candidate>)
    ensures
        r@ == candidates_of(*list),
{
    let mut r: Vec<Candidate> = Vec::new();
    let mut i: usize = 0;
    while i < list.value.len()
        invariant
            0 <= i <= list.value@.len(),
            r@ == candidates_of(*list).take(i as int),
        decreases list.value@.len() - i,
    {
        let b = &list.value[i];
        r.push(Candidate { key: b.id as u64, on_branch: true, running: build_running(b) });
        assert(r@ =~= candidates_of(*list).take(i + 1));
        i = i + 1;
    }
    assert(candidates_of(*list).take(i as int) =~= candidates_of(*list));
    r
}

/// The request for the builds of `user/name` on the branch, under `org`.
pub fn list_builds(
    index: usize,
    token: &str,
    org: &str,
    user: &str,
    name: &str,
    branch: &str,
) -> (r: Call)
    ensures
        r@ == list_call(index, token@, org@, user@, name@, branch@),
{
    let url = String::from_str("/").concat(org).concat("/").concat(name).concat(
        "/_apis/build/builds?api-version=5.0&repositoryType=GitHub&repositoryId=",
    ).concat(user).concat("/").concat(name).concat("&branchName=refs/heads/").concat(branch);
    Call {
        backend: Backend::Azure,
        repo: index,
        purpose: Purpose::ListBuilds,
        request: azure_pipelines_get(url.as_str(), token),
    }
}

/// The request that asks for build `id` to be cancelled.
pub fn cancel_build(index: usize, token: &str, org: &str, name: &str, id: u32) -> (r: Call)
    ensures
        r@ == cancel_call(index, token@, org@, name@, id),
{
    let url = String::from_str("/").concat(org).concat("/").concat(name).concat(
        "/_apis/build/builds/",
    ).concat(decimal_string(id as u64).as_str()).concat("?api-version=5.0");
    Call {
        backend: Backend::Azure,
        repo: index,
        purpose: Purpose::Cancel,
        request: azure_patch(url.as_str(), token, "{\"status\":\"Cancelling\"}"),
    }
}

fn fetch_timeline(index: usize, token: &str, href: &str, id: u32) -> (r: Call)
    ensures
        r@ == timeline_call(index, token@, href@, id),
{
    Call {
        backend: Backend::Azure,
        repo: index,
        purpose: Purpose::Timeline(id),
        request: azure_pipelines_get(href, token),
    }
}

/// What follows the listing of a repository: every running build below the
/// latest id is cancelled, and the running build with the latest id has its
/// timeline fetched.
pub fn after_list(index: usize, token: &str, org: &str, name: &str, list: &List) -> (r: Vec<Call>)
    ensures
        ({
            let sel = selection(candidates_of(*list), true);
            &&& r@.len() == sel.len()
            &&& forall|k: int|
                0 <= k < sel.len() ==> (#[trigger] r@[k])@ == pick_call(
                    index,
                    token@,
                    org@,
                    name@,
                    *list,
                    sel[k],
                )
        }),
{
    let cands = candidates(list);
    let picks = select(&cands, true);
    let n = cands.len();
    proof {
        assert(cands@.len() == n);
        crate::policy::lemma_picks_sound(cands@, crate::policy::max_key(cands@), true);
    }
    let mut calls: Vec<Call> = Vec::new();
    let mut k: usize = 0;
    while k < picks.len()
        invariant
            0 <= k <= picks@.len(),
            picks@ == selection(candidates_of(*list), true),
            cands@ == candidates_of(*list),
            forall|j: int| 0 <= j < picks@.len() ==> (#[trigger] picks@[j]).index < cands@.len(),
            calls@.len() == k,
            forall|j: int|
                0 <= j < k ==> (#[trigger] calls@[j])@ == pick_call(
                    index,
                    token@,
                    org@,
                    name@,
                    *list,
                    picks@[j],
                ),
        decreases picks@.len() - k,
    {
        let p = picks[k];
        let b = &list.value[p.index];
        if p.stale {
            calls.push(cancel_build(index, token, org, name, b.id));
        } else {
            calls.push(fetch_timeline(index, token, b._links.timeline.href.as_str(), b.id));
        }
        k = k + 1;
    }
    calls
}

/// What follows the timeline of the latest build: the build is cancelled
/// when a job record failed.
pub fn after_timeline(
    index: usize,
    token: &str,
    org: &str,
    name: &str,
    id: u32,
    timeline: &Timeline,
) -> (r: Vec<Call>)
    ensures
        r@.len() == (if any_job_failed(*timeline) {
            1int
        } else {
            0int
        }),
        r@.len() == 1 ==> r@[0]@ == cancel_call(index, token@, org@, name@, id),
{
    let mut r: Vec<Call> = Vec::new();
    if timeline_failed(timeline) {
        r.push(cancel_build(index, token, org, name, id));
    }
    r
}

} // verus!
