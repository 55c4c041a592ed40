use vstd::prelude::*;

use crate::appveyor;
use crate::azure;
use crate::call::{Backend, Call, CallView, FetchError, Purpose, PurposeView};
use crate::config::{Config, Repo};
use crate::policy::selection;
use crate::travis;

verus! {

/// A decoded reply to a call, or why there is none.
#[derive(Debug)]
pub enum Reply {
    TravisBuilds(travis::GetBuilds),
    TravisBuild(travis::GetBuild),
    AppveyorHistory(appveyor::History),
    AppveyorTip(appveyor::LastBuild),
    AzureBuilds(azure::List),
    AzureTimeline(azure::Timeline),
    /// A reply whose body is not read, as that of a cancellation.
    Done,
    Failed(FetchError),
}

pub open spec fn token_of(cfg: Config, b: Backend) -> Option<String> {
    match b {
        Backend::Travis => cfg.travis_token,
        Backend::AppVeyor => cfg.appveyor_token,
        Backend::Azure => cfg.azure_pipelines_token,
    }
}

/// The AppVeyor account of a repository: the configured one, else the
/// repository's name.
pub open spec fn account_of(cfg: Config, repo: Repo) -> Seq<char> {
    match cfg.appveyor_account_name {
        Some(a) => a@,
        None => repo.name@,
    }
}

/// The Azure Pipelines organisation of a repository: the configured one,
/// else the repository's owner.
pub open spec fn org_of(cfg: Config, repo: Repo) -> Seq<char> {
    match cfg.azure_pipelines_org {
        Some(o) => o@,
        None => repo.user@,
    }
}

/// The opening requests of one service: none without a token; otherwise one
/// listing per repository.
pub open spec fn backend_part(cfg: Config, b: Backend) -> Seq<CallView> {
    let repos = cfg.repos@;
    let n = repos.len();
    match token_of(cfg, b) {
        None => seq![],
        Some(t) => match b {
            Backend::Travis => Seq::new(
                n,
                |i: int| travis::list_call(i as usize, repos[i].user@, repos[i].name@, t@),
            ),
            Backend::AppVeyor => Seq::new(
                n,
                |i: int|
                    appveyor::history_call(
                        i as usize,
                        t@,
                        account_of(cfg, repos[i]),
                        repos[i].name@,
                        cfg.branch@,
                    ),
            ),
            Backend::Azure => Seq::new(
                n,
                |i: int|
                    azure::list_call(
                        i as usize,
                        t@,
                        org_of(cfg, repos[i]),
                        repos[i].user@,
                        repos[i].name@,
                        cfg.branch@,
                    ),
            ),
        },
    }
}

/// The opening requests of a run, service by service.
pub open spec fn initial_plan(cfg: Config) -> Seq<CallView> {
    backend_part(cfg, Backend::Travis) + backend_part(cfg, Backend::AppVeyor) + backend_part(
        cfg,
        Backend::Azure,
    )
}

/// The reply makes the follow-up fail: the reply itself is a failure, or a
/// Travis listing holds a build of the branch whose number does not read.
pub open spec fn next_fails(
    cfg: Config,
    backend: Backend,
    index: usize,
    purpose: PurposeView,
    reply: Reply,
) -> bool {
    match reply {
        Reply::Failed(_) => true,
        Reply::TravisBuilds(list) => backend == Backend::Travis && purpose == PurposeView::ListBuilds
            && index < cfg.repos@.len() && token_of(cfg, backend) is Some
            && !travis::numbers_readable(list, cfg.branch@),
        _ => false,
    }
}

/// The requests that follow a reply. A call whose service has no token, whose
/// repository is unknown, or whose reply does not match its purpose leads
/// nowhere.
pub open spec fn next_plan(
    cfg: Config,
    backend: Backend,
    index: usize,
    purpose: PurposeView,
    reply: Reply,
) -> Seq<CallView> {
    if index >= cfg.repos@.len() || token_of(cfg, backend) is None {
        seq![]
    } else {
        let t = token_of(cfg, backend).unwrap()@;
        let repo = cfg.repos@[index as int];
        match (backend, purpose, reply) {
            (Backend::Travis, PurposeView::ListBuilds, Reply::TravisBuilds(list)) => {
                let sel = selection(travis::candidates_of(list, cfg.branch@), true);
                Seq::new(sel.len(), |k: int| travis::pick_call(index, t, list, sel[k]))
            },
            (Backend::Travis, PurposeView::BuildDetail, Reply::TravisBuild(d)) => {
                if !travis::is_terminal(d.build.state@) && travis::any_job_failed(d.jobs@) {
                    seq![travis::cancel_call(index, t, d.build.id)]
                } else {
                    seq![]
                }
            },
            (Backend::AppVeyor, PurposeView::ListBuilds, Reply::AppveyorHistory(h)) => {
                appveyor::history_plan(index, t, account_of(cfg, repo), repo.name@, cfg.branch@, h)
            },
            (Backend::AppVeyor, PurposeView::BranchTip(number, version), Reply::AppveyorTip(last)) => {
                if appveyor::tip_failing(last.build) && last.build.buildNumber == number
                    && last.build.version@ == version {
                    seq![appveyor::cancel_call(index, t, account_of(cfg, repo), repo.name@, version)]
                } else {
                    seq![]
                }
            },
            (Backend::Azure, PurposeView::ListBuilds, Reply::AzureBuilds(list)) => {
                let sel = selection(azure::candidates_of(list), true);
                Seq::new(
                    sel.len(),
                    |k: int| azure::pick_call(index, t, org_of(cfg, repo), repo.name@, list, sel[k]),
                )
            },
            (Backend::Azure, PurposeView::Timeline(id), Reply::AzureTimeline(timeline)) => {
                if azure::any_job_failed(timeline) {
                    seq![azure::cancel_call(index, t, org_of(cfg, repo), repo.name@, id)]
                } else {
                    seq![]
                }
            },
            _ => seq![],
        }
    }
}

fn account<'a>(cfg: &'a Config, repo: &'a Repo) -> (r: &'a str)
    ensures
        r@ == account_of(*cfg, *repo),
{
    match &cfg.appveyor_account_name {
        Some(a) => a.as_str(),
        None => repo.name.as_str(),
    }
}

fn org<'a>(cfg: &'a Config, repo: &'a Repo) -> (r: &'a str)
    ensures
        r@ == org_of(*cfg, *repo),
{
    match &cfg.azure_pipelines_org {
        Some(o) => o.as_str(),
        None => repo.user.as_str(),
    }
}

fn token<'a>(cfg: &'a Config, b: Backend) -> (r: Option<&'a String>)
    ensures
        r.is_some() == token_of(*cfg, b).is_some(),
        r.is_some() ==> *r.unwrap() == token_of(*cfg, b).unwrap(),
{
    match b {
        Backend::Travis => cfg.travis_token.as_ref(),
        Backend::AppVeyor => cfg.appveyor_token.as_ref(),
        Backend::Azure => cfg.azure_pipelines_token.as_ref(),
    }
}

/// Appends the opening requests of one service to `calls`.
fn push_backend(cfg: &Config, b: Backend, calls: &mut Vec<Call>)
    ensures
        final(calls)@.len() == old(calls)@.len() + backend_part(*cfg, b).len(),
        forall|k: int| 0 <= k < old(calls)@.len() ==> #[trigger] final(calls)@[k] == old(calls)@[k],
        forall|k: int|
            0 <= k < backend_part(*cfg, b).len() ==> (#[trigger] final(calls)@[old(calls)@.len() + k])@
                == backend_part(*cfg, b)[k],
{
    let t = match token(cfg, b) {
        Some(t) => t,
        None => {
            return;
        },
    };
    let ghost start = calls@.len();
    let ghost part = backend_part(*cfg, b);
    let n = cfg.repos.len();
    let mut i: usize = 0;
    while i < n
        invariant
            n == cfg.repos@.len(),
            0 <= i <= n,
            part == backend_part(*cfg, b),
            token_of(*cfg, b) == Some(*t),
            calls@.len() == start + i,
            forall|k: int| 0 <= k < start ==> #[trigger] calls@[k] == old(calls)@[k],
            forall|k: int|
                0 <= k < i ==> (#[trigger] calls@[start + k])@ == part[k],
        decreases n - i,
    {
        let repo = &cfg.repos[i];
        let c = match b {
            Backend::Travis => travis::list_builds(i, repo, t.as_str()),
            Backend::AppVeyor => appveyor::list_history(
                i,
                t.as_str(),
                account(cfg, repo),
                repo.name.as_str(),
                cfg.branch.as_str(),
            ),
            Backend::Azure => azure::list_builds(
                i,
                t.as_str(),
                org(cfg, repo),
                repo.user.as_str(),
                repo.name.as_str(),
                cfg.branch.as_str(),
            ),
        };
        calls.push(c);
        i = i + 1;
    }
}

/// The opening requests of a run: for each service that has a token, in the
/// order Travis, AppVeyor, Azure Pipelines, the listing of every repository.
pub fn initial_calls(cfg: &Config) -> (r: Vec<Call>)
    ensures
        r@.len() == initial_plan(*cfg).len(),
        forall|k: int| 0 <= k < r@.len() ==> (#[trigger] r@[k])@ == initial_plan(*cfg)[k],
{
    let mut calls: Vec<Call> = Vec::new();
    push_backend(cfg, Backend::Travis, &mut calls);
    let ghost after_travis = calls@;
    push_backend(cfg, Backend::AppVeyor, &mut calls);
    let ghost after_appveyor = calls@;
    push_backend(cfg, Backend::Azure, &mut calls);
    proof {
        let t = backend_part(*cfg, Backend::Travis);
        let a = backend_part(*cfg, Backend::AppVeyor);
        let z = backend_part(*cfg, Backend::Azure);
        let plan = initial_plan(*cfg);
        assert forall|k: int| 0 <= k < calls@.len() implies (#[trigger] calls@[k])@ == plan[k] by {
            assert(plan == (t + a) + z);
            if k < t.len() {
                assert(plan[k] == (t + a)[k]);
                assert(after_appveyor[k] == after_travis[k]);
                assert(after_travis[0 + k]@ == t[k]);
                assert(calls@[k] == after_appveyor[k]);
            } else if k < t.len() + a.len() {
                assert(plan[k] == (t + a)[k]);
                assert(calls@[k] == after_appveyor[k]);
                assert(after_appveyor[t.len() + (k - t.len())]@ == a[k - t.len()]);
            } else {
                assert(calls@[t.len() + a.len() + (k - t.len() - a.len())]@ == z[k - t.len()
                    - a.len()]);
            }
        }
    }
    calls
}

/// Reads the reply to `call` and returns the requests that follow it. A
/// failed reply is handed back as the error, and a Travis listing fails when
/// a build of the branch has an unreadable number; either way the repository
/// is left alone for this run. Every follow-up belongs to the service and the
/// repository of `call`.
pub fn next_calls(cfg: &Config, call: &Call, reply: Reply) -> (r: Result<Vec<Call>, FetchError>)
    ensures
        r.is_err() <==> next_fails(*cfg, call.backend, call.repo, call.purpose@, reply),
        match r {
            Ok(calls) => {
                let plan = next_plan(*cfg, call.backend, call.repo, call.purpose@, reply);
                &&& calls@.len() == plan.len()
                &&& forall|k: int| 0 <= k < plan.len() ==> (#[trigger] calls@[k])@ == plan[k]
                &&& forall|k: int|
                    0 <= k < plan.len() ==> (#[trigger] calls@[k]).backend == call.backend
                        && calls@[k].repo == call.repo
            },
            Err(e) => match reply {
                Reply::Failed(f) => e == f,
                Reply::TravisBuilds(list) => travis::unreadable_error(list, cfg.branch@, e),
                _ => false,
            },
        },
{
    let reply = match reply {
        Reply::Failed(e) => {
            return Err(e);
        },
        other => other,
    };
    let index = call.repo;
    if index >= cfg.repos.len() {
        return Ok(Vec::new());
    }
    let t = match token(cfg, call.backend) {
        Some(t) => t.as_str(),
        None => {
            return Ok(Vec::new());
        },
    };
    let repo = &cfg.repos[index];
    let ghost plan = next_plan(*cfg, call.backend, call.repo, call.purpose@, reply);
    let calls = match (call.backend, &call.purpose, reply) {
        (Backend::Travis, Purpose::ListBuilds, Reply::TravisBuilds(list)) => {
            travis::after_builds(index, t, cfg.branch.as_str(), &list)?
        },
        (Backend::Travis, Purpose::BuildDetail, Reply::TravisBuild(detail)) => {
            travis::after_build(index, t, &detail)
        },
        (Backend::AppVeyor, Purpose::ListBuilds, Reply::AppveyorHistory(history)) => {
            appveyor::after_history(
                index,
                t,
                account(cfg, repo),
                repo.name.as_str(),
                cfg.branch.as_str(),
                &history,
            )
        },
        (Backend::AppVeyor, Purpose::BranchTip(number, version), Reply::AppveyorTip(last)) => {
            appveyor::after_tip(
                index,
                t,
                account(cfg, repo),
                repo.name.as_str(),
                *number,
                version.as_str(),
                &last,
            )
        },
        (Backend::Azure, Purpose::ListBuilds, Reply::AzureBuilds(list)) => {
            azure::after_list(index, t, org(cfg, repo), repo.name.as_str(), &list)
        },
        (Backend::Azure, Purpose::Timeline(id), Reply::AzureTimeline(timeline)) => {
            azure::after_timeline(index, t, org(cfg, repo), repo.name.as_str(), *id, &timeline)
        },
        _ => Vec::new(),
    };
    assert(calls@.len() == plan.len());
    assert(forall|k: int| 0 <= k < plan.len() ==> (#[trigger] calls@[k])@ == plan[k]);
    Ok(calls)
}

/// A service without a token issues no request in the run: none opens it,
/// and no reply leads to one of its requests, since follow-ups keep the
/// service of the call they follow.
pub proof fn idle_backend_issues_nothing(cfg: Config, b: Backend)
    requires
        token_of(cfg, b) is None,
    ensures
        forall|k: int| 0 <= k < initial_plan(cfg).len() ==> (#[trigger] initial_plan(cfg)[k]).backend != b,
        forall|index: usize, purpose: PurposeView, reply: Reply|
            #[trigger] next_plan(cfg, b, index, purpose, reply) == Seq::<CallView>::empty(),
{
    assert forall|k: int| 0 <= k < initial_plan(cfg).len() implies (#[trigger] initial_plan(
        cfg,
    )[k]).backend != b by {
        let t = backend_part(cfg, Backend::Travis);
        let a = backend_part(cfg, Backend::AppVeyor);
        let z = backend_part(cfg, Backend::Azure);
        assert(initial_plan(cfg) == (t + a) + z);
        if k < t.len() {
            assert(initial_plan(cfg)[k] == (t + a)[k]);
        } else if k < t.len() + a.len() {
            assert(initial_plan(cfg)[k] == (t + a)[k]);
        }
    }
}

/// Configurations that agree on all but the token of service `b`.
pub open spec fn differ_in_token(cfg1: Config, cfg2: Config, b: Backend) -> bool {
    &&& cfg1.branch == cfg2.branch
    &&& cfg1.repos == cfg2.repos
    &&& cfg1.appveyor_account_name == cfg2.appveyor_account_name
    &&& cfg1.azure_pipelines_org == cfg2.azure_pipelines_org
    &&& forall|c: Backend| c != b ==> token_of(cfg1, c) == token_of(cfg2, c)
}

/// Whether service `b` has a token does not change what the other services
/// do: their opening requests and every follow-up are the same.
pub proof fn other_backends_unaffected(cfg1: Config, cfg2: Config, b: Backend, c: Backend)
    requires
        differ_in_token(cfg1, cfg2, b),
        c != b,
    ensures
        backend_part(cfg1, c) == backend_part(cfg2, c),
        forall|index: usize, purpose: PurposeView, reply: Reply|
            #[trigger] next_plan(cfg1, c, index, purpose, reply) == next_plan(cfg2, c, index, purpose, reply),
{
    assert(token_of(cfg1, c) == token_of(cfg2, c));
}

/// A Travis listing cancels only stale builds: each cancellation it leads to
/// names a running build of the branch whose number is below the latest. The
/// latest build is only fetched with its jobs, and `travis::after_build`
/// cancels it only when one of them failed.
pub proof fn travis_listing_spares_latest(cfg: Config, index: usize, list: travis::GetBuilds)
    requires
        list.builds@.len() <= usize::MAX,
    ensures
        ({
            let c = travis::candidates_of(list, cfg.branch@);
            let sel = selection(c, true);
            let plan = next_plan(cfg, Backend::Travis, index, PurposeView::ListBuilds, Reply::TravisBuilds(list));
            forall|k: int|
                0 <= k < plan.len() && (#[trigger] plan[k]).purpose == PurposeView::Cancel ==> {
                    let b = c[sel[k].index as int];
                    b.on_branch && b.running && b.key < crate::policy::max_key(c)
                }
        }),
{
    let c = travis::candidates_of(list, cfg.branch@);
    crate::policy::lemma_picks_sound(c, crate::policy::max_key(c), true);
}

/// An AppVeyor history deletes only stale builds: each deletion it leads to
/// names the version of a running build whose number is below the latest,
/// and never the latest build's version. The latest build is judged from the
/// branch tip, by `appveyor::after_tip`.
pub proof fn appveyor_history_spares_latest(history: appveyor::History)
    requires
        history.builds@.len() <= usize::MAX,
    ensures
        ({
            let c = appveyor::candidates_of(history);
            let sel = selection(c, false);
            let vs = appveyor::stale_versions(history, sel);
            &&& forall|k: int|
                0 <= k < sel.len() ==> {
                    let b = c[(#[trigger] sel[k]).index as int];
                    b.running && b.key < crate::policy::max_key(c)
                }
            &&& forall|k: int|
                0 <= k < vs.len() ==> exists|j: int|
                    0 <= j < sel.len() && #[trigger] vs[k] == history.builds@[sel[j].index as int].version@
            &&& appveyor::latest_version(history) is Some ==> !vs.contains(
                appveyor::latest_version(history).unwrap(),
            )
        }),
{
    let c = appveyor::candidates_of(history);
    let sel = selection(c, false);
    crate::policy::lemma_picks_sound(c, crate::policy::max_key(c), false);
    appveyor::lemma_stale_versions(history, sel);
    lemma_stale_versions_from(history, sel);
}

proof fn lemma_stale_versions_from(history: appveyor::History, sel: Seq<crate::policy::Pick>)
    ensures
        forall|k: int|
            0 <= k < appveyor::stale_versions(history, sel).len() ==> exists|j: int|
                0 <= j < sel.len() && #[trigger] appveyor::stale_versions(history, sel)[k]
                    == history.builds@[sel[j].index as int].version@,
    decreases sel.len(),
{
    if sel.len() > 0 {
        let d = sel.drop_last();
        lemma_stale_versions_from(history, d);
        let rest = appveyor::stale_versions(history, d);
        let vs = appveyor::stale_versions(history, sel);
        assert forall|k: int| 0 <= k < vs.len() implies exists|j: int|
            0 <= j < sel.len() && #[trigger] vs[k] == history.builds@[sel[j].index as int].version@ by {
            if k < rest.len() {
                let j = choose|j: int|
                    0 <= j < d.len() && #[trigger] rest[k] == history.builds@[d[j].index as int].version@;
                assert(sel[j] == d[j]);
            } else {
                assert(vs[k] == history.builds@[sel[sel.len() - 1].index as int].version@);
            }
        }
    }
}

/// The requests of one repository on AppVeyor after its history `history`:
/// what the history leads to, then what the branch tip `last` leads to.
pub open spec fn appveyor_run(cfg: Config, index: usize, history: appveyor::History, last: appveyor::LastBuild) -> Seq<CallView> {
    let p = next_plan(cfg, Backend::AppVeyor, index, PurposeView::ListBuilds, Reply::AppveyorHistory(history));
    p + if p.len() > 0 && p.last().purpose is BranchTip {
        next_plan(cfg, Backend::AppVeyor, index, p.last().purpose, Reply::AppveyorTip(last))
    } else {
        seq![]
    }
}

/// On AppVeyor a run deletes each build at most once: no two deletions of a
/// repository's requests name the same URL, whatever the branch tip says.
pub proof fn appveyor_deletes_once(cfg: Config, index: usize, history: appveyor::History, last: appveyor::LastBuild)
    requires
        history.builds@.len() <= usize::MAX,
    ensures
        ({
            let all = appveyor_run(cfg, index, history, last);
            forall|i: int, j: int|
                0 <= i < j < all.len() && (#[trigger] all[i]).purpose == PurposeView::Cancel
                    && (#[trigger] all[j]).purpose == PurposeView::Cancel ==> all[i].request.url
                    != all[j].request.url
        }),
{
    let all = appveyor_run(cfg, index, history, last);
    if index < cfg.repos@.len() && token_of(cfg, Backend::AppVeyor) is Some {
        let t = token_of(cfg, Backend::AppVeyor).unwrap()@;
        let repo = cfg.repos@[index as int];
        let acct = account_of(cfg, repo);
        let c = appveyor::candidates_of(history);
        let sel = selection(c, false);
        let vs = appveyor::stale_versions(history, sel);
        appveyor::lemma_stale_versions(history, sel);
        crate::policy::lemma_first_with_key(c, crate::policy::max_key(c));
        let p = next_plan(cfg, Backend::AppVeyor, index, PurposeView::ListBuilds, Reply::AppveyorHistory(history));
        assert(p == appveyor::history_plan(index, t, acct, repo.name@, cfg.branch@, history));
        // the version each deletion names
        let ver = |i: int| if i < vs.len() { vs[i] } else { appveyor::latest_version(history).unwrap() };
        assert forall|i: int|
            0 <= i < all.len() && (#[trigger] all[i]).purpose == PurposeView::Cancel implies (i < vs.len()
                || appveyor::latest_version(history) is Some) && all[i] == appveyor::cancel_call(
                index,
                t,
                acct,
                repo.name@,
                ver(i),
            ) by {
            if i < vs.len() {
                assert(all[i] == p[i]);
            } else if i < p.len() {
                assert(all[i] == p[i]);
            } else {
                let l = appveyor::latest_of(history);
                assert(p.last().purpose == PurposeView::BranchTip(
                    history.builds@[l].buildNumber,
                    history.builds@[l].version@,
                ));
            }
        }
        assert forall|i: int, j: int|
            0 <= i < j < all.len() && (#[trigger] all[i]).purpose == PurposeView::Cancel
                && (#[trigger] all[j]).purpose == PurposeView::Cancel implies all[i].request.url
                != all[j].request.url by {
            if all[i].request.url == all[j].request.url {
                appveyor::lemma_cancel_url_injective(t, acct, repo.name@, ver(i), ver(j));
                if j < vs.len() {
                    assert(vs[i] != vs[j]);
                } else {
                    assert(vs.contains(vs[i]));
                }
            }
        }
    }
}

/// An Azure Pipelines listing cancels only stale builds: each cancellation
/// it leads to names a running build whose id is below the latest. The latest
/// build only has its timeline fetched, and `azure::after_timeline` cancels it
/// only when a job record failed.
pub proof fn azure_listing_spares_latest(cfg: Config, index: usize, list: azure::List)
    requires
        list.value@.len() <= usize::MAX,
    ensures
        ({
            let c = azure::candidates_of(list);
            let sel = selection(c, true);
            let plan = next_plan(cfg, Backend::Azure, index, PurposeView::ListBuilds, Reply::AzureBuilds(list));
            forall|k: int|
                0 <= k < plan.len() && (#[trigger] plan[k]).purpose == PurposeView::Cancel ==> {
                    let b = c[sel[k].index as int];
                    b.running && b.key < crate::policy::max_key(c)
                }
        }),
{
    let c = azure::candidates_of(list);
    crate::policy::lemma_picks_sound(c, crate::policy::max_key(c), true);
}

/// How a run ended.
#[derive(Clone, Copy, PartialEq, Eq, Structural, Debug)]
pub enum Outcome {
    /// Every request was answered.
    Finished,
    /// The deadline passed first; requests still out are no longer awaited.
    TimedOut,
}

/// The race of one run against its deadline: the number of requests still
/// out, and the outcome once there is one.
#[derive(Clone, Copy, PartialEq, Eq, Structural, Debug)]
pub struct Run {
    pub outstanding: usize,
    pub outcome: Option<Outcome>,
}

impl Run {
    /// A run without an outcome still waits on some request, and a finished
    /// run waits on none.
    pub open spec fn wf(&self) -> bool {
        &&& self.outcome is None ==> self.outstanding > 0
        &&& self.outcome == Some(Outcome::Finished) ==> self.outstanding == 0
    }

    /// A run that opens with `calls` requests; with none it is finished at once.
    pub fn start(calls: usize) -> (r: Run)
        ensures
            r.wf(),
            r.outstanding == calls,
            r.outcome == (if calls == 0 {
                Some(Outcome::Finished)
            } else {
                None
            }),
    {
        if calls == 0 {
            Run { outstanding: 0, outcome: Some(Outcome::Finished) }
        } else {
            Run { outstanding: calls, outcome: None }
        }
    }

    /// One request was answered and led to `spawned` more. A run that has
    /// an outcome keeps it.
    pub fn settle(&mut self, spawned: usize)
        requires
            old(self).wf(),
            old(self).outcome is None ==> old(self).outstanding - 1 + spawned <= usize::MAX,
        ensures
            final(self).wf(),
            old(self).outcome is Some ==> *final(self) == *old(self),
            old(self).outcome is None ==> {
                &&& final(self).outstanding == old(self).outstanding - 1 + spawned
                &&& final(self).outcome == if final(self).outstanding == 0 {
                    Some(Outcome::Finished)
                } else {
                    None
                }
            },
    {
        if self.outcome.is_some() {
            return;
        }
        self.outstanding = self.outstanding - 1 + spawned;
        if self.outstanding == 0 {
            self.outcome = Some(Outcome::Finished);
        }
    }

    /// The deadline passed: a run still waiting times out, and a run that
    /// has an outcome keeps it.
    pub fn deadline(&mut self)
        requires
            old(self).wf(),
        ensures
            final(self).wf(),
            final(self).outstanding == old(self).outstanding,
            final(self).outcome == match old(self).outcome {
                None => Some(Outcome::TimedOut),
                Some(o) => Some(o),
            },
    {
        if self.outcome.is_none() {
            self.outcome = Some(Outcome::TimedOut);
        }
    }

    /// Whether the run has ended, either way.
    pub fn is_over(&self) -> (r: bool)
        ensures
            r == self.outcome is Some,
    {
        self.outcome.is_some()
    }

    /// The process status after the run: a timeout is an expected outcome,
    /// not a failure, so both outcomes exit with 0.
    pub fn exit_code(&self) -> (r: i32)
        ensures
            r == 0,
    {
        0
    }
}

} // verus!
