use cancelbot::appveyor;
use cancelbot::azure;
use cancelbot::call::{Backend, Call, FetchError, Purpose};
use cancelbot::config::{parse_repo, Config, ConfigError};
use cancelbot::request::{status_accepted, Method};
use cancelbot::run::{initial_calls, next_calls, Outcome, Reply, Run};
use cancelbot::travis;

const AGENT: &str = "User-Agent: cancelbot (github.com/rust-lang/rust-central-station)";

fn config(travis: Option<&str>, appveyor: Option<&str>, azure: Option<&str>) -> Config {
    Config::new(
        Some("master".to_string()),
        travis.map(|t| t.to_string()),
        appveyor.map(|t| t.to_string()),
        azure.map(|t| t.to_string()),
        None,
        None,
        None,
        &vec!["rust-lang/example".to_string()],
    )
    .unwrap()
}

fn call_of(backend: Backend, purpose: Purpose) -> Call {
    let cfg = config(Some("t"), Some("a"), Some("z"));
    initial_calls(&cfg)
        .into_iter()
        .find(|c| c.backend == backend && c.purpose == purpose)
        .unwrap()
}

fn travis_build(id: u32, number: &str, state: &str, commit_id: u32) -> travis::Build {
    travis::Build {
        id,
        number: number.to_string(),
        state: state.to_string(),
        commit_id,
        job_ids: vec![],
    }
}

fn travis_job(state: &str) -> travis::Job {
    travis::Job { id: 1, build_id: 101, allow_failure: false, state: state.to_string() }
}

fn appveyor_build(number: u32, version: &str, status: &str, jobs: Vec<&str>) -> appveyor::Build {
    appveyor::Build {
        buildId: number * 100,
        jobs: jobs
            .into_iter()
            .map(|s| appveyor::Job { jobId: "j".to_string(), status: s.to_string() })
            .collect(),
        buildNumber: number,
        version: version.to_string(),
        message: String::new(),
        branch: "master".to_string(),
        commitId: "abc".to_string(),
        status: status.to_string(),
        started: None,
        finished: None,
        created: String::new(),
        updated: None,
    }
}

fn appveyor_history(builds: Vec<appveyor::Build>) -> appveyor::History {
    appveyor::History {
        project: appveyor::Project {
            projectId: 1,
            accountId: 2,
            accountName: "rust-lang".to_string(),
            name: "example".to_string(),
            slug: "example".to_string(),
            repositoryName: "rust-lang/example".to_string(),
            repositoryType: "gitHub".to_string(),
        },
        builds,
    }
}

fn azure_build(id: u32, status: &str) -> azure::Build {
    azure::Build {
        id,
        status: status.to_string(),
        _links: azure::BuildLinks {
            timeline: azure::Link {
                href: format!("https://dev.azure.com/rust-lang/example/_apis/build/builds/{}/Timeline", id),
            },
        },
    }
}

fn record(kind: &str, result: Option<&str>) -> azure::Record {
    azure::Record { name: "job".to_string(), result: result.map(|s| s.to_string()), kind: kind.to_string() }
}

#[test]
fn travis_stale_build_cancelled_latest_inspected() {
    let cfg = config(Some("tok"), None, None);
    let call = call_of(Backend::Travis, Purpose::ListBuilds);
    let list = travis::GetBuilds {
        builds: vec![
            travis_build(100, "10", "started", 1),
            travis_build(101, "11", "started", 1),
        ],
        commits: vec![travis::Commit { id: 1, branch: "master".to_string() }],
    };
    let next = next_calls(&cfg, &call, Reply::TravisBuilds(list)).unwrap();
    assert_eq!(next.len(), 2);
    assert_eq!(next[0].purpose, Purpose::Cancel);
    assert_eq!(next[0].request.method, Method::Post);
    assert_eq!(next[0].request.url, "https://api.travis-ci.com/builds/100/cancel");
    assert_eq!(
        next[0].request.headers,
        vec![
            AGENT.to_string(),
            "Authorization: token tok".to_string(),
            "Accept: application/vnd.travis-ci.2+json".to_string(),
        ]
    );
    assert_eq!(next[1].purpose, Purpose::BuildDetail);
    assert_eq!(next[1].request.method, Method::Get);
    assert_eq!(next[1].request.url, "https://api.travis-ci.com/builds/101");
}

#[test]
fn travis_listing_request() {
    let cfg = config(Some("tok"), None, None);
    let calls = initial_calls(&cfg);
    assert_eq!(calls.len(), 1);
    assert_eq!(calls[0].backend, Backend::Travis);
    assert_eq!(calls[0].repo, 0);
    assert_eq!(calls[0].request.url, "https://api.travis-ci.com/repos/rust-lang/example/builds");
    assert!(calls[0].request.body.is_none());
}

#[test]
fn travis_other_branch_ignored() {
    let cfg = config(Some("tok"), None, None);
    let call = call_of(Backend::Travis, Purpose::ListBuilds);
    let list = travis::GetBuilds {
        builds: vec![
            travis_build(100, "10", "started", 1),
            travis_build(101, "11", "started", 2),
            travis_build(102, "12", "created", 3),
        ],
        commits: vec![
            travis::Commit { id: 1, branch: "master".to_string() },
            travis::Commit { id: 2, branch: "beta".to_string() },
        ],
    };
    let next = next_calls(&cfg, &call, Reply::TravisBuilds(list)).unwrap();
    // build 10 is the only build of master, so it is the latest
    assert_eq!(next.len(), 1);
    assert_eq!(next[0].purpose, Purpose::BuildDetail);
    assert_eq!(next[0].request.url, "https://api.travis-ci.com/builds/100");
}

#[test]
fn travis_unreadable_number_is_decode_error() {
    let cfg = config(Some("tok"), None, None);
    let call = call_of(Backend::Travis, Purpose::ListBuilds);
    let list = travis::GetBuilds {
        builds: vec![travis_build(100, "ten", "started", 1)],
        commits: vec![travis::Commit { id: 1, branch: "master".to_string() }],
    };
    match next_calls(&cfg, &call, Reply::TravisBuilds(list)) {
        Err(FetchError::Decode(text)) => assert_eq!(text, "ten"),
        other => panic!("unexpected {:?}", other),
    }
}

#[test]
fn travis_terminal_builds_left_alone() {
    let cfg = config(Some("tok"), None, None);
    let call = call_of(Backend::Travis, Purpose::ListBuilds);
    let list = travis::GetBuilds {
        builds: vec![
            travis_build(100, "10", "passed", 1),
            travis_build(101, "11", "failed", 1),
            travis_build(102, "12", "errored", 1),
            travis_build(103, "13", "canceled", 1),
        ],
        commits: vec![travis::Commit { id: 1, branch: "master".to_string() }],
    };
    assert!(next_calls(&cfg, &call, Reply::TravisBuilds(list)).unwrap().is_empty());
}

#[test]
fn travis_latest_cancelled_only_when_job_failed() {
    let cfg = config(Some("tok"), None, None);
    let call = Call {
        backend: Backend::Travis,
        repo: 0,
        purpose: Purpose::BuildDetail,
        request: cancelbot::request::travis_get("/builds/101", "tok"),
    };
    let healthy = travis::GetBuild {
        commit: travis::Commit { id: 1, branch: "master".to_string() },
        build: travis_build(101, "11", "started", 1),
        jobs: vec![travis_job("passed"), travis_job("started")],
    };
    assert!(next_calls(&cfg, &call, Reply::TravisBuild(healthy)).unwrap().is_empty());
    let failing = travis::GetBuild {
        commit: travis::Commit { id: 1, branch: "master".to_string() },
        build: travis_build(101, "11", "started", 1),
        jobs: vec![travis_job("passed"), travis_job("errored")],
    };
    let next = next_calls(&cfg, &call, Reply::TravisBuild(failing)).unwrap();
    assert_eq!(next.len(), 1);
    assert_eq!(next[0].purpose, Purpose::Cancel);
    assert_eq!(next[0].request.url, "https://api.travis-ci.com/builds/101/cancel");
}

fn tip_call(number: u32, version: &str) -> Call {
    appveyor::branch_tip(0, "ak", "example", "example", "master", number, version)
}

#[test]
fn appveyor_older_build_deleted() {
    let cfg = config(None, Some("ak"), None);
    let call = call_of(Backend::AppVeyor, Purpose::ListBuilds);
    let history = appveyor_history(vec![
        appveyor_build(5, "1.0.5", "running", vec![]),
        appveyor_build(6, "1.0.6", "running", vec![]),
    ]);
    let next = next_calls(&cfg, &call, Reply::AppveyorHistory(history)).unwrap();
    assert_eq!(next.len(), 2);
    assert_eq!(next[0].backend, Backend::AppVeyor);
    assert_eq!(next[0].purpose, Purpose::Cancel);
    assert_eq!(next[0].request.method, Method::Delete);
    assert_eq!(next[0].request.url, "https://ci.appveyor.com/api/builds/example/example/1.0.5");
    assert_eq!(
        next[0].request.headers,
        vec![
            AGENT.to_string(),
            "Authorization: Bearer ak".to_string(),
            "Accept: application/json".to_string(),
        ]
    );
    // build 6 waits for the branch tip to show its jobs
    assert_eq!(next[1].purpose, Purpose::BranchTip(6, "1.0.6".to_string()));
    assert_eq!(next[1].request.method, Method::Get);
    assert_eq!(
        next[1].request.url,
        "https://ci.appveyor.com/api/projects/example/example/branch/master"
    );
}

#[test]
fn appveyor_opening_requests() {
    let cfg = config(None, Some("ak"), None);
    let calls = initial_calls(&cfg);
    assert_eq!(calls.len(), 1);
    assert_eq!(calls[0].purpose, Purpose::ListBuilds);
    assert_eq!(
        calls[0].request.url,
        "https://ci.appveyor.com/api/projects/example/example/history?recordsNumber=10&branch=master"
    );
}

#[test]
fn appveyor_account_override() {
    let cfg = Config::new(
        Some("auto".to_string()),
        None,
        Some("ak".to_string()),
        None,
        Some("rust-lang".to_string()),
        None,
        None,
        &vec!["rust-lang/rust".to_string()],
    )
    .unwrap();
    let calls = initial_calls(&cfg);
    assert_eq!(
        calls[0].request.url,
        "https://ci.appveyor.com/api/projects/rust-lang/rust/history?recordsNumber=10&branch=auto"
    );
}

#[test]
fn appveyor_version_deleted_once() {
    let cfg = config(None, Some("ak"), None);
    let call = call_of(Backend::AppVeyor, Purpose::ListBuilds);
    let history = appveyor_history(vec![
        appveyor_build(5, "1.0.5", "running", vec![]),
        appveyor_build(4, "1.0.5", "queued", vec![]),
        appveyor_build(6, "1.0.6", "running", vec![]),
        appveyor_build(3, "1.0.6", "running", vec![]),
    ]);
    let next = next_calls(&cfg, &call, Reply::AppveyorHistory(history)).unwrap();
    assert_eq!(next.len(), 2);
    assert_eq!(next[0].request.url, "https://ci.appveyor.com/api/builds/example/example/1.0.5");
    assert_eq!(next[1].purpose, Purpose::BranchTip(6, "1.0.6".to_string()));
}

#[test]
fn appveyor_finished_latest_needs_no_tip() {
    let cfg = config(None, Some("ak"), None);
    let call = call_of(Backend::AppVeyor, Purpose::ListBuilds);
    let history = appveyor_history(vec![
        appveyor_build(6, "1.0.6", "success", vec![]),
        appveyor_build(5, "1.0.5", "running", vec![]),
    ]);
    let next = next_calls(&cfg, &call, Reply::AppveyorHistory(history)).unwrap();
    assert_eq!(next.len(), 1);
    assert_eq!(next[0].purpose, Purpose::Cancel);
    let empty = appveyor_history(vec![]);
    assert!(next_calls(&cfg, &call, Reply::AppveyorHistory(empty)).unwrap().is_empty());
}

#[test]
fn appveyor_failed_history_leaves_repo_alone() {
    let cfg = config(None, Some("ak"), None);
    let call = call_of(Backend::AppVeyor, Purpose::ListBuilds);
    let reply = Reply::Failed(FetchError::Status(404, "none".to_string()));
    assert!(next_calls(&cfg, &call, reply).is_err());
}

#[test]
fn appveyor_tip_with_failed_job_cancelled() {
    let cfg = config(None, Some("ak"), None);
    let call = tip_call(6, "1.0.6");
    let healthy = appveyor::LastBuild {
        build: appveyor_build(6, "1.0.6", "running", vec!["success", "running", "queued", "starting"]),
    };
    assert!(next_calls(&cfg, &call, Reply::AppveyorTip(healthy)).unwrap().is_empty());
    let failing = appveyor::LastBuild {
        build: appveyor_build(6, "1.0.6", "running", vec!["success", "failed"]),
    };
    let next = next_calls(&cfg, &call, Reply::AppveyorTip(failing)).unwrap();
    assert_eq!(next.len(), 1);
    assert_eq!(next[0].request.url, "https://ci.appveyor.com/api/builds/example/example/1.0.6");
    let finished = appveyor::LastBuild {
        build: appveyor_build(6, "1.0.6", "failed", vec!["failed"]),
    };
    assert!(next_calls(&cfg, &call, Reply::AppveyorTip(finished)).unwrap().is_empty());
}

#[test]
fn appveyor_tip_other_than_latest_left_alone() {
    let cfg = config(None, Some("ak"), None);
    let call = tip_call(6, "1.0.6");
    let newer = appveyor::LastBuild {
        build: appveyor_build(7, "1.0.7", "running", vec!["failed"]),
    };
    assert!(next_calls(&cfg, &call, Reply::AppveyorTip(newer)).unwrap().is_empty());
    let renamed = appveyor::LastBuild {
        build: appveyor_build(6, "1.0.5", "running", vec!["failed"]),
    };
    assert!(next_calls(&cfg, &call, Reply::AppveyorTip(renamed)).unwrap().is_empty());
}

#[test]
fn azure_failed_job_cancels_latest() {
    let cfg = config(None, None, Some("tok"));
    let call = call_of(Backend::Azure, Purpose::ListBuilds);
    let list = azure::List { value: vec![azure_build(20, "inProgress")] };
    let next = next_calls(&cfg, &call, Reply::AzureBuilds(list)).unwrap();
    assert_eq!(next.len(), 1);
    assert_eq!(next[0].purpose, Purpose::Timeline(20));
    assert_eq!(
        next[0].request.url,
        "https://dev.azure.com/rust-lang/example/_apis/build/builds/20/Timeline"
    );
    let timeline = azure::Timeline {
        records: vec![record("Stage", Some("failed")), record("Job", Some("failed"))],
    };
    let cancel = next_calls(&cfg, &next[0], Reply::AzureTimeline(timeline)).unwrap();
    assert_eq!(cancel.len(), 1);
    assert_eq!(cancel[0].purpose, Purpose::Cancel);
    assert_eq!(cancel[0].request.method, Method::Patch);
    assert_eq!(
        cancel[0].request.url,
        "https://dev.azure.com/rust-lang/example/_apis/build/builds/20?api-version=5.0"
    );
    assert_eq!(cancel[0].request.body, Some("{\"status\":\"Cancelling\"}".to_string()));
    assert_eq!(
        cancel[0].request.headers,
        vec![
            AGENT.to_string(),
            "Authorization: Basic OnRvaw==".to_string(),
            "Accept: application/json".to_string(),
            "Content-Type: application/json".to_string(),
        ]
    );
}

#[test]
fn azure_healthy_timeline_leaves_build() {
    let cfg = config(None, None, Some("tok"));
    let call = Call {
        backend: Backend::Azure,
        repo: 0,
        purpose: Purpose::Timeline(20),
        request: cancelbot::request::get("https://dev.azure.com/x", &vec![]),
    };
    let timeline = azure::Timeline {
        records: vec![record("Job", Some("succeeded")), record("Stage", Some("failed")), record("Job", None)],
    };
    assert!(next_calls(&cfg, &call, Reply::AzureTimeline(timeline)).unwrap().is_empty());
}

#[test]
fn azure_stale_builds_cancelled() {
    let cfg = config(None, None, Some("tok"));
    let call = call_of(Backend::Azure, Purpose::ListBuilds);
    let list = azure::List {
        value: vec![
            azure_build(22, "notStarted"),
            azure_build(21, "inProgress"),
            azure_build(19, "completed"),
            azure_build(18, "cancelling"),
        ],
    };
    let next = next_calls(&cfg, &call, Reply::AzureBuilds(list)).unwrap();
    assert_eq!(next.len(), 2);
    assert_eq!(next[0].purpose, Purpose::Timeline(22));
    assert_eq!(next[1].purpose, Purpose::Cancel);
    assert_eq!(
        next[1].request.url,
        "https://dev.azure.com/rust-lang/example/_apis/build/builds/21?api-version=5.0"
    );
}

#[test]
fn azure_one_timeline_for_repeated_latest_id() {
    let cfg = config(None, None, Some("tok"));
    let call = call_of(Backend::Azure, Purpose::ListBuilds);
    let list = azure::List { value: vec![azure_build(20, "inProgress"), azure_build(20, "inProgress")] };
    let next = next_calls(&cfg, &call, Reply::AzureBuilds(list)).unwrap();
    assert_eq!(next.len(), 1);
    assert_eq!(next[0].purpose, Purpose::Timeline(20));
}

#[test]
fn azure_listing_request() {
    let cfg = config(None, None, Some("secret"));
    let calls = initial_calls(&cfg);
    assert_eq!(calls.len(), 1);
    assert_eq!(
        calls[0].request.url,
        "https://dev.azure.com/rust-lang/example/_apis/build/builds?api-version=5.0&repositoryType=GitHub&repositoryId=rust-lang/example&branchName=refs/heads/master"
    );
    // the token travels base64-encoded, after an empty user name
    assert_eq!(calls[0].request.headers[1], "Authorization: Basic OnNlY3JldA==");
}

#[test]
fn missing_token_issues_no_request() {
    let cfg = config(None, Some("ak"), Some("tok"));
    let calls = initial_calls(&cfg);
    assert_eq!(calls.len(), 2);
    assert!(calls.iter().all(|c| c.backend != Backend::Travis));
    assert_eq!(calls[0].backend, Backend::AppVeyor);
    assert_eq!(calls[1].backend, Backend::Azure);
    let stray = call_of(Backend::Travis, Purpose::ListBuilds);
    let list = travis::GetBuilds {
        builds: vec![travis_build(100, "10", "started", 1), travis_build(101, "11", "started", 1)],
        commits: vec![travis::Commit { id: 1, branch: "master".to_string() }],
    };
    assert!(next_calls(&cfg, &stray, Reply::TravisBuilds(list)).unwrap().is_empty());
    let none = config(None, None, None);
    assert!(initial_calls(&none).is_empty());
}

#[test]
fn failed_reply_passed_back() {
    let cfg = config(Some("tok"), None, None);
    let call = call_of(Backend::Travis, Purpose::ListBuilds);
    match next_calls(&cfg, &call, Reply::Failed(FetchError::Status(500, "oops".to_string()))) {
        Err(FetchError::Status(code, body)) => {
            assert_eq!(code, 500);
            assert_eq!(body, "oops");
        }
        other => panic!("unexpected {:?}", other),
    }
    match next_calls(&cfg, &call, Reply::Failed(FetchError::Transport("dns".to_string()))) {
        Err(FetchError::Transport(m)) => assert_eq!(m, "dns"),
        other => panic!("unexpected {:?}", other),
    }
}

#[test]
fn cancellation_reply_ends_the_chain() {
    let cfg = config(Some("tok"), None, None);
    let call = call_of(Backend::Travis, Purpose::ListBuilds);
    assert!(next_calls(&cfg, &call, Reply::Done).unwrap().is_empty());
}

#[test]
fn timeout_before_any_reply() {
    let mut run = Run::start(3);
    assert!(!run.is_over());
    run.deadline();
    assert!(run.is_over());
    assert_eq!(run.outcome, Some(Outcome::TimedOut));
    assert_eq!(run.exit_code(), 0);
    // a reply that arrives late changes nothing
    run.settle(0);
    assert_eq!(run.outcome, Some(Outcome::TimedOut));
    assert_eq!(run.outstanding, 3);
}

#[test]
fn run_finishes_when_all_replies_arrive() {
    let mut run = Run::start(2);
    run.settle(2);
    assert_eq!(run.outstanding, 3);
    assert!(!run.is_over());
    run.settle(0);
    run.settle(0);
    run.settle(0);
    assert_eq!(run.outcome, Some(Outcome::Finished));
    assert_eq!(run.exit_code(), 0);
    run.deadline();
    assert_eq!(run.outcome, Some(Outcome::Finished));
    assert_eq!(Run::start(0).outcome, Some(Outcome::Finished));
}

#[test]
fn config_needs_branch() {
    let r = Config::new(None, Some("t".to_string()), None, None, None, None, None, &vec!["a/b".to_string()]);
    assert_eq!(r.err(), Some(ConfigError::MissingBranch));
}

#[test]
fn config_rejects_repo_without_slash() {
    let r = Config::new(
        Some("master".to_string()),
        None,
        None,
        None,
        None,
        None,
        None,
        &vec!["a/b".to_string(), "nope".to_string(), "c".to_string()],
    );
    assert_eq!(r.err(), Some(ConfigError::MalformedRepo(1)));
}

#[test]
fn config_timeout() {
    let make = |t: Option<&str>| {
        Config::new(
            Some("master".to_string()),
            None,
            None,
            None,
            None,
            None,
            t.map(|t| t.to_string()),
            &vec!["a/b".to_string()],
        )
    };
    assert_eq!(make(None).unwrap().timeout_secs, 30);
    assert_eq!(make(Some("45")).unwrap().timeout_secs, 45);
    assert_eq!(make(Some("soon")).err(), Some(ConfigError::MalformedTimeout));
}

#[test]
fn repo_split_at_first_slash() {
    let r = parse_repo("rust-lang/rust/extra").unwrap();
    assert_eq!(r.user, "rust-lang");
    assert_eq!(r.name, "rust/extra");
    assert!(parse_repo("plain").is_none());
}

#[test]
fn success_statuses() {
    assert!(status_accepted(200));
    assert!(status_accepted(204));
    assert!(!status_accepted(201));
    assert!(!status_accepted(404));
}
