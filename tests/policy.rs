use cancelbot::policy::{latest_key, latest_position, select, Candidate, Pick};

fn cand(key: u64, on_branch: bool, running: bool) -> Candidate {
    Candidate { key, on_branch, running }
}

#[test]
fn empty_listing_selects_nothing() {
    let c: Vec<Candidate> = Vec::new();
    assert_eq!(latest_key(&c), 0);
    assert!(select(&c, true).is_empty());
}

#[test]
fn latest_key_ignores_other_branches() {
    let c = vec![cand(4, true, false), cand(9, false, true), cand(7, true, true)];
    assert_eq!(latest_key(&c), 7);
}

#[test]
fn latest_running_build_is_only_inspected() {
    let c = vec![cand(3, true, true), cand(5, true, true)];
    let picks = select(&c, true);
    assert_eq!(
        picks,
        vec![Pick { index: 0, stale: true }, Pick { index: 1, stale: false }]
    );
    let picks = select(&c, false);
    assert_eq!(picks, vec![Pick { index: 0, stale: true }]);
}

#[test]
fn every_stale_running_build_is_picked() {
    let c = vec![
        cand(10, true, true),
        cand(12, true, true),
        cand(11, true, true),
        cand(13, true, true),
        cand(9, true, true),
    ];
    let picks = select(&c, true);
    assert_eq!(
        picks,
        vec![
            Pick { index: 0, stale: true },
            Pick { index: 1, stale: true },
            Pick { index: 2, stale: true },
            Pick { index: 3, stale: false },
            Pick { index: 4, stale: true },
        ]
    );
}

#[test]
fn selection_repeats_on_same_snapshot() {
    let c = vec![cand(2, true, true), cand(8, true, false), cand(5, true, true), cand(1, false, true)];
    assert_eq!(select(&c, true), select(&c, true));
    assert_eq!(select(&c, false), select(&c, false));
}

#[test]
fn terminal_builds_never_picked() {
    // the terminal build holds the largest key, so the running ones are stale
    let c = vec![cand(1, true, false), cand(2, true, true), cand(3, true, false)];
    let picks = select(&c, true);
    assert_eq!(picks, vec![Pick { index: 1, stale: true }]);
    let all_done = vec![cand(1, true, false), cand(2, true, false)];
    assert!(select(&all_done, true).is_empty());
}

#[test]
fn builds_of_other_branches_never_picked() {
    let c = vec![cand(1, false, true), cand(2, true, true)];
    assert_eq!(select(&c, true), vec![Pick { index: 1, stale: false }]);
}

#[test]
fn first_of_equal_latest_keys_is_inspected() {
    let c = vec![cand(6, true, true), cand(6, true, true), cand(4, true, true)];
    assert_eq!(
        select(&c, true),
        vec![Pick { index: 0, stale: false }, Pick { index: 2, stale: true }]
    );
    assert_eq!(latest_position(&c), Some(0));
}

#[test]
fn latest_position_skips_other_branches() {
    let c = vec![cand(9, false, true), cand(3, true, true), cand(5, true, false), cand(5, true, true)];
    assert_eq!(latest_position(&c), Some(2));
    // the latest build has finished, so nothing is inspected
    assert_eq!(select(&c, true), vec![Pick { index: 1, stale: true }]);
    assert_eq!(latest_position(&vec![cand(1, false, true)]), None);
}
