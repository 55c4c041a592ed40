use vstd::prelude::*;

verus! {

/// One build as the selection policy sees it: its ordering key, whether it
/// belongs to the target branch, and whether it is still queued or running.
#[derive(Clone, Copy, PartialEq, Eq, Structural, Debug)]
pub struct Candidate {
    pub key: u64,
    pub on_branch: bool,
    pub running: bool,
}

/// A build picked by the policy, by its position in the listing. A stale pick
/// is to be cancelled outright; any other pick is the latest build, whose jobs
/// decide.
#[derive(Clone, Copy, PartialEq, Eq, Structural, Debug)]
pub struct Pick {
    pub index: usize,
    pub stale: bool,
}

/// The largest key among the builds of the branch, terminal or not; 0 when the
/// branch has none.
pub open spec fn max_key(c: Seq<Candidate>) -> u64
    decreases c.len(),
{
    if c.len() == 0 {
        0
    } else {
        let m = max_key(c.drop_last());
        let last = c.last();
        if last.on_branch && last.key > m {
            last.key
        } else {
            m
        }
    }
}

/// Position of the first build of the branch whose key is `max`, or -1.
/// That build is the latest; later builds that repeat its key are not.
pub open spec fn first_with_key(c: Seq<Candidate>, max: u64) -> int
    decreases c.len(),
{
    if c.len() == 0 {
        -1
    } else {
        let r = first_with_key(c.drop_last(), max);
        if r >= 0 {
            r
        } else if c.last().on_branch && c.last().key == max {
            c.len() - 1
        } else {
            -1
        }
    }
}

/// Whether the build at `i` is a running build of the branch that the policy
/// picks: always when its key is below `max`, and, with `with_latest`, also
/// when it is the latest.
pub open spec fn is_picked(c: Seq<Candidate>, i: int, max: u64, with_latest: bool) -> bool {
    &&& c[i].on_branch
    &&& c[i].running
    &&& (c[i].key < max || (with_latest && i == first_with_key(c, max)))
}

/// The picks among `c`, in listing order, measured against `max`.
pub open spec fn picks(c: Seq<Candidate>, max: u64, with_latest: bool) -> Seq<Pick>
    decreases c.len(),
{
    if c.len() == 0 {
        seq![]
    } else {
        let rest = picks(c.drop_last(), max, with_latest);
        let last = c.last();
        if is_picked(c, c.len() - 1, max, with_latest) {
            rest.push(Pick { index: (c.len() - 1) as usize, stale: last.key < max })
        } else {
            rest
        }
    }
}

/// What the policy selects from one listing.
pub open spec fn selection(c: Seq<Candidate>, with_latest: bool) -> Seq<Pick> {
    picks(c, max_key(c), with_latest)
}

/// The largest key among the builds of the branch (0 when there is none).
pub fn latest_key(c: &Vec<Candidate>) -> (r: u64)
    ensures
        r == max_key(c@),
{
    let mut m: u64 = 0;
    let mut i: usize = 0;
    while i < c.len()
        invariant
            0 <= i <= c@.len(),
            m == max_key(c@.take(i as int)),
        decreases c@.len() - i,
    {
        assert(c@.take(i + 1).drop_last() == c@.take(i as int));
        let b = c[i];
        if b.on_branch && b.key > m {
            m = b.key;
        }
        i = i + 1;
    }
    assert(c@.take(c@.len() as int) == c@);
    m
}

/// Position of the latest build: the first of the branch, in listing order,
/// to carry the largest key; `None` when the branch has no build.
pub fn latest_position(c: &Vec<Candidate>) -> (r: Option<usize>)
    ensures
        r.is_some() <==> first_with_key(c@, max_key(c@)) >= 0,
        r.is_some() ==> r.unwrap() as int == first_with_key(c@, max_key(c@)),
{
    let max = latest_key(c);
    let mut i: usize = 0;
    while i < c.len()
        invariant
            0 <= i <= c@.len(),
            max == max_key(c@),
            first_with_key(c@.take(i as int), max) < 0,
        decreases c@.len() - i,
    {
        let ghost pre = c@.take(i + 1);
        assert(pre.drop_last() == c@.take(i as int));
        assert(pre[i as int] == c@[i as int]);
        let b = c[i];
        if b.on_branch && b.key == max {
            proof {
                lemma_first_prefix(c@, max, i as int + 1);
            }
            return Some(i);
        }
        i = i + 1;
    }
    assert(c@.take(c@.len() as int) == c@);
    None
}

/// Once a prefix holds a build of the branch with key `max`, the first such
/// build of the whole listing is the prefix's.
proof fn lemma_first_prefix(c: Seq<Candidate>, max: u64, n: int)
    requires
        0 <= n <= c.len(),
        first_with_key(c.take(n), max) >= 0,
    ensures
        first_with_key(c, max) == first_with_key(c.take(n), max),
    decreases c.len() - n,
{
    if n < c.len() {
        assert(c.take(n + 1).drop_last() == c.take(n));
        lemma_first_prefix(c, max, n + 1);
    } else {
        assert(c.take(n) == c);
    }
}

/// Runs the selection policy on one listing: every running build of the
/// branch whose key is below the latest is picked as stale; with
/// `with_latest`, the latest build (the first of the branch, in listing
/// order, to carry the largest key) is picked too when it runs, for its jobs
/// to be inspected. Terminal builds and builds of other
/// branches are never picked.
pub fn select(c: &Vec<Candidate>, with_latest: bool) -> (r: Vec<Pick>)
    ensures
        r@ == selection(c@, with_latest),
{
    let max = latest_key(c);
    let mut r: Vec<Pick> = Vec::new();
    let mut found = false;
    let mut i: usize = 0;
    while i < c.len()
        invariant
            0 <= i <= c@.len(),
            max == max_key(c@),
            r@ == picks(c@.take(i as int), max, with_latest),
            found == (first_with_key(c@.take(i as int), max) >= 0),
            first_with_key(c@.take(i as int), max) < i,
        decreases c@.len() - i,
    {
        let ghost pre = c@.take(i + 1);
        assert(pre.drop_last() == c@.take(i as int));
        assert(pre[i as int] == c@[i as int]);
        let b = c[i];
        let latest = !found && b.on_branch && b.key == max;
        assert(latest == (first_with_key(pre, max) == i));
        if b.on_branch && b.running && (b.key < max || (with_latest && latest)) {
            r.push(Pick { index: i, stale: b.key < max });
        }
        if latest {
            found = true;
        }
        i = i + 1;
    }
    assert(c@.take(c@.len() as int) == c@);
    r
}

/// Every pick names a running build of the branch within the listing, is
/// stale exactly when its key is below `max`, and the picks come in strictly
/// increasing listing order.
pub proof fn lemma_picks_sound(c: Seq<Candidate>, max: u64, with_latest: bool)
    requires
        c.len() <= usize::MAX,
    ensures
        forall|k: int|
            0 <= k < picks(c, max, with_latest).len() ==> {
                let p = #[trigger] picks(c, max, with_latest)[k];
                &&& p.index < c.len()
                &&& is_picked(c, p.index as int, max, with_latest)
                &&& p.stale == (c[p.index as int].key < max)
            },
        forall|k1: int, k2: int|
            0 <= k1 < k2 < picks(c, max, with_latest).len() ==> picks(c, max, with_latest)[k1].index
                < picks(c, max, with_latest)[k2].index,
    decreases c.len(),
{
    if c.len() > 0 {
        let d = c.drop_last();
        lemma_picks_sound(d, max, with_latest);
        let rest = picks(d, max, with_latest);
        let all = picks(c, max, with_latest);
        assert forall|k: int| 0 <= k < rest.len() implies #[trigger] all[k] == rest[k] && rest[k].index
            < d.len() && c[rest[k].index as int] == d[rest[k].index as int] && is_picked(
            c,
            rest[k].index as int,
            max,
            with_latest,
        ) by {
            let j = rest[k].index as int;
            assert(is_picked(d, j, max, with_latest));
            if !(d[j].key < max) {
                assert(first_with_key(d, max) == j);
            }
        }
        if is_picked(c, c.len() - 1, max, with_latest) {
            assert(all.len() == rest.len() + 1);
            assert(all[rest.len() as int].index == c.len() - 1);
        } else {
            assert(all == rest);
        }
    }
}

/// Every build that the policy would pick is picked.
pub proof fn lemma_picks_complete(c: Seq<Candidate>, max: u64, with_latest: bool, i: int)
    requires
        c.len() <= usize::MAX,
        0 <= i < c.len(),
        is_picked(c, i, max, with_latest),
    ensures
        exists|k: int|
            0 <= k < picks(c, max, with_latest).len() && #[trigger] picks(c, max, with_latest)[k]
                == (Pick { index: i as usize, stale: c[i].key < max }),
    decreases c.len(),
{
    let d = c.drop_last();
    let rest = picks(d, max, with_latest);
    if i < c.len() - 1 {
        assert(d[i] == c[i]);
        if !(c[i].key < max) {
            lemma_first_with_key(c, max);
            assert(first_with_key(d, max) == i);
        }
        lemma_picks_complete(d, max, with_latest, i);
        let k = choose|k: int|
            0 <= k < rest.len() && #[trigger] rest[k] == (Pick {
                index: i as usize,
                stale: c[i].key < max,
            });
        assert(picks(c, max, with_latest)[k] == rest[k]);
    } else {
        assert(picks(c, max, with_latest)[rest.len() as int] == (Pick {
            index: i as usize,
            stale: c[i].key < max,
        }));
    }
}

/// The position `first_with_key` gives is that of the first build of the
/// branch with key `max`.
pub proof fn lemma_first_with_key(c: Seq<Candidate>, max: u64)
    ensures
        -1 <= first_with_key(c, max) < c.len(),
        first_with_key(c, max) >= 0 ==> {
            let f = first_with_key(c, max);
            &&& c[f].on_branch
            &&& c[f].key == max
            &&& forall|j: int| 0 <= j < f ==> !(c[j].on_branch && c[j].key == max)
        },
        first_with_key(c, max) < 0 ==> forall|j: int|
            0 <= j < c.len() ==> !(c[j].on_branch && c[j].key == max),
    decreases c.len(),
{
    if c.len() > 0 {
        let d = c.drop_last();
        lemma_first_with_key(d, max);
        assert forall|j: int| 0 <= j < d.len() implies c[j] == d[j] by {}
    }
}

/// `max_key` bounds every key of the branch, and is the key of one of its
/// builds when the branch has any.
pub proof fn lemma_max_key(c: Seq<Candidate>)
    ensures
        forall|i: int| 0 <= i < c.len() && c[i].on_branch ==> c[i].key <= max_key(c),
        (exists|i: int| 0 <= i < c.len() && c[i].on_branch) ==> exists|j: int|
            0 <= j < c.len() && c[j].on_branch && c[j].key == max_key(c),
    decreases c.len(),
{
    if c.len() > 0 {
        let d = c.drop_last();
        lemma_max_key(d);
        assert forall|i: int| 0 <= i < c.len() && c[i].on_branch implies c[i].key <= max_key(c) by {
            if i < c.len() - 1 {
                assert(d[i] == c[i]);
            }
        }
        if exists|i: int| 0 <= i < c.len() && c[i].on_branch {
            if c.last().on_branch && c.last().key > max_key(d) {
                assert(c[c.len() - 1].key == max_key(c));
            } else if exists|i: int| 0 <= i < d.len() && d[i].on_branch {
                let j = choose|j: int| 0 <= j < d.len() && d[j].on_branch && d[j].key == max_key(d);
                assert(c[j] == d[j]);
            } else {
                let i = choose|i: int| 0 <= i < c.len() && c[i].on_branch;
                if i < c.len() - 1 {
                    assert(d[i] == c[i]);
                }
                assert(c.last().on_branch);
                assert(c.last().key <= max_key(d));
                // with no build of the branch in `d`, its maximum is 0
                lemma_max_key_empty(d);
                assert(c[c.len() - 1].key == max_key(c));
            }
        }
    }
}

proof fn lemma_max_key_empty(c: Seq<Candidate>)
    requires
        forall|i: int| 0 <= i < c.len() ==> !c[i].on_branch,
    ensures
        max_key(c) == 0,
    decreases c.len(),
{
    if c.len() > 0 {
        let d = c.drop_last();
        assert forall|i: int| 0 <= i < d.len() implies !d[i].on_branch by {
            assert(d[i] == c[i]);
        }
        lemma_max_key_empty(d);
        assert(!c[c.len() - 1].on_branch);
    }
}

/// The latest build of the branch is never picked as stale: a build picked
/// with the branch's largest key is only ever handed on for inspection of its
/// jobs.
pub proof fn latest_never_stale(c: Seq<Candidate>, with_latest: bool)
    requires
        c.len() <= usize::MAX,
    ensures
        forall|k: int|
            0 <= k < selection(c, with_latest).len() && c[selection(
                c,
                with_latest,
            )[k].index as int].key == max_key(c) ==> !(#[trigger] selection(c, with_latest)[k]).stale,
{
    lemma_picks_sound(c, max_key(c), with_latest);
}

/// At most one build is handed on for inspection: the latest, the first of
/// the branch in listing order to carry the largest key.
pub proof fn one_latest_inspected(c: Seq<Candidate>, with_latest: bool)
    requires
        c.len() <= usize::MAX,
    ensures
        forall|k: int|
            0 <= k < selection(c, with_latest).len() && !(#[trigger] selection(c, with_latest)[k]).stale
                ==> selection(c, with_latest)[k].index as int == first_with_key(c, max_key(c)),
        forall|k1: int, k2: int|
            0 <= k1 < selection(c, with_latest).len() && 0 <= k2 < selection(c, with_latest).len()
                && !selection(c, with_latest)[k1].stale && !selection(c, with_latest)[k2].stale ==> k1
                == k2,
{
    lemma_picks_sound(c, max_key(c), with_latest);
    let sel = selection(c, with_latest);
    assert forall|k1: int, k2: int|
        0 <= k1 < sel.len() && 0 <= k2 < sel.len() && !sel[k1].stale && !sel[k2].stale implies k1
        == k2 by {
        assert(sel[k1].index as int == first_with_key(c, max_key(c)));
        assert(sel[k2].index as int == first_with_key(c, max_key(c)));
        if k1 < k2 {
            assert(sel[k1].index < sel[k2].index);
        } else if k2 < k1 {
            assert(sel[k2].index < sel[k1].index);
        }
    }
}

/// No stale build survives: every running build of the branch whose key is
/// below the latest is picked as stale.
pub proof fn stale_builds_all_picked(c: Seq<Candidate>, with_latest: bool, i: int)
    requires
        c.len() <= usize::MAX,
        0 <= i < c.len(),
        c[i].on_branch,
        c[i].running,
        c[i].key < max_key(c),
    ensures
        exists|k: int|
            0 <= k < selection(c, with_latest).len() && #[trigger] selection(c, with_latest)[k]
                == (Pick { index: i as usize, stale: true }),
{
    lemma_picks_complete(c, max_key(c), with_latest, i);
    let k = choose|k: int|
        0 <= k < picks(c, max_key(c), with_latest).len() && #[trigger] picks(
            c,
            max_key(c),
            with_latest,
        )[k] == (Pick { index: i as usize, stale: c[i].key < max_key(c) });
    assert(selection(c, with_latest)[k] == (Pick { index: i as usize, stale: true }));
}

/// Terminal builds are never picked, whatever their key.
pub proof fn terminal_never_picked(c: Seq<Candidate>, with_latest: bool)
    requires
        c.len() <= usize::MAX,
    ensures
        forall|k: int|
            0 <= k < selection(c, with_latest).len() ==> c[(#[trigger] selection(
                c,
                with_latest,
            )[k]).index as int].running,
{
    lemma_picks_sound(c, max_key(c), with_latest);
}

/// The selection is a function of the listing alone: two runs of the policy
/// on the same snapshot pick the same builds.
pub proof fn selection_is_repeatable(c1: Seq<Candidate>, c2: Seq<Candidate>, with_latest: bool)
    requires
        c1 == c2,
    ensures
        selection(c1, with_latest) == selection(c2, with_latest),
{
}

} // verus!
