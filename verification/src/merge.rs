//! The sync merger: decides, for each episode of a freshly fetched feed,
//! whether it is new, an update of a stored episode, or already stored as it
//! is.

use crate::types::opt_text;
use crate::types::Episode;
use crate::types::EpisodeNoId;
use vstd::prelude::*;

verus! {

/// What to do with one fetched episode.
#[derive(Debug, Clone, Copy, PartialEq, Eq, Structural)]
pub enum MergeStep {
    /// No stored episode matches: store it as a new one.
    Insert,
    /// The stored episode with this identifier matches and differs: overwrite
    /// its details.
    Update(i64),
    /// The stored episode with this identifier matches and is identical:
    /// write nothing.
    Unchanged(i64),
}

/// Whether both publish dates are present and equal.
pub open spec fn same_known_pubdate(a: Option<i64>, b: Option<i64>) -> bool {
    a is Some && b is Some && a == b
}

/// One point each for an equal title, an equal media address, and an equal
/// publish date where both sides have one.
pub open spec fn match_score(fetched: EpisodeNoId, stored: Episode) -> int {
    (if fetched.title@ == stored.title@ {
        1int
    } else {
        0int
    }) + (if fetched.url@ == stored.url@ {
        1int
    } else {
        0int
    }) + (if same_known_pubdate(fetched.pubdate, stored.pubdate) {
        1int
    } else {
        0int
    })
}

/// A stored episode is taken for the fetched one where two of the three
/// points are reached.
pub open spec fn is_match(fetched: EpisodeNoId, stored: Episode) -> bool {
    match_score(fetched, stored) >= 2
}

/// Whether the stored episode already has every detail of the fetched one:
/// title, media address, description, duration and publish date.
pub open spec fn same_details(fetched: EpisodeNoId, stored: Episode) -> bool {
    &&& fetched.title@ == stored.title@
    &&& fetched.url@ == stored.url@
    &&& opt_text(fetched.description) == opt_text(stored.description)
    &&& fetched.duration == stored.duration
    &&& fetched.pubdate == stored.pubdate
}

/// Index of the first match at or after `from`, scanning the stored episodes
/// in the order given (newest first).
pub open spec fn first_match_from(stored: Seq<Episode>, fetched: EpisodeNoId, from: int) -> Option<
    int,
>
    decreases stored.len() - from,
{
    if from < 0 || from >= stored.len() {
        None
    } else if is_match(fetched, stored[from]) {
        Some(from)
    } else {
        first_match_from(stored, fetched, from + 1)
    }
}

/// Index of the stored episode that the fetched one is taken for, if any.
pub open spec fn first_match(stored: Seq<Episode>, fetched: EpisodeNoId) -> Option<int> {
    first_match_from(stored, fetched, 0)
}

/// The decision for one fetched episode.
pub open spec fn decide(stored: Seq<Episode>, fetched: EpisodeNoId) -> MergeStep {
    match first_match(stored, fetched) {
        None => MergeStep::Insert,
        Some(i) => if same_details(fetched, stored[i]) {
            MergeStep::Unchanged(stored[i].id)
        } else {
            MergeStep::Update(stored[i].id)
        },
    }
}

/// The decisions for a fetched feed, one per fetched episode, in fetch order.
pub open spec fn merge_plan(stored: Seq<Episode>, fetched: Seq<EpisodeNoId>) -> Seq<MergeStep> {
    Seq::new(fetched.len(), |i: int| decide(stored, fetched[i]))
}

/// Scores a stored episode against a fetched one.
pub fn score(fetched: &EpisodeNoId, stored: &Episode) -> (points: u8)
    ensures
        points == match_score(*fetched, *stored),
{
    let mut points: u8 = 0;
    if fetched.title == stored.title {
        points += 1;
    }
    if fetched.url == stored.url {
        points += 1;
    }
    match (fetched.pubdate, stored.pubdate) {
        (Some(a), Some(b)) => {
            if a == b {
                points += 1;
            }
        },
        _ => {},
    }
    points
}

/// Whether the stored episode already has every detail of the fetched one.
pub fn details_match(fetched: &EpisodeNoId, stored: &Episode) -> (same: bool)
    ensures
        same == same_details(*fetched, *stored),
{
    let dates = match (fetched.pubdate, stored.pubdate) {
        (Some(a), Some(b)) => a == b,
        (None, None) => true,
        _ => false,
    };
    let durations = match (fetched.duration, stored.duration) {
        (Some(a), Some(b)) => a == b,
        (None, None) => true,
        _ => false,
    };
    let descriptions = match (&fetched.description, &stored.description) {
        (Some(a), Some(b)) => *a == *b,
        (None, None) => true,
        _ => false,
    };
    fetched.title == stored.title && fetched.url == stored.url && descriptions && durations
        && dates
}

/// What [`first_match_from`] finds is a match, and nothing between `from`
/// and it is one; where it finds nothing, nothing from `from` on is a match.
pub proof fn lemma_first_match_from(stored: Seq<Episode>, fetched: EpisodeNoId, from: int)
    requires
        0 <= from,
    ensures
        match first_match_from(stored, fetched, from) {
            Some(i) => {
                &&& from <= i < stored.len()
                &&& is_match(fetched, stored[i])
                &&& forall|j: int| from <= j < i ==> !is_match(fetched, #[trigger] stored[j])
            },
            None => forall|j: int|
                from <= j < stored.len() ==> !is_match(fetched, #[trigger] stored[j]),
        },
    decreases stored.len() - from,
{
    if from < stored.len() && !is_match(fetched, stored[from]) {
        lemma_first_match_from(stored, fetched, from + 1);
    }
}

/// The first match is the one with the least index: an index `i` of a match
/// with no match before it is what [`first_match`] returns.
pub proof fn lemma_first_match_is_least(stored: Seq<Episode>, fetched: EpisodeNoId, i: int)
    requires
        0 <= i < stored.len(),
        is_match(fetched, stored[i]),
        forall|j: int| 0 <= j < i ==> !is_match(fetched, #[trigger] stored[j]),
    ensures
        first_match(stored, fetched) == Some(i),
{
    lemma_first_match_from(stored, fetched, 0);
}

/// Finds the stored episode that a fetched one is taken for: the first, in
/// the order given, that reaches two points.
pub fn find_match(stored: &Vec<Episode>, fetched: &EpisodeNoId) -> (found: Option<usize>)
    ensures
        found is Some <==> first_match(stored@, *fetched) is Some,
        found matches Some(i) ==> first_match(stored@, *fetched) == Some(i as int),
{
    let n = stored.len();
    let mut i: usize = 0;
    while i < n
        invariant
            i <= n,
            n == stored@.len(),
            first_match(stored@, *fetched) == first_match_from(stored@, *fetched, i as int),
        decreases n - i,
    {
        if score(fetched, &stored[i]) >= 2 {
            return Some(i);
        }
        i += 1;
    }
    None
}

/// Decides what to do with one fetched episode.
pub fn classify(stored: &Vec<Episode>, fetched: &EpisodeNoId) -> (step: MergeStep)
    ensures
        step == decide(stored@, *fetched),
{
    match find_match(stored, fetched) {
        None => MergeStep::Insert,
        Some(i) => {
            proof {
                lemma_first_match_from(stored@, *fetched, 0);
            }
            if details_match(fetched, &stored[i]) {
                MergeStep::Unchanged(stored[i].id)
            } else {
                MergeStep::Update(stored[i].id)
            }
        },
    }
}

/// Reconciles a fetched feed with the stored episodes of the same podcast,
/// which are given newest first. The result holds one decision per fetched
/// episode, in fetch order.
pub fn plan_merge(stored: &Vec<Episode>, fetched: &Vec<EpisodeNoId>) -> (plan: Vec<MergeStep>)
    ensures
        plan@ == merge_plan(stored@, fetched@),
{
    let n = fetched.len();
    let mut plan: Vec<MergeStep> = Vec::new();
    let mut i: usize = 0;
    while i < n
        invariant
            i <= n,
            n == fetched@.len(),
            plan@ == merge_plan(stored@, fetched@).take(i as int),
        decreases n - i,
    {
        let step = classify(stored, &fetched[i]);
        plan.push(step);
        assert(plan@ =~= merge_plan(stored@, fetched@).take(i as int + 1));
        i += 1;
    }
    assert(plan@ =~= merge_plan(stored@, fetched@));
    plan
}

/// The places in a plan where an episode is stored as new, in order.
pub open spec fn insert_positions(plan: Seq<MergeStep>) -> Seq<int>
    decreases plan.len(),
{
    if plan.len() == 0 {
        Seq::empty()
    } else if plan.last() is Insert {
        insert_positions(plan.drop_last()).push(plan.len() - 1)
    } else {
        insert_positions(plan.drop_last())
    }
}

/// The identifiers of the stored episodes that a plan overwrites, in order.
pub open spec fn updated_ids(plan: Seq<MergeStep>) -> Seq<i64>
    decreases plan.len(),
{
    if plan.len() == 0 {
        Seq::empty()
    } else {
        match plan.last() {
            MergeStep::Update(id) => updated_ids(plan.drop_last()).push(id),
            _ => updated_ids(plan.drop_last()),
        }
    }
}

/// Number of episodes that a plan stores as new.
pub open spec fn count_inserts(plan: Seq<MergeStep>) -> nat {
    insert_positions(plan).len()
}

/// Number of stored episodes that a plan overwrites.
pub open spec fn count_updates(plan: Seq<MergeStep>) -> nat {
    updated_ids(plan).len()
}

/// Each insert position is a place of the plan that holds an insert, and a
/// longer plan has at least the inserts of its start.
pub proof fn lemma_insert_positions(plan: Seq<MergeStep>, upto: int)
    requires
        0 <= upto <= plan.len(),
    ensures
        insert_positions(plan.take(upto)).len() <= insert_positions(plan).len(),
        insert_positions(plan).len() <= plan.len(),
        forall|k: int|
            0 <= k < insert_positions(plan).len() ==> 0 <= #[trigger] insert_positions(plan)[k]
                < plan.len() && plan[insert_positions(plan)[k]] is Insert,
    decreases plan.len(),
{
    if plan.len() > 0 {
        let rest = plan.drop_last();
        if upto == plan.len() {
            assert(plan.take(upto) =~= plan);
            lemma_insert_positions(rest, 0);
        } else {
            assert(plan.take(upto) =~= rest.take(upto));
            lemma_insert_positions(rest, upto);
        }
    } else {
        assert(plan.take(upto) =~= plan);
    }
}

/// Every decision of the plan is to write nothing.
pub open spec fn writes_nothing(plan: Seq<MergeStep>) -> bool {
    forall|i: int| 0 <= i < plan.len() ==> #[trigger] plan[i] is Unchanged
}

/// Every stored episode has each fetched episode that could be taken for
/// it in all details: no stored episode looks like a fetched one and
/// differs from it.
pub open spec fn matches_are_copies(stored: Seq<Episode>, fetched: Seq<EpisodeNoId>) -> bool {
    forall|i: int, m: int|
        0 <= i < fetched.len() && 0 <= m < stored.len() && is_match(
            #[trigger] fetched[i],
            #[trigger] stored[m],
        ) ==> same_details(fetched[i], stored[m])
}

/// A fetched episode whose title and media address equal those of a stored
/// episode, and whose publish date differs from it, scores two points; where
/// no stored episode before that one matches, the fetched episode is merged
/// into it as an update, not stored as a new one.
pub proof fn lemma_changed_pubdate_is_update(
    stored: Seq<Episode>,
    fetched: EpisodeNoId,
    i: int,
)
    requires
        0 <= i < stored.len(),
        fetched.title@ == stored[i].title@,
        fetched.url@ == stored[i].url@,
        fetched.pubdate != stored[i].pubdate,
        forall|j: int| 0 <= j < i ==> !is_match(fetched, #[trigger] stored[j]),
    ensures
        match_score(fetched, stored[i]) == 2,
        decide(stored, fetched) == MergeStep::Update(stored[i].id),
{
    lemma_first_match_is_least(stored, fetched, i);
}

/// Syncing again writes nothing where storage is in line with the feed.
/// Let the stored episodes hold every fetched episode with all its details,
/// and let no stored episode look like a fetched one and differ from it.
/// Then the plan writes nothing: no insert and no update.
pub proof fn lemma_resync_writes_nothing(stored: Seq<Episode>, fetched: Seq<EpisodeNoId>)
    requires
        forall|i: int|
            0 <= i < fetched.len() ==> exists|j: int|
                0 <= j < stored.len() && same_details(#[trigger] fetched[i], stored[j]),
        matches_are_copies(stored, fetched),
    ensures
        writes_nothing(merge_plan(stored, fetched)),
        count_inserts(merge_plan(stored, fetched)) == 0,
        count_updates(merge_plan(stored, fetched)) == 0,
{
    let plan = merge_plan(stored, fetched);
    assert forall|i: int| 0 <= i < plan.len() implies #[trigger] plan[i] is Unchanged by {
        let f = fetched[i];
        let j = choose|j: int| 0 <= j < stored.len() && same_details(f, stored[j]);
        lemma_first_match_from(stored, f, 0);
        assert(is_match(f, stored[j]));
        assert(first_match(stored, f) is Some);
    }
    lemma_nothing_written(plan);
}

/// A plan whose every decision is to write nothing has no insert and no
/// update.
pub proof fn lemma_nothing_written(plan: Seq<MergeStep>)
    requires
        writes_nothing(plan),
    ensures
        count_inserts(plan) == 0,
        count_updates(plan) == 0,
    decreases plan.len(),
{
    if plan.len() > 0 {
        assert(plan.last() is Unchanged);
        lemma_nothing_written(plan.drop_last());
    }
}

/// The points that two fetched episodes score against each other.
pub open spec fn pair_score(a: EpisodeNoId, b: EpisodeNoId) -> int {
    (if a.title@ == b.title@ {
        1int
    } else {
        0int
    }) + (if a.url@ == b.url@ {
        1int
    } else {
        0int
    }) + (if same_known_pubdate(a.pubdate, b.pubdate) {
        1int
    } else {
        0int
    })
}

/// No two episodes of the feed could be taken for each other.
pub open spec fn no_look_alikes(fetched: Seq<EpisodeNoId>) -> bool {
    forall|i: int, k: int|
        0 <= i < fetched.len() && 0 <= k < fetched.len() && i != k ==> pair_score(
            #[trigger] fetched[i],
            #[trigger] fetched[k],
        ) < 2
}

/// No two episodes of the feed are taken for the same stored episode.
pub open spec fn matches_are_distinct(stored: Seq<Episode>, fetched: Seq<EpisodeNoId>) -> bool {
    forall|i: int, k: int|
        0 <= i < fetched.len() && 0 <= k < fetched.len() && i != k && first_match(
            stored,
            #[trigger] fetched[i],
        ) is Some ==> first_match(stored, fetched[i]) != first_match(
            stored,
            #[trigger] fetched[k],
        )
}

/// Whether `after` lists what storage holds once the plan for `fetched`
/// against `stored` has been carried out, in the order of writing: each
/// stored episode has the details of the fetched episode that was taken
/// for it, if one was, and is untouched if none was; the inserted episodes
/// follow in plan order.
pub open spec fn is_applied(
    stored: Seq<Episode>,
    fetched: Seq<EpisodeNoId>,
    after: Seq<Episode>,
) -> bool {
    let inserts = insert_positions(merge_plan(stored, fetched));
    &&& after.len() == stored.len() + inserts.len()
    &&& forall|j: int, i: int|
        0 <= j < stored.len() && 0 <= i < fetched.len() && first_match(
            stored,
            #[trigger] fetched[i],
        ) == Some(j) ==> same_details(fetched[i], #[trigger] after[j])
    &&& forall|j: int|
        0 <= j < stored.len() && (forall|i: int|
            0 <= i < fetched.len() ==> first_match(stored, #[trigger] fetched[i]) != Some(j))
            ==> #[trigger] after[j] == stored[j]
    &&& forall|k: int|
        0 <= k < inserts.len() ==> same_details(
            fetched[inserts[k]],
            #[trigger] after[stored.len() + k],
        )
}

/// A stored episode that has the details of one fetched episode scores
/// against another fetched episode what the two fetched episodes score
/// against each other.
pub proof fn lemma_score_of_copy(a: EpisodeNoId, b: EpisodeNoId, copy: Episode)
    requires
        same_details(b, copy),
    ensures
        match_score(a, copy) == pair_score(a, b),
        is_match(b, copy),
{
}

/// The insert positions of a plan run upwards, and each place of the plan
/// that holds an insert is among them.
pub proof fn lemma_insert_positions_cover(plan: Seq<MergeStep>)
    ensures
        forall|a: int, b: int|
            0 <= a < b < insert_positions(plan).len() ==> insert_positions(plan)[a]
                < insert_positions(plan)[b],
        forall|i: int|
            0 <= i < plan.len() && #[trigger] plan[i] is Insert ==> exists|k: int|
                0 <= k < insert_positions(plan).len() && insert_positions(plan)[k] == i,
    decreases plan.len(),
{
    if plan.len() > 0 {
        let rest = plan.drop_last();
        lemma_insert_positions_cover(rest);
        lemma_insert_positions(rest, 0);
        let now = insert_positions(plan);
        let before = insert_positions(rest);
        assert forall|i: int| 0 <= i < plan.len() && #[trigger] plan[i] is Insert implies exists|
            k: int,
        |
            0 <= k < now.len() && now[k] == i by {
            if i < plan.len() - 1 {
                assert(rest[i] is Insert);
                let k = choose|k: int| 0 <= k < before.len() && before[k] == i;
                assert(now[k] == i);
            } else {
                assert(now[now.len() - 1] == i);
            }
        }
    }
}

/// No fetched episode could be taken for two stored episodes: a stored
/// episode that matches a fetched one is the one it is taken for.
pub open spec fn matches_are_single(stored: Seq<Episode>, fetched: Seq<EpisodeNoId>) -> bool {
    forall|i: int, m: int|
        0 <= i < fetched.len() && 0 <= m < stored.len() && is_match(
            #[trigger] fetched[i],
            #[trigger] stored[m],
        ) ==> first_match(stored, fetched[i]) == Some(m)
}

/// Two lists hold the same episodes, in whatever arrangement.
pub open spec fn same_episodes(a: Seq<Episode>, b: Seq<Episode>) -> bool {
    &&& forall|m: int| 0 <= m < a.len() ==> b.contains(#[trigger] a[m])
    &&& forall|m: int| 0 <= m < b.len() ==> a.contains(#[trigger] b[m])
}

/// Syncing again after a sync is idempotent, however storage arranges its
/// episodes. Take a feed in which no two episodes could be taken for each
/// other, no two are taken for the same stored episode, and none could be
/// taken for two stored episodes. Carry out the plan, which leaves what
/// `written` lists, and let storage hand back the same episodes in any
/// order. A second plan for the same feed against them writes nothing: no
/// insert and no update.
pub proof fn lemma_sync_is_idempotent(
    stored: Seq<Episode>,
    fetched: Seq<EpisodeNoId>,
    written: Seq<Episode>,
    after: Seq<Episode>,
)
    requires
        no_look_alikes(fetched),
        matches_are_distinct(stored, fetched),
        matches_are_single(stored, fetched),
        is_applied(stored, fetched, written),
        same_episodes(written, after),
    ensures
        writes_nothing(merge_plan(after, fetched)),
        count_inserts(merge_plan(after, fetched)) == 0,
        count_updates(merge_plan(after, fetched)) == 0,
{
    let plan = merge_plan(stored, fetched);
    let inserts = insert_positions(plan);
    lemma_insert_positions_cover(plan);
    lemma_insert_positions(plan, 0);
    // Every fetched episode has been written with all its details.
    assert forall|i: int| 0 <= i < fetched.len() implies exists|j: int|
        0 <= j < after.len() && same_details(#[trigger] fetched[i], after[j]) by {
        let f = fetched[i];
        lemma_first_match_from(stored, f, 0);
        let at = match first_match(stored, f) {
            Some(j) => j,
            None => {
                assert(plan[i] is Insert);
                let k = choose|k: int| 0 <= k < inserts.len() && inserts[k] == i;
                stored.len() + k
            },
        };
        assert(same_details(f, written[at]));
        assert(after.contains(written[at]));
        let j = choose|j: int| 0 <= j < after.len() && after[j] == written[at];
        assert(same_details(f, after[j]));
    }
    // What was written is a copy of a fetched episode or an untouched
    // stored episode, and neither looks like another fetched episode.
    assert forall|i: int, m: int|
        0 <= i < fetched.len() && 0 <= m < after.len() && is_match(
            #[trigger] fetched[i],
            #[trigger] after[m],
        ) implies same_details(fetched[i], after[m]) by {
        let f = fetched[i];
        assert(written.contains(after[m]));
        let w = choose|w: int| 0 <= w < written.len() && written[w] == after[m];
        if w >= stored.len() {
            let k = inserts[w - stored.len()];
            assert(same_details(fetched[k], written[stored.len() + (w - stored.len())]));
            lemma_score_of_copy(f, fetched[k], written[w]);
        } else if exists|k: int| 0 <= k < fetched.len() && first_match(stored, fetched[k]) == Some(w) {
            let k = choose|k: int| 0 <= k < fetched.len() && first_match(stored, fetched[k]) == Some(w);
            assert(same_details(fetched[k], written[w]));
            lemma_score_of_copy(f, fetched[k], written[w]);
        } else {
            assert(written[w] == stored[w]);
            assert(first_match(stored, f) == Some(w));
        }
    }
    lemma_resync_writes_nothing(after, fetched);
}

} // verus!
