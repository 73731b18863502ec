//! Which episodes and podcasts the active filters let through.

use crate::store::OrderedStore;
use crate::store::StoreView;
use crate::types::Episode;
use crate::types::EpisodeView;
use crate::types::FilterStatus;
use crate::types::FilterType;
use crate::types::Filters;
use crate::types::PodcastView;
use vstd::prelude::*;

verus! {

/// Whether the filters let an episode through. The played filter looks at
/// the played flag, the downloaded filter at whether a local file exists.
pub open spec fn visible(ep: EpisodeView, filters: Filters) -> bool {
    let played_ok = match filters.played {
        FilterStatus::All => true,
        FilterStatus::PositiveCases => ep.played,
        FilterStatus::NegativeCases => !ep.played,
    };
    let downloaded_ok = match filters.downloaded {
        FilterStatus::All => true,
        FilterStatus::PositiveCases => ep.path is Some,
        FilterStatus::NegativeCases => ep.path is None,
    };
    played_ok && downloaded_ok
}

/// The test that an episode identifier passes where its episode is visible.
pub open spec fn keeps(eps: Map<i64, EpisodeView>, filters: Filters) -> spec_fn(i64) -> bool {
    |id: i64| visible(eps[id], filters)
}

/// The identifiers of the visible episodes, in canonical order.
pub open spec fn visible_ids(eps: StoreView<EpisodeView>, filters: Filters) -> Seq<i64> {
    eps.order.filter(keeps(eps.map, filters))
}

/// The test that a podcast identifier passes where the podcast has a visible
/// episode.
pub open spec fn shows(pods: Map<i64, PodcastView>, filters: Filters) -> spec_fn(i64) -> bool {
    |id: i64| visible_ids(pods[id].episodes, filters).len() > 0
}

/// A podcast with the filtered order of its episodes recomputed.
pub open spec fn podcast_filtered(p: PodcastView, filters: Filters) -> PodcastView {
    PodcastView {
        episodes: StoreView {
            map: p.episodes.map,
            order: p.episodes.order,
            filtered_order: visible_ids(p.episodes, filters),
        },
        ..p
    }
}

/// The podcasts with every filtered order recomputed: that of each
/// podcast's episodes, and that of the podcasts themselves, which keeps the
/// podcasts that have a visible episode.
pub open spec fn filtered_model(pods: StoreView<PodcastView>, filters: Filters) -> StoreView<
    PodcastView,
> {
    StoreView {
        map: Map::new(
            |id: i64| pods.map.contains_key(id),
            |id: i64| podcast_filtered(pods.map[id], filters),
        ),
        order: pods.order,
        filtered_order: pods.order.filter(shows(pods.map, filters)),
    }
}

/// What is left of a sequence without duplicates after a filter has none
/// either and lies within the sequence.
pub proof fn lemma_filter_within(s: Seq<i64>, pred: spec_fn(i64) -> bool)
    requires
        s.no_duplicates(),
    ensures
        s.filter(pred).no_duplicates(),
        forall|i: int| 0 <= i < s.filter(pred).len() ==> s.contains(#[trigger] s.filter(pred)[i]),
        forall|i: int| 0 <= i < s.filter(pred).len() ==> pred(#[trigger] s.filter(pred)[i]),
    decreases s.len(),
{
    reveal(Seq::filter);
    if s.len() > 0 {
        let rest = s.drop_last();
        lemma_filter_within(rest, pred);
        let kept = rest.filter(pred);
        assert forall|i: int| 0 <= i < kept.len() implies s.contains(#[trigger] kept[i]) && kept[i]
            != s.last() by {
            assert(rest.contains(kept[i]));
            let j = choose|j: int| 0 <= j < rest.len() && rest[j] == kept[i];
            assert(s[j] == kept[i]);
        }
        if pred(s.last()) {
            assert(s[s.len() - 1] == s.last());
        }
    }
}

/// With the played filter set to unplayed only, and no downloaded filter,
/// the visible episodes are exactly those whose played flag is unset, in
/// the relative order that they have.
pub proof fn lemma_unplayed_only(eps: StoreView<EpisodeView>)
    ensures
        visible_ids(
            eps,
            Filters { played: FilterStatus::NegativeCases, downloaded: FilterStatus::All },
        ) == eps.order.filter(|id: i64| !eps.map[id].played),
{
    let filters = Filters { played: FilterStatus::NegativeCases, downloaded: FilterStatus::All };
    lemma_filter_same(eps.order, keeps(eps.map, filters), |id: i64| !eps.map[id].played);
}

/// After the filtered orders have been recomputed with the played filter
/// set to unplayed only, the filtered order of each podcast holds exactly
/// its episodes whose played flag is unset, in the relative order that
/// they have.
pub proof fn lemma_unplayed_only_model(pods: StoreView<PodcastView>, pod_id: i64)
    requires
        pods.map.contains_key(pod_id),
    ensures
        ({
            let filters = Filters {
                played: FilterStatus::NegativeCases,
                downloaded: FilterStatus::All,
            };
            let eps = pods.map[pod_id].episodes;
            filtered_model(pods, filters).map[pod_id].episodes.filtered_order == eps.order.filter(
                |id: i64| !eps.map[id].played,
            )
        }),
{
    lemma_unplayed_only(pods.map[pod_id].episodes);
}

/// Two tests that agree on every item of a sequence keep the same items.
pub proof fn lemma_filter_same(s: Seq<i64>, p: spec_fn(i64) -> bool, q: spec_fn(i64) -> bool)
    requires
        forall|i: int| 0 <= i < s.len() ==> p(#[trigger] s[i]) == q(s[i]),
    ensures
        s.filter(p) == s.filter(q),
    decreases s.len(),
{
    reveal(Seq::filter);
    if s.len() > 0 {
        assert forall|i: int| 0 <= i < s.drop_last().len() implies p(#[trigger] s.drop_last()[i])
            == q(s.drop_last()[i]) by {
            assert(s.drop_last()[i] == s[i]);
        }
        lemma_filter_same(s.drop_last(), p, q);
    }
}

/// Whether the filters let an episode through.
pub fn is_visible(ep: &Episode, filters: Filters) -> (shown: bool)
    ensures
        shown == visible(ep@, filters),
{
    let played_ok = match filters.played {
        FilterStatus::All => true,
        FilterStatus::PositiveCases => ep.played,
        FilterStatus::NegativeCases => !ep.played,
    };
    let downloaded_ok = match filters.downloaded {
        FilterStatus::All => true,
        FilterStatus::PositiveCases => ep.path.is_some(),
        FilterStatus::NegativeCases => ep.path.is_none(),
    };
    played_ok && downloaded_ok
}

/// The identifiers of the episodes that the filters let through, in
/// canonical order.
pub fn visible_episode_ids(episodes: &OrderedStore<Episode>, filters: Filters) -> (ids: Vec<i64>)
    ensures
        ids@ == visible_ids(episodes@, filters),
{
    episodes.check_wf();
    let order = episodes.borrow_order();
    let n = order.len();
    let mut ids: Vec<i64> = Vec::new();
    let ghost keep = keeps(episodes@.map, filters);
    assert(order@.take(0) =~= Seq::<i64>::empty());
    assert(Seq::<i64>::empty().filter(keep) =~= Seq::<i64>::empty()) by {
        reveal(Seq::filter);
    }
    let mut i: usize = 0;
    while i < n
        invariant
            i <= n,
            n == order@.len(),
            order@ == episodes@.order,
            episodes.wf(),
            keep == keeps(episodes@.map, filters),
            ids@ == order@.take(i as int).filter(keep),
        decreases n - i,
    {
        let id = order[i];
        assert(episodes@.order.contains(id));
        proof {
            assert(order@.take(i as int + 1) =~= order@.take(i as int).push(id));
            order@.take(i as int).lemma_filter_push(id, keep);
            assert(keep(id) == visible(episodes@.map[id], filters));
        }
        match episodes.get(id) {
            Some(ep) => {
                if is_visible(ep, filters) {
                    ids.push(id);
                }
            },
            None => {
                assert(false);
            },
        }
        i += 1;
    }
    assert(order@.take(n as int) =~= order@);
    ids
}

/// The status that follows `status` when the user steps through the played
/// filter: all, then unplayed only, then played only, then all again.
pub open spec fn next_played(status: FilterStatus) -> FilterStatus {
    match status {
        FilterStatus::All => FilterStatus::NegativeCases,
        FilterStatus::NegativeCases => FilterStatus::PositiveCases,
        FilterStatus::PositiveCases => FilterStatus::All,
    }
}

/// The status that follows `status` when the user steps through the
/// downloaded filter: all, then downloaded only, then undownloaded only,
/// then all again.
pub open spec fn next_downloaded(status: FilterStatus) -> FilterStatus {
    match status {
        FilterStatus::All => FilterStatus::PositiveCases,
        FilterStatus::PositiveCases => FilterStatus::NegativeCases,
        FilterStatus::NegativeCases => FilterStatus::All,
    }
}

/// The filters after one step through the filter of the given type.
pub open spec fn stepped(filters: Filters, filter_type: FilterType) -> Filters {
    match filter_type {
        FilterType::Played => Filters { played: next_played(filters.played), ..filters },
        FilterType::Downloaded => Filters {
            downloaded: next_downloaded(filters.downloaded),
            ..filters
        },
    }
}

/// What the user is told of the status that a filter has been set to.
pub open spec fn filter_label(filter_type: FilterType, status: FilterStatus) -> Seq<char> {
    match filter_type {
        FilterType::Played => match status {
            FilterStatus::NegativeCases => "Unplayed only"@,
            FilterStatus::PositiveCases => "Played only"@,
            FilterStatus::All => "Played and unplayed"@,
        },
        FilterType::Downloaded => match status {
            FilterStatus::PositiveCases => "Downloaded only"@,
            FilterStatus::NegativeCases => "Undownloaded only"@,
            FilterStatus::All => "Downloaded and undownloaded"@,
        },
    }
}

/// Steps through the filter of the given type. Returns the new filters and
/// what to tell the user of the new status.
pub fn step_filter(filters: Filters, filter_type: FilterType) -> (next: (Filters, &'static str))
    ensures
        next.0 == stepped(filters, filter_type),
        next.1@ == match filter_type {
            FilterType::Played => filter_label(filter_type, next.0.played),
            FilterType::Downloaded => filter_label(filter_type, next.0.downloaded),
        },
{
    match filter_type {
        FilterType::Played => {
            let (status, label) = match filters.played {
                FilterStatus::All => (FilterStatus::NegativeCases, "Unplayed only"),
                FilterStatus::NegativeCases => (FilterStatus::PositiveCases, "Played only"),
                FilterStatus::PositiveCases => (FilterStatus::All, "Played and unplayed"),
            };
            (Filters { played: status, downloaded: filters.downloaded }, label)
        },
        FilterType::Downloaded => {
            let (status, label) = match filters.downloaded {
                FilterStatus::All => (FilterStatus::PositiveCases, "Downloaded only"),
                FilterStatus::PositiveCases => (FilterStatus::NegativeCases, "Undownloaded only"),
                FilterStatus::NegativeCases => (FilterStatus::All, "Downloaded and undownloaded"),
            };
            (Filters { played: filters.played, downloaded: status }, label)
        },
    }
}

/// Stepping three times through one filter brings it back to where it was.
pub proof fn lemma_filter_cycle(filters: Filters, filter_type: FilterType)
    ensures
        stepped(stepped(stepped(filters, filter_type), filter_type), filter_type) == filters,
        stepped(filters, filter_type) != filters,
{
}

} // verus!
