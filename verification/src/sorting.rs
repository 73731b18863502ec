//! The display order of podcasts: by sort title, as the bytes of the titles
//! compare.

use crate::types::Podcast;
use crate::types::PodcastView;
use vstd::multiset::Multiset;
use vstd::prelude::*;
use vstd::utf8::encode_utf8;

verus! {

/// Whether `a` comes before `b` or equals it in lexicographic order, looking
/// only from place `from` on.
pub open spec fn bytes_le_from(a: Seq<u8>, b: Seq<u8>, from: int) -> bool
    decreases a.len() - from,
{
    if from < 0 || from >= a.len() {
        true
    } else if from >= b.len() {
        false
    } else if a[from] != b[from] {
        a[from] < b[from]
    } else {
        bytes_le_from(a, b, from + 1)
    }
}

/// Whether `a` comes before `b` or equals it in lexicographic order: the
/// order of strings by their bytes.
pub open spec fn bytes_le(a: Seq<u8>, b: Seq<u8>) -> bool {
    bytes_le_from(a, b, 0)
}

/// The key that a podcast is sorted by: the bytes of its sort title.
pub open spec fn sort_key(p: PodcastView) -> Seq<u8> {
    encode_utf8(p.sort_title)
}

/// Whether the podcasts are in display order.
pub open spec fn is_sorted(pods: Seq<Podcast>) -> bool {
    forall|i: int, j: int|
        0 <= i < j < pods.len() ==> bytes_le(sort_key(pods[i]@), sort_key(pods[j]@))
}

/// Of two byte strings that agree before `from`, one comes before the other
/// or equals it.
pub proof fn lemma_bytes_le_total(a: Seq<u8>, b: Seq<u8>, from: int)
    requires
        0 <= from,
    ensures
        bytes_le_from(a, b, from) || bytes_le_from(b, a, from),
    decreases a.len() - from,
{
    if from < a.len() && from < b.len() && a[from] == b[from] {
        lemma_bytes_le_total(a, b, from + 1);
    }
}

/// The order is transitive.
pub proof fn lemma_bytes_le_transitive(a: Seq<u8>, b: Seq<u8>, c: Seq<u8>, from: int)
    requires
        0 <= from,
        bytes_le_from(a, b, from),
        bytes_le_from(b, c, from),
    ensures
        bytes_le_from(a, c, from),
    decreases a.len() - from,
{
    if from < a.len() && from < b.len() && from < c.len() && a[from] == b[from] && b[from]
        == c[from] {
        lemma_bytes_le_transitive(a, b, c, from + 1);
    }
}

/// Whether `a` comes before `b` or equals it, as strings compare.
pub fn text_le(a: &str, b: &str) -> (le: bool)
    ensures
        le == bytes_le(encode_utf8(a@), encode_utf8(b@)),
{
    let x = a.as_bytes();
    let y = b.as_bytes();
    let mut i: usize = 0;
    while i < x.len()
        invariant
            i <= x@.len(),
            x@ == encode_utf8(a@),
            y@ == encode_utf8(b@),
            bytes_le(x@, y@) == bytes_le_from(x@, y@, i as int),
        decreases x@.len() - i,
    {
        if i >= y.len() {
            return false;
        }
        if x[i] != y[i] {
            return x[i] < y[i];
        }
        i += 1;
    }
    true
}

/// Index of a podcast that no other comes before; the first such.
fn least(pods: &Vec<Podcast>) -> (at: usize)
    requires
        pods@.len() > 0,
    ensures
        at < pods@.len(),
        forall|j: int|
            0 <= j < pods@.len() ==> bytes_le(sort_key(pods@[at as int]@), sort_key(#[trigger] pods@[j]@)),
{
    let mut at: usize = 0;
    let mut i: usize = 1;
    proof {
        lemma_bytes_le_total(sort_key(pods@[0]@), sort_key(pods@[0]@), 0);
    }
    while i < pods.len()
        invariant
            1 <= i <= pods@.len(),
            at < i,
            forall|j: int|
                0 <= j < i ==> bytes_le(sort_key(pods@[at as int]@), sort_key(#[trigger] pods@[j]@)),
        decreases pods@.len() - i,
    {
        let ghost old_key = sort_key(pods@[at as int]@);
        let ghost new_key = sort_key(pods@[i as int]@);
        if !text_le(pods[at].sort_title.as_str(), pods[i].sort_title.as_str()) {
            proof {
                lemma_bytes_le_total(old_key, new_key, 0);
                lemma_bytes_le_total(new_key, new_key, 0);
                assert forall|j: int| 0 <= j < i implies bytes_le(
                    new_key,
                    sort_key(#[trigger] pods@[j]@),
                ) by {
                    lemma_bytes_le_transitive(new_key, old_key, sort_key(pods@[j]@), 0);
                }
            }
            at = i;
        }
        i += 1;
    }
    at
}

/// Puts the podcasts in display order: by sort title, as strings compare.
/// The result holds the same podcasts.
pub fn sort_podcasts(podcasts: Vec<Podcast>) -> (sorted: Vec<Podcast>)
    ensures
        is_sorted(sorted@),
        sorted@.to_multiset() == podcasts@.to_multiset(),
{
    broadcast use vstd::multiset::group_multiset_axioms;

    let mut rest = podcasts;
    let mut sorted: Vec<Podcast> = Vec::new();
    proof {
        vstd::seq_lib::to_multiset_len(sorted@);
        assert(sorted@.to_multiset().add(rest@.to_multiset()) =~= podcasts@.to_multiset());
    }
    while rest.len() > 0
        invariant
            is_sorted(sorted@),
            sorted@.to_multiset().add(rest@.to_multiset()) == podcasts@.to_multiset(),
            forall|i: int, j: int|
                0 <= i < sorted@.len() && 0 <= j < rest@.len() ==> bytes_le(
                    sort_key(#[trigger] sorted@[i]@),
                    sort_key(#[trigger] rest@[j]@),
                ),
        decreases rest@.len(),
    {
        let at = least(&rest);
        let ghost before = rest@;
        let ghost done = sorted@;
        let next = rest.remove(at);
        sorted.push(next);
        proof {
            assert(before[at as int] == next);
            assert(before.contains(next));
            vstd::seq_lib::to_multiset_contains(before, next);
            vstd::seq_lib::to_multiset_remove(before, at as int);
            vstd::seq_lib::to_multiset_build(done, next);
            assert(rest@ == before.remove(at as int));
            assert(sorted@ == done.push(next));
            assert(sorted@.to_multiset().add(rest@.to_multiset()) =~= done.to_multiset().add(
                before.to_multiset(),
            ));
            assert forall|i: int, j: int|
                0 <= i < sorted@.len() && 0 <= j < rest@.len() implies bytes_le(
                sort_key(#[trigger] sorted@[i]@),
                sort_key(#[trigger] rest@[j]@),
            ) by {
                let from = if j < at {
                    j
                } else {
                    j + 1
                };
                assert(rest@[j] == before[from]);
                if i < done.len() {
                    assert(sorted@[i] == done[i]);
                }
            }
            assert forall|i: int, j: int| 0 <= i < j < sorted@.len() implies bytes_le(
                sort_key(sorted@[i]@),
                sort_key(sorted@[j]@),
            ) by {
                if j < done.len() {
                    assert(sorted@[i] == done[i] && sorted@[j] == done[j]);
                } else {
                    assert(sorted@[i] == done[i]);
                    assert(sorted@[j] == before[at as int]);
                }
            }
        }
    }
    proof {
        vstd::seq_lib::to_multiset_len(rest@);
        assert(rest@.to_multiset() =~= Multiset::<Podcast>::empty());
        assert(sorted@.to_multiset().add(Multiset::<Podcast>::empty()) =~= sorted@.to_multiset());
    }
    sorted
}

} // verus!
