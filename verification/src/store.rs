//! The ordered store: a mapping from identifier to entity together with a
//! canonical order and a filtered order over the same identifiers.

use std::collections::HashMap;
use std::collections::HashSet;
use vstd::prelude::*;

verus! {

broadcast use vstd::std_specs::hash::group_hash_axioms;

/// What a store holds: an entity can name its identifier and copy itself.
pub trait Entity: View + Sized {
    /// The identifier that a model of this entity carries.
    spec fn model_id(v: Self::V) -> i64;

    /// The entity's identifier.
    fn get_id(&self) -> (id: i64)
        ensures
            id == Self::model_id(self@),
    ;

    /// An owned copy with the same model.
    fn duplicate(&self) -> (copy: Self)
        ensures
            copy@ == self@,
    ;
}

/// Mathematical model of an [`OrderedStore`].
pub struct StoreView<V> {
    /// The entity stored under each identifier.
    pub map: Map<i64, V>,
    /// Every identifier of the store, in display order.
    pub order: Seq<i64>,
    /// The identifiers that the active filters let through.
    pub filtered_order: Seq<i64>,
}

impl<V> StoreView<V> {
    /// The canonical order lists each key of the mapping exactly once.
    pub open spec fn order_is_permutation_of_keys(self) -> bool {
        &&& self.order.no_duplicates()
        &&& forall|id: i64| self.map.contains_key(id) <==> self.order.contains(id)
    }

    /// The filtered order lists identifiers of the canonical order, each at
    /// most once.
    pub open spec fn filtered_within_order(self) -> bool {
        &&& self.filtered_order.no_duplicates()
        &&& forall|i: int|
            0 <= i < self.filtered_order.len() ==> self.order.contains(
                #[trigger] self.filtered_order[i],
            )
    }
}

/// The identifiers of a sequence of entity models.
pub open spec fn ids_of<T: Entity>(entities: Seq<T::V>) -> Seq<i64> {
    Seq::new(entities.len(), |i: int| T::model_id(entities[i]))
}

/// The models of a sequence of entities.
pub open spec fn views_of<T: View>(entities: Seq<T>) -> Seq<T::V> {
    Seq::new(entities.len(), |i: int| entities[i]@)
}

/// The store that holds exactly `entities`, in that order, with nothing
/// filtered out.
pub open spec fn holds_exactly<T: Entity>(store: StoreView<T::V>, entities: Seq<T::V>) -> bool {
    &&& store.order == ids_of::<T>(entities)
    &&& store.filtered_order == store.order
    &&& forall|id: i64| store.map.contains_key(id) <==> store.order.contains(id)
    &&& forall|i: int| 0 <= i < entities.len() ==> store.map[#[trigger] store.order[i]] == entities[i]
}

/// The store that is loaded from `entities`: it holds them in the order
/// given, each under its identifier, with nothing filtered out.
pub open spec fn loaded<T: Entity>(entities: Seq<T::V>) -> StoreView<T::V> {
    let ids = ids_of::<T>(entities);
    StoreView {
        map: Map::new(|id: i64| ids.contains(id), |id: i64| entities[ids.index_of(id)]),
        order: ids,
        filtered_order: ids,
    }
}

/// Where the identifiers are distinct, the store that holds exactly
/// `entities` is the one loaded from them.
pub proof fn lemma_loaded<T: Entity>(store: StoreView<T::V>, entities: Seq<T::V>)
    requires
        ids_of::<T>(entities).no_duplicates(),
    ensures
        holds_exactly::<T>(store, entities) <==> store == loaded::<T>(entities),
{
    let ids = ids_of::<T>(entities);
    let target = loaded::<T>(entities);
    assert forall|i: int| 0 <= i < entities.len() implies target.map[#[trigger] target.order[i]]
        == entities[i] by {
        assert(ids.contains(ids[i]));
        let j = ids.index_of(ids[i]);
        assert(ids[j] == ids[i]);
    }
    assert(holds_exactly::<T>(target, entities));
    if holds_exactly::<T>(store, entities) {
        assert forall|id: i64| store.map.contains_key(id) implies store.map[id] == target.map[id] by {
            assert(ids.contains(id));
            let j = ids.index_of(id);
            assert(ids[j] == id);
            assert(store.map[store.order[j]] == entities[j]);
        }
        assert(store.map =~= target.map);
    }
}

/// Whatever is loaded, the canonical order of the store is a permutation of
/// the keys of its mapping, and the filtered order lies within it.
pub proof fn lemma_loaded_order_is_permutation<T: Entity>(entities: Seq<T::V>)
    requires
        ids_of::<T>(entities).no_duplicates(),
    ensures
        loaded::<T>(entities).order_is_permutation_of_keys(),
        loaded::<T>(entities).filtered_within_order(),
        loaded::<T>(entities).order.len() == entities.len(),
{
    let store = loaded::<T>(entities);
    assert forall|i: int| 0 <= i < store.filtered_order.len() implies store.order.contains(
        #[trigger] store.filtered_order[i],
    ) by {
        assert(store.order[i] == store.filtered_order[i]);
    }
}

/// Swapping the entity under a key for another leaves the keys of the
/// mapping as they are, so the canonical order stays a permutation of them.
pub proof fn lemma_replace_keeps_keys<V>(store: StoreView<V>, id: i64, entity: V)
    requires
        store.order_is_permutation_of_keys(),
        store.map.contains_key(id),
    ensures
        store.map.insert(id, entity).dom() == store.map.dom(),
        (StoreView { map: store.map.insert(id, entity), ..store }).order_is_permutation_of_keys(),
{
    assert(store.map.insert(id, entity).dom() =~= store.map.dom());
}

/// A prefix that is one item longer holds the items of the shorter prefix
/// and the item that follows it.
pub proof fn lemma_prefix_grows<A>(s: Seq<A>, i: int)
    requires
        0 <= i < s.len(),
    ensures
        s.take(i + 1) == s.take(i).push(s[i]),
        forall|x: A| s.take(i + 1).contains(x) <==> (s.take(i).contains(x) || x == s[i]),
        s.take(i + 1).to_set() == s.take(i).to_set().insert(s[i]),
        s.take(i).no_duplicates() && !s.take(i).contains(s[i]) ==> s.take(i + 1).no_duplicates(),
{
    let prev = s.take(i);
    let cur = s.take(i + 1);
    assert(cur =~= prev.push(s[i]));
    assert forall|x: A| cur.contains(x) <==> (prev.contains(x) || x == s[i]) by {
        if prev.contains(x) {
            let j = choose|j: int| 0 <= j < prev.len() && prev[j] == x;
            assert(cur[j] == x);
        }
        if cur.contains(x) {
            let j = choose|j: int| 0 <= j < cur.len() && cur[j] == x;
            if j < i {
                assert(prev[j] == x);
            }
        }
        if x == s[i] {
            assert(cur[i] == x);
        }
    }
    assert(cur.to_set() =~= prev.to_set().insert(s[i]));
    if prev.no_duplicates() && !prev.contains(s[i]) {
        assert forall|a: int, b: int| 0 <= a < cur.len() && 0 <= b < cur.len() && a != b implies cur[a]
            != cur[b] by {
            if a < i {
                assert(prev[a] == cur[a]);
            }
            if b < i {
                assert(prev[b] == cur[b]);
            }
        }
    }
}

/// Entities keyed by identifier, with a canonical order and a filtered order.
pub struct OrderedStore<T: Entity> {
    map: HashMap<i64, T>,
    order: Vec<i64>,
    filtered_order: Vec<i64>,
}

impl<T: Entity> View for OrderedStore<T> {
    type V = StoreView<T::V>;

    closed spec fn view(&self) -> StoreView<T::V> {
        StoreView {
            map: Map::new(|id: i64| self.map@.contains_key(id), |id: i64| self.map@[id]@),
            order: self.order@,
            filtered_order: self.filtered_order@,
        }
    }
}

impl<T: Entity> OrderedStore<T> {
    /// The stored entity itself, as executable code sees it.
    pub closed spec fn entity(&self, id: i64) -> T {
        self.map@[id]
    }

    /// The store's invariant: identifiers are unique, each entity is stored
    /// under its own identifier, the canonical order is a permutation of the
    /// keys and the filtered order stays within it.
    pub open spec fn wf(&self) -> bool {
        &&& self@.order_is_permutation_of_keys()
        &&& self@.filtered_within_order()
        &&& forall|id: i64| #[trigger]
            self@.map.contains_key(id) ==> T::model_id(self@.map[id]) == id && self@.map[id]
                == self.entity(id)@
    }

    #[verifier::type_invariant]
    closed spec fn inv(&self) -> bool {
        self.wf()
    }

    /// The invariant holds of every store that executable code can hold.
    pub fn check_wf(&self)
        ensures
            self.wf(),
    {
        proof {
            use_type_invariant(self);
        }
    }

    /// An empty store.
    pub fn new() -> (store: Self)
        ensures
            store.wf(),
            store@.map == Map::<i64, T::V>::empty(),
            store@.order == Seq::<i64>::empty(),
            store@.filtered_order == Seq::<i64>::empty(),
    {
        let store = OrderedStore { map: HashMap::new(), order: Vec::new(), filtered_order: Vec::new() };
        assert(store@.map =~= Map::<i64, T::V>::empty());
        store
    }

    /// Number of entities held.
    pub fn len(&self) -> (n: usize)
        ensures
            n == self@.order.len(),
    {
        proof {
            use_type_invariant(&*self);
        }
        self.order.len()
    }

    /// Whether the store holds nothing.
    pub fn is_empty(&self) -> (empty: bool)
        ensures
            empty == (self@.order.len() == 0),
    {
        proof {
            use_type_invariant(&*self);
        }
        self.order.len() == 0
    }

    /// Whether an entity is stored under `id`.
    pub fn contains(&self, id: i64) -> (found: bool)
        ensures
            found == self@.map.contains_key(id),
    {
        self.map.contains_key(&id)
    }

    /// An owned copy of the entity stored under `id`, so that a caller can
    /// change the copy and write it back with [`OrderedStore::replace`].
    pub fn clone_entity(&self, id: i64) -> (copy: Option<T>)
        ensures
            copy is Some <==> self@.map.contains_key(id),
            copy matches Some(e) ==> e@ == self@.map[id],
    {
        proof {
            use_type_invariant(&*self);
        }
        match self.map.get(&id) {
            Some(e) => Some(e.duplicate()),
            None => None,
        }
    }

    /// Replaces the whole mapping and the canonical order with `entities`, in
    /// the order given. Nothing is filtered out afterwards: the filtered order
    /// becomes the canonical order, and applying a filter is a separate call.
    /// Entities must have distinct identifiers; where two share one, nothing
    /// changes and the result is `false`.
    pub fn insert_ordered(&mut self, entities: Vec<T>) -> (ok: bool)
        ensures
            final(self).wf(),
            ok == ids_of::<T>(views_of(entities@)).no_duplicates(),
            ok ==> holds_exactly::<T>(final(self)@, views_of(entities@)),
            ok ==> final(self)@ == loaded::<T>(views_of(entities@)),
            ok ==> final(self)@.order_is_permutation_of_keys(),
            ok ==> forall|i: int|
                0 <= i < entities@.len() ==> final(self).entity(
                    #[trigger] ids_of::<T>(views_of(entities@))[i],
                ) == entities@[i],
            !ok ==> final(self)@ == old(self)@,
            !ok ==> forall|id: i64| final(self).entity(id) == old(self).entity(id),
    {
        proof {
            use_type_invariant(&*self);
        }
        let ghost all = entities@;
        let mut items = entities;
        let ghost ids = ids_of::<T>(views_of(all));
        let n = items.len();
        let mut seen: HashSet<i64> = HashSet::new();
        let mut order: Vec<i64> = Vec::new();
        let mut filtered: Vec<i64> = Vec::new();
        let mut i: usize = 0;
        while i < n
            invariant
                i <= n,
                n == all.len(),
                items@ == all,
                all == entities@,
                self.wf(),
                *self == *old(self),
                ids == ids_of::<T>(views_of(all)),
                order@ == ids.take(i as int),
                filtered@ == order@,
                order@.no_duplicates(),
                forall|id: i64| seen@.contains(id) <==> order@.contains(id),
            decreases n - i,
        {
            let id = items[i].get_id();
            assert(id == ids[i as int]);
            if seen.contains(&id) {
                proof {
                    assert(seen@.contains(id));
                    assert(order@.contains(id));
                    let j = choose|j: int| 0 <= j < order@.len() && order@[j] == id;
                    assert(ids.take(i as int)[j] == ids[j]);
                    assert(ids[j] == ids[i as int] && j != i);
                    assert(!ids.no_duplicates());
                }
                return false;
            }
            seen.insert(id);
            order.push(id);
            filtered.push(id);
            proof {
                lemma_prefix_grows(ids, i as int);
                assert(order@ =~= ids.take(i as int + 1));
            }
            i += 1;
        }
        assert(order@ =~= ids);
        let mut map: HashMap<i64, T> = HashMap::new();
        let mut k: usize = n;
        while k > 0
            invariant
                k <= n,
                n == all.len(),
                items@ == all.take(k as int),
                all == entities@,
                ids == ids_of::<T>(views_of(all)),
                ids.no_duplicates(),
                forall|id: i64|
                    map@.contains_key(id) <==> exists|j: int| k <= j < n && #[trigger] ids[j] == id,
                forall|j: int| k <= j < n ==> map@[#[trigger] ids[j]] == all[j],
            decreases k,
        {
            let e = items.pop().unwrap();
            k -= 1;
            assert(e == all[k as int]);
            let id = e.get_id();
            assert(id == ids[k as int]);
            map.insert(id, e);
            assert(items@ =~= all.take(k as int));
        }
        let ghost v = StoreView::<T::V> {
            map: Map::new(|id: i64| map@.contains_key(id), |id: i64| map@[id]@),
            order: order@,
            filtered_order: filtered@,
        };
        proof {
            assert forall|id: i64| v.map.contains_key(id) <==> v.order.contains(id) by {
                if v.order.contains(id) {
                    let j = choose|j: int| 0 <= j < ids.len() && ids[j] == id;
                    assert(ids[j] == id);
                }
            }
            assert forall|j: int| 0 <= j < all.len() implies v.map[#[trigger] v.order[j]]
                == views_of(all)[j] by {
                assert(map@[ids[j]] == all[j]);
            }
            assert forall|id: i64| #[trigger] v.map.contains_key(id) implies T::model_id(v.map[id])
                == id by {
                let j = choose|j: int| 0 <= j < n && #[trigger] ids[j] == id;
                assert(map@[ids[j]] == all[j]);
            }
        }
        *self = OrderedStore { map, order, filtered_order: filtered };
        assert(self@ == v);
        proof {
            lemma_loaded::<T>(v, views_of(all));
        }
        true
    }

    /// Same as [`OrderedStore::insert_ordered`]; the name used where a
    /// sub-collection is refreshed from storage.
    pub fn replace_all(&mut self, entities: Vec<T>) -> (ok: bool)
        ensures
            final(self).wf(),
            ok == ids_of::<T>(views_of(entities@)).no_duplicates(),
            ok ==> holds_exactly::<T>(final(self)@, views_of(entities@)),
            ok ==> final(self)@ == loaded::<T>(views_of(entities@)),
            ok ==> forall|i: int|
                0 <= i < entities@.len() ==> final(self).entity(
                    #[trigger] ids_of::<T>(views_of(entities@))[i],
                ) == entities@[i],
            !ok ==> final(self)@ == old(self)@,
            !ok ==> forall|id: i64| final(self).entity(id) == old(self).entity(id),
    {
        self.insert_ordered(entities)
    }

    /// Swaps the entity stored under `id` for `entity`. Both orders stay as
    /// they are. Nothing happens where `id` is absent, or where `entity`
    /// carries another identifier.
    pub fn replace(&mut self, id: i64, entity: T)
        ensures
            final(self).wf(),
            final(self)@.order == old(self)@.order,
            final(self)@.filtered_order == old(self)@.filtered_order,
            final(self)@.map == if old(self)@.map.contains_key(id) && T::model_id(entity@) == id {
                old(self)@.map.insert(id, entity@)
            } else {
                old(self)@.map
            },
            final(self)@.map.dom() == old(self)@.map.dom(),
            forall|other: i64| other != id ==> final(self).entity(other) == old(self).entity(other),
            final(self).entity(id) == if old(self)@.map.contains_key(id) && T::model_id(entity@)
                == id {
                entity
            } else {
                old(self).entity(id)
            },
    {
        proof {
            use_type_invariant(&*self);
        }
        if self.map.contains_key(&id) && entity.get_id() == id {
            let mut held = OrderedStore::new();
            std::mem::swap(self, &mut held);
            let OrderedStore { mut map, order, filtered_order } = held;
            map.insert(id, entity);
            let ghost v = StoreView::<T::V> {
                map: Map::new(|id: i64| map@.contains_key(id), |id: i64| map@[id]@),
                order: order@,
                filtered_order: filtered_order@,
            };
            assert(v.map =~= old(self)@.map.insert(id, entity@));
            assert(v.map.dom() =~= old(self)@.map.dom());
            *self = OrderedStore { map, order, filtered_order };
            assert(self@ == v);
        }
    }

    /// The mapping from identifier to entity, for reading.
    pub fn borrow_map(&self) -> (map: &HashMap<i64, T>)
        ensures
            forall|id: i64| map@.contains_key(id) <==> self@.map.contains_key(id),
            forall|id: i64| #[trigger]
                map@.contains_key(id) ==> map@[id] == self.entity(id) && map@[id]@ == self@.map[id],
    {
        &self.map
    }

    /// The canonical order.
    pub fn borrow_order(&self) -> (order: &Vec<i64>)
        ensures
            order@ == self@.order,
    {
        &self.order
    }

    /// The filtered order.
    pub fn borrow_filtered_order(&self) -> (order: &Vec<i64>)
        ensures
            order@ == self@.filtered_order,
    {
        &self.filtered_order
    }

    /// The entity stored under `id`, borrowed.
    pub fn get(&self, id: i64) -> (found: Option<&T>)
        ensures
            found is Some <==> self@.map.contains_key(id),
            found matches Some(e) ==> *e == self.entity(id) && e@ == self@.map[id],
    {
        self.map.get(&id)
    }

    /// Sets the filtered order. It has to list identifiers of the store, none
    /// twice; where it does not, nothing changes and the result is `false`.
    pub fn set_filtered_order(&mut self, ids: Vec<i64>) -> (ok: bool)
        ensures
            final(self).wf(),
            ok == (ids@.no_duplicates() && forall|i: int|
                0 <= i < ids@.len() ==> old(self)@.order.contains(#[trigger] ids@[i])),
            final(self)@.map == old(self)@.map,
            final(self)@.order == old(self)@.order,
            final(self)@.filtered_order == if ok {
                ids@
            } else {
                old(self)@.filtered_order
            },
            forall|id: i64| final(self).entity(id) == old(self).entity(id),
    {
        proof {
            use_type_invariant(&*self);
        }
        let n = ids.len();
        let mut seen: HashSet<i64> = HashSet::new();
        let mut i: usize = 0;
        while i < n
            invariant
                i <= n,
                n == ids@.len(),
                self.wf(),
                *self == *old(self),
                ids@.take(i as int).no_duplicates(),
                forall|j: int| 0 <= j < i ==> self@.order.contains(#[trigger] ids@[j]),
                forall|id: i64| seen@.contains(id) <==> ids@.take(i as int).contains(id),
            decreases n - i,
        {
            let id = ids[i];
            let ghost prev = ids@.take(i as int);
            proof {
                lemma_prefix_grows(ids@, i as int);
            }
            if seen.contains(&id) {
                proof {
                    let j = choose|j: int| 0 <= j < prev.len() && prev[j] == id;
                    assert(ids@[j] == ids@[i as int] && j != i);
                }
                return false;
            }
            if !self.map.contains_key(&id) {
                assert(!self@.order.contains(ids@[i as int]));
                return false;
            }
            seen.insert(id);
            i += 1;
        }
        assert(ids@.take(n as int) =~= ids@);
        let mut held = OrderedStore::new();
        std::mem::swap(self, &mut held);
        let OrderedStore { map, order, filtered_order: _ } = held;
        let ghost v = StoreView::<T::V> {
            map: Map::new(|id: i64| map@.contains_key(id), |id: i64| map@[id]@),
            order: order@,
            filtered_order: ids@,
        };
        assert(v.map =~= old(self)@.map);
        *self = OrderedStore { map, order, filtered_order: ids };
        assert(self@ == v);
        true
    }

    /// An owned copy of the whole store.
    pub fn duplicate(&self) -> (copy: Self)
        ensures
            copy.wf(),
            copy@ == self@,
    {
        proof {
            use_type_invariant(&*self);
        }
        let mut map: HashMap<i64, T> = HashMap::new();
        let n = self.order.len();
        let mut i: usize = 0;
        while i < n
            invariant
                i <= n,
                n == self.order@.len(),
                self.wf(),
                forall|id: i64|
                    map@.contains_key(id) <==> exists|j: int|
                        0 <= j < i && #[trigger] self.order@[j] == id,
                forall|id: i64| #[trigger] map@.contains_key(id) ==> map@[id]@ == self@.map[id],
            decreases n - i,
        {
            let id = self.order[i];
            assert(self@.order.contains(id));
            match self.map.get(&id) {
                Some(e) => {
                    map.insert(id, e.duplicate());
                },
                None => {
                    assert(false);
                },
            }
            i += 1;
        }
        let order = self.order.clone();
        let filtered_order = self.filtered_order.clone();
        let ghost v = StoreView::<T::V> {
            map: Map::new(|id: i64| map@.contains_key(id), |id: i64| map@[id]@),
            order: order@,
            filtered_order: filtered_order@,
        };
        proof {
            assert(order@ =~= self.order@);
            assert(filtered_order@ =~= self.filtered_order@);
            assert forall|id: i64| v.map.contains_key(id) <==> self@.map.contains_key(id) by {
                if v.map.contains_key(id) {
                    assert(map@.contains_key(id));
                    let j = choose|j: int| 0 <= j < n && #[trigger] self.order@[j] == id;
                    assert(self@.order[j] == id);
                    assert(self@.order.contains(id));
                }
                if self@.map.contains_key(id) {
                    assert(self@.order.contains(id));
                    let j = choose|j: int| 0 <= j < self@.order.len() && self@.order[j] == id;
                    assert(self.order@[j] == id);
                }
            }
            assert(v.map =~= self@.map);
            assert(v == self@);
        }
        let copy = OrderedStore { map, order, filtered_order };
        assert(copy@ == v);
        copy
    }

    /// Applies `f` to the entity stored under `id`; `None` where it is absent.
    pub fn map_single<R, F: Fn(&T) -> R>(&self, id: i64, f: F) -> (out: Option<R>)
        requires
            self@.map.contains_key(id) ==> f.requires((&self.entity(id),)),
        ensures
            out is Some <==> self@.map.contains_key(id),
            out matches Some(r) ==> f.ensures((&self.entity(id),), r),
    {
        match self.map.get(&id) {
            Some(e) => Some(f(e)),
            None => None,
        }
    }

    /// Applies `f` to every entity, in canonical order, or from its end to
    /// its start where `reverse` is set.
    pub fn map<R, F: Fn(&T) -> R>(&self, f: F, reverse: bool) -> (out: Vec<R>)
        requires
            forall|id: i64| #[trigger] self@.map.contains_key(id) ==> f.requires((&self.entity(id),)),
        ensures
            out@.len() == self@.order.len(),
            forall|i: int|
                0 <= i < out@.len() ==> f.ensures(
                    (
                        &self.entity(
                            self@.order[if reverse {
                                out@.len() - 1 - i
                            } else {
                                i
                            }],
                        ),
                    ),
                    #[trigger] out@[i],
                ),
    {
        proof {
            use_type_invariant(&*self);
        }
        let n = self.order.len();
        let mut out: Vec<R> = Vec::new();
        let mut i: usize = 0;
        while i < n
            invariant
                i <= n,
                n == self@.order.len(),
                self.wf(),
                out@.len() == i,
                forall|id: i64| #[trigger]
                    self@.map.contains_key(id) ==> f.requires((&self.entity(id),)),
                forall|j: int|
                    0 <= j < i ==> f.ensures(
                        (&self.entity(self@.order[if reverse {
                            n - 1 - j
                        } else {
                            j
                        }]),),
                        #[trigger] out@[j],
                    ),
            decreases n - i,
        {
            let at = if reverse {
                n - 1 - i
            } else {
                i
            };
            let id = self.order[at];
            assert(self@.order.contains(id));
            match self.map.get(&id) {
                Some(e) => {
                    out.push(f(e));
                },
                None => {
                    assert(false);
                },
            }
            i += 1;
        }
        out
    }

    /// Applies `f` to every entity in canonical order and keeps what it
    /// returns as `Some`, in that order.
    pub fn filter_map<R, F: Fn(&T) -> Option<R>>(&self, f: F) -> (out: Vec<R>)
        requires
            forall|id: i64| #[trigger] self@.map.contains_key(id) ==> f.requires((&self.entity(id),)),
        ensures
            exists|choices: Seq<Option<R>>|
                {
                    &&& choices.len() == self@.order.len()
                    &&& forall|i: int|
                        0 <= i < choices.len() ==> f.ensures(
                            (&self.entity(self@.order[i]),),
                            #[trigger] choices[i],
                        )
                    &&& out@ == somes(choices)
                },
    {
        proof {
            use_type_invariant(&*self);
        }
        let n = self.order.len();
        let mut out: Vec<R> = Vec::new();
        let ghost mut choices: Seq<Option<R>> = Seq::empty();
        let mut i: usize = 0;
        while i < n
            invariant
                i <= n,
                n == self@.order.len(),
                self.wf(),
                choices.len() == i,
                out@ == somes(choices),
                forall|id: i64| #[trigger]
                    self@.map.contains_key(id) ==> f.requires((&self.entity(id),)),
                forall|j: int|
                    0 <= j < i ==> f.ensures((&self.entity(self@.order[j]),), #[trigger] choices[j]),
            decreases n - i,
        {
            let id = self.order[i];
            assert(self@.order.contains(id));
            match self.map.get(&id) {
                Some(e) => {
                    let c = f(e);
                    proof {
                        let before = choices;
                        choices = choices.push(c);
                        assert(choices.drop_last() =~= before);
                    }
                    match c {
                        Some(r) => {
                            out.push(r);
                        },
                        None => {},
                    }
                },
                None => {
                    assert(false);
                },
            }
            i += 1;
        }
        out
    }
}

/// The values of the `Some` items of `s`, in order.
pub open spec fn somes<R>(s: Seq<Option<R>>) -> Seq<R>
    decreases s.len(),
{
    if s.len() == 0 {
        Seq::empty()
    } else {
        match s.last() {
            Some(r) => somes(s.drop_last()).push(r),
            None => somes(s.drop_last()),
        }
    }
}

} // verus!
