//! What the node remembers while it serves: its identity and a bounded
//! record of the message ids it has lately admitted, oldest first.
//!
//! The state is an ordinary value. Readers take it by `&`, the one writer by
//! `&mut`; whoever shares it between tasks puts it behind a lock.

use vstd::prelude::*;
use vstd::string::*;
use std::collections::VecDeque;
use crate::identity::OperatorIdentity;

verus! {

/// A cache holds no id twice and no more ids than its capacity.
pub open spec fn cache_is_valid(ids: Seq<Seq<char>>, capacity: nat) -> bool {
    ids.no_duplicates() && ids.len() <= capacity
}

/// The cache after `id` is offered to it: unchanged where the id is already
/// held or nothing can be held, else with the id at the young end, the
/// oldest id making room where the cache was full.
pub open spec fn cache_insert(ids: Seq<Seq<char>>, capacity: nat, id: Seq<char>) -> Seq<
    Seq<char>,
> {
    if ids.contains(id) || capacity == 0 {
        ids
    } else if ids.len() < capacity {
        ids.push(id)
    } else {
        ids.drop_first().push(id)
    }
}

/// The cache after each id of `offered` is offered to it in turn.
pub open spec fn cache_insert_all(
    ids: Seq<Seq<char>>,
    capacity: nat,
    offered: Seq<Seq<char>>,
) -> Seq<Seq<char>>
    decreases offered.len(),
{
    if offered.len() == 0 {
        ids
    } else {
        cache_insert(cache_insert_all(ids, capacity, offered.drop_last()), capacity, offered.last())
    }
}

/// What became of an id offered to the cache.
#[derive(Debug)]
pub enum CacheOutcome {
    /// The id was already held; nothing changed.
    AlreadyPresent,
    /// The cache holds nothing at all; nothing changed.
    NotStored,
    /// The id was added.
    Stored,
    /// The id was added and the oldest id left to make room.
    StoredEvicting { evicted: String },
}

/// Whether `outcome` is what offering `id` to this cache comes to.
pub open spec fn is_outcome_of(
    outcome: CacheOutcome,
    ids: Seq<Seq<char>>,
    capacity: nat,
    id: Seq<char>,
) -> bool {
    match outcome {
        CacheOutcome::AlreadyPresent => ids.contains(id),
        CacheOutcome::NotStored => !ids.contains(id) && capacity == 0,
        CacheOutcome::Stored => !ids.contains(id) && ids.len() < capacity,
        CacheOutcome::StoredEvicting { evicted } => {
            &&& !ids.contains(id)
            &&& 0 < capacity <= ids.len()
            &&& evicted@ == ids[0]
        },
    }
}

/// The node's state while it serves.
pub struct ServerState {
    identity: OperatorIdentity,
    message_cache: VecDeque<String>,
    cache_capacity: u64,
}

impl ServerState {
    /// The cached message ids, oldest first.
    pub closed spec fn ids(&self) -> Seq<Seq<char>> {
        Seq::new(self.message_cache@.len(), |i: int| self.message_cache@[i]@)
    }

    /// How many ids the cache may hold.
    pub closed spec fn capacity(&self) -> nat {
        self.cache_capacity as nat
    }

    /// The identity the state was seeded with.
    pub closed spec fn seeded_identity(&self) -> OperatorIdentity {
        self.identity
    }

    /// The cache holds no id twice and no more ids than its capacity. `new`
    /// makes such a state and every method keeps it so.
    pub open spec fn wf(&self) -> bool {
        cache_is_valid(self.ids(), self.capacity())
    }

    /// A state with an empty cache.
    pub fn new(identity: OperatorIdentity, cache_capacity: u64) -> (state: Self)
        ensures
            state.wf(),
            state.seeded_identity() == identity,
            state.capacity() == cache_capacity,
            state.ids() == Seq::<Seq<char>>::empty(),
    {
        let state = ServerState { identity, message_cache: VecDeque::new(), cache_capacity };
        assert(state.ids() =~= Seq::<Seq<char>>::empty());
        state
    }

    pub fn identity(&self) -> (identity: &OperatorIdentity)
        ensures
            *identity == self.seeded_identity(),
    {
        &self.identity
    }

    pub fn cache_capacity(&self) -> (capacity: u64)
        ensures
            capacity == self.capacity(),
    {
        self.cache_capacity
    }

    /// How many ids are cached: never more than the capacity.
    pub fn len(&self) -> (n: usize)
        requires
            self.wf(),
        ensures
            n == self.ids().len(),
            n <= self.capacity(),
    {
        self.message_cache.len()
    }

    /// Where `id` stands in the cache, counted from the oldest.
    fn position(&self, id: &String) -> (at: Option<usize>)
        ensures
            match at {
                Some(i) => i < self.ids().len() && self.ids()[i as int] == id@,
                None => !self.ids().contains(id@),
            },
    {
        let mut i: usize = 0;
        while i < self.message_cache.len()
            invariant
                i <= self.message_cache@.len(),
                forall|k: int| 0 <= k < i ==> self.ids()[k] != id@,
            decreases self.message_cache@.len() - i,
        {
            if self.message_cache[i] == *id {
                return Some(i);
            }
            i += 1;
        }
        None
    }

    /// Whether `id` is cached.
    pub fn contains(&self, id: &str) -> (held: bool)
        ensures
            held == self.ids().contains(id@),
    {
        let needle = String::from_str(id);
        self.position(&needle).is_some()
    }

    /// Offers `id` to the cache.
    ///
    /// An id already held changes nothing, so offering it again is without
    /// effect. A new id goes to the young end; where the cache is full the
    /// oldest id leaves first, so the cache never outgrows its capacity.
    pub fn insert(&mut self, id: String) -> (outcome: CacheOutcome)
        requires
            old(self).wf(),
        ensures
            final(self).wf(),
            final(self).ids() == cache_insert(old(self).ids(), old(self).capacity(), id@),
            final(self).capacity() == old(self).capacity(),
            final(self).seeded_identity() == old(self).seeded_identity(),
            is_outcome_of(outcome, old(self).ids(), old(self).capacity(), id@),
            outcome is AlreadyPresent || outcome is NotStored ==> *final(self) == *old(self),
    {
        if self.position(&id).is_some() {
            return CacheOutcome::AlreadyPresent;
        }
        if self.cache_capacity == 0 {
            return CacheOutcome::NotStored;
        }
        let ghost before = self.ids();
        if self.message_cache.len() as u64 >= self.cache_capacity {
            let evicted = self.message_cache.pop_front();
            assert(self.ids() =~= before.drop_first());
            self.message_cache.push_back(id);
            assert(self.ids() =~= before.drop_first().push(id@));
            proof {
                lemma_insert_keeps_valid(before, self.capacity(), id@);
            }
            match evicted {
                Some(evicted) => CacheOutcome::StoredEvicting { evicted },
                None => CacheOutcome::Stored,
            }
        } else {
            self.message_cache.push_back(id);
            assert(self.ids() =~= before.push(id@));
            proof {
                lemma_insert_keeps_valid(before, self.capacity(), id@);
            }
            CacheOutcome::Stored
        }
    }

    /// A copy of the cached ids, oldest first.
    pub fn cached_ids(&self) -> (ids: Vec<String>)
        ensures
            ids.deep_view() == self.ids(),
    {
        let mut ids: Vec<String> = Vec::new();
        let mut i: usize = 0;
        while i < self.message_cache.len()
            invariant
                i <= self.message_cache@.len(),
                ids@.len() == i,
                forall|k: int| 0 <= k < i ==> ids@[k]@ == self.message_cache@[k]@,
            decreases self.message_cache@.len() - i,
        {
            ids.push(self.message_cache[i].clone());
            i += 1;
        }
        assert(ids.deep_view() =~= self.ids());
        ids
    }
}

/// Offering an id to a valid cache leaves a valid cache.
pub proof fn lemma_insert_keeps_valid(ids: Seq<Seq<char>>, capacity: nat, id: Seq<char>)
    requires
        cache_is_valid(ids, capacity),
    ensures
        cache_is_valid(cache_insert(ids, capacity, id), capacity),
{
    let after = cache_insert(ids, capacity, id);
    if !(ids.contains(id) || capacity == 0) {
        let kept = if ids.len() < capacity {
            ids
        } else {
            ids.drop_first()
        };
        assert(after == kept.push(id));
        assert forall|i: int, j: int| 0 <= i < after.len() && 0 <= j < after.len() && i
            != j implies after[i] != after[j] by {
            if i < kept.len() && j < kept.len() {
                if ids.len() < capacity {
                } else {
                    assert(kept[i] == ids[i + 1] && kept[j] == ids[j + 1]);
                }
            } else {
                let k = if i < kept.len() {
                    i
                } else {
                    j
                };
                assert(ids.contains(kept[k]));
            }
        }
    }
}

/// Offering an id that is held changes nothing, and offering any id a
/// second time changes nothing more.
pub proof fn duplicate_insert_is_idempotent(ids: Seq<Seq<char>>, capacity: nat, id: Seq<char>)
    ensures
        ids.contains(id) ==> cache_insert(ids, capacity, id) == ids,
        cache_insert(cache_insert(ids, capacity, id), capacity, id) == cache_insert(
            ids,
            capacity,
            id,
        ),
{
    let once = cache_insert(ids, capacity, id);
    if !(ids.contains(id) || capacity == 0) {
        assert(once[once.len() - 1] == id);
        assert(once.contains(id));
    }
}

/// After a run of offers a valid cache is still valid, and it is full
/// unless it holds every id that was offered.
proof fn lemma_full_or_holds_all(ids: Seq<Seq<char>>, capacity: nat, offered: Seq<Seq<char>>)
    requires
        cache_is_valid(ids, capacity),
    ensures
        cache_is_valid(cache_insert_all(ids, capacity, offered), capacity),
        cache_insert_all(ids, capacity, offered).len() == capacity || forall|i: int|
            0 <= i < offered.len() ==> cache_insert_all(ids, capacity, offered).contains(
                #[trigger] offered[i],
            ),
    decreases offered.len(),
{
    if offered.len() > 0 {
        let earlier = offered.drop_last();
        let before = cache_insert_all(ids, capacity, earlier);
        let after = cache_insert_all(ids, capacity, offered);
        lemma_full_or_holds_all(ids, capacity, earlier);
        lemma_insert_keeps_valid(before, capacity, offered.last());
        if before.len() != capacity {
            assert forall|i: int| 0 <= i < offered.len() implies after.contains(
                #[trigger] offered[i],
            ) by {
                if i < earlier.len() {
                    assert(earlier[i] == offered[i]);
                    let at = choose|at: int| 0 <= at < before.len() && before[at] == offered[i];
                    assert(after[at] == offered[i]);
                } else if !before.contains(offered.last()) {
                    assert(after[after.len() - 1] == offered[i]);
                }
            }
        }
    }
}

/// The eviction law: once more distinct ids have been offered to a valid
/// cache than it can hold, it holds exactly as many as its capacity,
/// whatever it held before. In particular `capacity + 1` distinct ids leave
/// `capacity` of them.
pub proof fn distinct_inserts_fill_cache(
    ids: Seq<Seq<char>>,
    capacity: nat,
    offered: Seq<Seq<char>>,
)
    requires
        cache_is_valid(ids, capacity),
        offered.no_duplicates(),
        offered.len() > capacity,
    ensures
        cache_is_valid(cache_insert_all(ids, capacity, offered), capacity),
        cache_insert_all(ids, capacity, offered).len() == capacity,
{
    let after = cache_insert_all(ids, capacity, offered);
    lemma_full_or_holds_all(ids, capacity, offered);
    if after.len() != capacity {
        assert(offered.to_set().subset_of(after.to_set())) by {
            assert forall|id: Seq<char>| offered.to_set().contains(id) implies after.to_set().contains(
                id,
            ) by {
                let i = choose|i: int| 0 <= i < offered.len() && offered[i] == id;
                assert(after.contains(offered[i]));
            }
        }
        offered.unique_seq_to_set();
        after.lemma_cardinality_of_set();
        vstd::seq_lib::seq_to_set_is_finite(after);
        vstd::set_lib::lemma_len_subset(offered.to_set(), after.to_set());
    }
}

} // verus!
