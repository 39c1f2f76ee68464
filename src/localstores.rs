use vstd::prelude::*;

verus! {

/// A fixed set of reusable slots, one per possible concurrent worker. Slot `i`
/// is checked out exactly when `taken[i]` holds.
pub struct SlotPool {
    taken: Vec<bool>,
}

/// The index of the lowest free slot at or after `from`, if any.
pub open spec fn first_free_from(s: Seq<bool>, from: nat) -> Option<nat>
    decreases s.len() - from,
{
    if from >= s.len() {
        None
    } else if !s[from as int] {
        Some(from)
    } else {
        first_free_from(s, from + 1)
    }
}

/// The slot that a checkout hands out from state `s`, and the state after it.
pub open spec fn checkout_spec(s: Seq<bool>) -> (Seq<bool>, Option<nat>) {
    match first_free_from(s, 0) {
        Some(i) => (s.update(i as int, true), Some(i)),
        None => (s, None),
    }
}

/// A pool state of `k` slots, none checked out.
pub open spec fn all_free(k: nat) -> Seq<bool> {
    Seq::new(k, |i: int| false)
}

/// A pool state of `k` slots whose first `m` are checked out.
pub open spec fn prefix_taken(k: nat, m: nat) -> Seq<bool> {
    Seq::new(k, |i: int| i < m)
}

/// A slot index as a mathematical number.
pub open spec fn slot_of(r: Option<usize>) -> Option<nat> {
    match r {
        Some(i) => Some(i as nat),
        None => None,
    }
}

/// The results of `n` checkouts in a row from state `s`.
pub open spec fn checkouts(s: Seq<bool>, n: nat) -> Seq<Option<nat>>
    decreases n,
{
    if n == 0 {
        Seq::empty()
    } else {
        seq![checkout_spec(s).1] + checkouts(checkout_spec(s).0, (n - 1) as nat)
    }
}

proof fn lemma_first_free_some(s: Seq<bool>, from: nat)
    ensures
        match first_free_from(s, from) {
            Some(i) => from <= i < s.len() && !s[i as int]
                && forall|j: int| from <= j < i ==> #[trigger] s[j],
            None => forall|j: int| from <= j < s.len() ==> #[trigger] s[j],
        },
    decreases s.len() - from,
{
    if from < s.len() && s[from as int] {
        lemma_first_free_some(s, from + 1);
    }
}

impl SlotPool {
    pub closed spec fn view(&self) -> Seq<bool> {
        self.taken@
    }

    /// A pool of `capacity` slots, all of them free.
    pub fn prealloc(capacity: usize) -> (r: SlotPool)
        ensures
            r.view() == all_free(capacity as nat),
    {
        let mut taken: Vec<bool> = Vec::new();
        let mut i: usize = 0;
        while i < capacity
            invariant
                i <= capacity,
                taken@ == all_free(i as nat),
            decreases capacity - i,
        {
            taken.push(false);
            i = i + 1;
            assert(taken@ =~= all_free(i as nat));
        }
        SlotPool { taken }
    }

    /// The number of slots.
    pub fn capacity(&self) -> (r: usize)
        ensures
            r == self.view().len(),
    {
        self.taken.len()
    }

    /// Hands out the lowest free slot and marks it taken, or returns `None`
    /// when every slot is checked out (the caller then waits for a release).
    pub fn checkout(&mut self) -> (r: Option<usize>)
        ensures
            (final(self).view(), slot_of(r)) == checkout_spec(old(self).view()),
    {
        proof {
            lemma_first_free_some(self.taken@, 0);
        }
        let mut i: usize = 0;
        while i < self.taken.len()
            invariant
                i <= self.taken@.len(),
                self.taken@ == old(self).taken@,
                forall|j: int| 0 <= j < i ==> #[trigger] self.taken@[j],
                first_free_from(self.taken@, 0) == first_free_from(self.taken@, i as nat),
            decreases self.taken@.len() - i,
        {
            if !self.taken[i] {
                assert(first_free_from(self.taken@, i as nat) == Some(i as nat));
                self.taken.set(i, true);
                return Some(i);
            }
            i = i + 1;
        }
        assert(first_free_from(self.taken@, i as nat) is None);
        None
    }

    /// Returns a checked-out slot to the pool.
    pub fn release(&mut self, slot: usize)
        requires
            slot < old(self).view().len(),
            old(self).view()[slot as int],
        ensures
            final(self).view() == old(self).view().update(slot as int, false),
    {
        self.taken.set(slot, false);
    }
}

/// Checks out a control block's slot, filling the pool with `limit` free slots
/// on first use.
pub fn alloc_localstore(stores: &mut Option<SlotPool>, limit: usize) -> (r: Option<usize>)
    ensures
        (*final(stores) is Some),
        ((*final(stores))->0.view(), slot_of(r)) == checkout_spec(
            match *old(stores) {
                Some(p) => p.view(),
                None => all_free(limit as nat),
            },
        ),
{
    if stores.is_none() {
        *stores = Some(SlotPool::prealloc(limit));
    }
    match stores {
        Some(p) => p.checkout(),
        None => None,
    }
}

proof fn lemma_checkouts_from(k: nat, m: nat, n: nat)
    requires
        m <= k,
    ensures
        checkouts(prefix_taken(k, m), n).len() == n,
        forall|j: int| 0 <= j < n ==> #[trigger] checkouts(prefix_taken(k, m), n)[j]
            == (if m + j < k { Some((m + j) as nat) } else { None::<nat> }),
    decreases n,
{
    let s = prefix_taken(k, m);
    if n > 0 {
        lemma_first_free_some(s, 0);
        if m < k {
            assert(!s[m as int]);
            assert(first_free_from(s, 0) == Some(m)) by {
                match first_free_from(s, 0) {
                    Some(i) => {
                        if i < m { assert(s[i as int]); }
                        if i > m { assert(s[m as int]); }
                    },
                    None => { assert(s[m as int]); },
                }
            }
            assert(checkout_spec(s).0 =~= prefix_taken(k, m + 1));
            lemma_checkouts_from(k, m + 1, (n - 1) as nat);
        } else {
            assert(first_free_from(s, 0) is None) by {
                match first_free_from(s, 0) {
                    Some(i) => { assert(s[i as int]); },
                    None => {},
                }
            }
            lemma_checkouts_from(k, m, (n - 1) as nat);
        }
        let rest = checkouts(checkout_spec(s).0, (n - 1) as nat);
        assert forall|j: int| 0 <= j < n implies #[trigger] checkouts(s, n)[j]
            == (if m + j < k { Some((m + j) as nat) } else { None::<nat> }) by {
            if j > 0 {
                assert(checkouts(s, n)[j] == rest[j - 1]);
            }
        }
    }
}

/// Of `n` checkouts in a row from a fresh pool of `k` slots, the first `k`
/// succeed and the rest find no free slot; no slot is handed out twice.
pub proof fn lemma_pool_exclusive(k: nat, n: nat)
    ensures
        checkouts(all_free(k), n).len() == n,
        forall|j: int| 0 <= j < n ==> (#[trigger] checkouts(all_free(k), n)[j]
            is Some <==> j < k),
        forall|a: int, b: int|
            0 <= a < b < n && #[trigger] checkouts(all_free(k), n)[a] is Some
                ==> checkouts(all_free(k), n)[a]
                != #[trigger] checkouts(all_free(k), n)[b],
{
    lemma_checkouts_from(k, 0, n);
    assert(all_free(k) =~= prefix_taken(k, 0));
}

} // verus!
