use vstd::prelude::*;

verus! {

/// A value that a `RecordStore` can hold: it carries its own integer key and
/// can be copied out of the store.
pub trait Record: Sized {
    spec fn key(&self) -> u64;

    fn id(&self) -> (r: u64)
        ensures
            r == self.key(),
    ;

    fn duplicate(&self) -> (r: Self)
        ensures
            r == *self,
    ;
}

/// A record that refers to a parent record by the parent's key.
pub trait ChildRecord: Record {
    spec fn parent(&self) -> u64;

    fn parent_id(&self) -> (r: u64)
        ensures
            r == self.parent(),
    ;
}

/// Keys strictly increase along `s`; in particular no key occurs twice.
pub open spec fn keys_ascending<T: Record>(s: Seq<T>) -> bool {
    forall|i: int, j: int| 0 <= i < j < s.len() ==> #[trigger] s[i].key() < #[trigger] s[j].key()
}

/// Some record of `s` has key `k`.
pub open spec fn has_key<T: Record>(s: Seq<T>, k: u64) -> bool {
    exists|i: int| 0 <= i < s.len() && #[trigger] s[i].key() == k
}

/// The record of `s` with key `k`, if there is one.
pub open spec fn lookup<T: Record>(s: Seq<T>, k: u64) -> Option<T> {
    if has_key(s, k) {
        Some(s[choose|i: int| 0 <= i < s.len() && #[trigger] s[i].key() == k])
    } else {
        None
    }
}

/// No key of `s` exceeds `n`.
pub open spec fn keys_at_most<T: Record>(s: Seq<T>, n: nat) -> bool {
    forall|i: int| 0 <= i < s.len() ==> #[trigger] s[i].key() <= n
}

/// In a sequence with unique keys, the record found under a key is the one
/// at the position that holds that key.
pub proof fn lemma_lookup_at<T: Record>(s: Seq<T>, i: int)
    requires
        keys_ascending(s),
        0 <= i < s.len(),
    ensures
        lookup(s, s[i].key()) == Some(s[i]),
{
    let k = s[i].key();
    assert(has_key(s, k));
    let j = choose|j: int| 0 <= j < s.len() && #[trigger] s[j].key() == k;
    if j < i {
        assert(s[j].key() < s[i].key());
    } else if i < j {
        assert(s[i].key() < s[j].key());
    }
}

/// Holds of the records whose parent is `p`.
pub open spec fn child_of<T: ChildRecord>(p: u64) -> spec_fn(T) -> bool {
    |t: T| t.parent() == p
}

/// A mapping from integer keys to records, kept in ascending key order.
/// Inserting under a key that is present replaces that record.
pub struct RecordStore<T> {
    entries: Vec<T>,
}

impl<T> View for RecordStore<T> {
    type V = Seq<T>;

    closed spec fn view(&self) -> Seq<T> {
        self.entries@
    }
}

impl<T: Record> RecordStore<T> {
    pub open spec fn wf(&self) -> bool {
        keys_ascending(self@)
    }

    /// The record stored under `k`, if any.
    pub open spec fn record(&self, k: u64) -> Option<T> {
        lookup(self@, k)
    }

    pub open spec fn contains_key(&self, k: u64) -> bool {
        has_key(self@, k)
    }

    /// `after` is this store with `rec` added under a key that was free.
    pub open spec fn grows_by(&self, after: RecordStore<T>, rec: T) -> bool {
        &&& !self.contains_key(rec.key())
        &&& after@.len() == self@.len() + 1
        &&& after.record(rec.key()) == Some(rec)
        &&& forall|k: u64| k != rec.key() ==> after.record(k) == self.record(k)
    }

    pub fn new() -> (r: RecordStore<T>)
        ensures
            r.wf(),
            r@ == Seq::<T>::empty(),
    {
        RecordStore { entries: Vec::new() }
    }

    pub fn len(&self) -> (r: usize)
        ensures
            r == self@.len(),
    {
        self.entries.len()
    }

    /// Read access to the records, in ascending key order.
    pub fn records(&self) -> (r: &Vec<T>)
        ensures
            r@ == self@,
    {
        &self.entries
    }

    /// Stores `rec` under its key, replacing the record that held that key.
    pub fn insert(&mut self, rec: T)
        requires
            old(self).wf(),
        ensures
            final(self).wf(),
            final(self).record(rec.key()) == Some(rec),
            forall|k: u64| k != rec.key() ==> final(self).record(k) == old(self).record(k),
            forall|n: nat|
                keys_at_most(old(self)@, n) && rec.key() <= n ==> keys_at_most(final(self)@, n),
            final(self)@.len() == if old(self).contains_key(rec.key()) {
                old(self)@.len()
            } else {
                old(self)@.len() + 1
            },
    {
        let k = rec.id();
        let ghost s0 = self@;
        let mut i: usize = 0;
        while i < self.entries.len() && self.entries[i].id() < k
            invariant
                self@ == s0,
                keys_ascending(s0),
                0 <= i <= s0.len(),
                forall|j: int| 0 <= j < i ==> #[trigger] s0[j].key() < k,
            decreases s0.len() - i,
        {
            i = i + 1;
        }
        if i < self.entries.len() && self.entries[i].id() == k {
            self.entries.set(i, rec);
            let ghost s1 = self@;
            proof {
                assert(has_key(s0, k));
                assert forall|n: nat| keys_at_most(s0, n) && k <= n implies keys_at_most(s1, n) by {
                    assert forall|j: int| 0 <= j < s1.len() implies #[trigger] s1[j].key() <= n by {
                        if j != i {
                            assert(s1[j] == s0[j]);
                        }
                    }
                }
                assert(keys_ascending(s1)) by {
                    assert forall|a: int, b: int| 0 <= a < b < s1.len() implies #[trigger] s1[a].key()
                        < #[trigger] s1[b].key() by {
                        assert(s0[a].key() < s0[b].key());
                    }
                }
                lemma_lookup_at(s1, i as int);
                assert forall|k2: u64| k2 != k implies lookup(s1, k2) == lookup(s0, k2) by {
                    if has_key(s0, k2) {
                        let j = choose|j: int| 0 <= j < s0.len() && #[trigger] s0[j].key() == k2;
                        lemma_lookup_at(s0, j);
                        assert(s1[j] == s0[j]);
                        lemma_lookup_at(s1, j);
                    } else {
                        assert(!has_key(s1, k2)) by {
                            if has_key(s1, k2) {
                                let j = choose|j: int| 0 <= j < s1.len() && #[trigger] s1[j].key() == k2;
                                assert(s0[j].key() == k2);
                            }
                        }
                    }
                }
            }
        } else {
            self.entries.insert(i, rec);
            let ghost s1 = self@;
            proof {
                assert(!has_key(s0, k)) by {
                    if has_key(s0, k) {
                        let j = choose|j: int| 0 <= j < s0.len() && #[trigger] s0[j].key() == k;
                        if j >= i {
                            assert(s0[i as int].key() <= s0[j].key());
                        }
                    }
                }
                assert forall|n: nat| keys_at_most(s0, n) && k <= n implies keys_at_most(s1, n) by {
                    assert forall|j: int| 0 <= j < s1.len() implies #[trigger] s1[j].key() <= n by {
                        if j < i {
                            assert(s1[j] == s0[j]);
                        } else if j > i {
                            assert(s1[j] == s0[j - 1]);
                        }
                    }
                }
                assert forall|j: int| i <= j < s0.len() implies k < #[trigger] s0[j].key() by {
                    assert(s0[i as int].key() <= s0[j].key());
                }
                assert(keys_ascending(s1)) by {
                    assert forall|a: int, b: int| 0 <= a < b < s1.len() implies #[trigger] s1[a].key()
                        < #[trigger] s1[b].key() by {
                        if b < i {
                            assert(s0[a].key() < s0[b].key());
                        } else if b == i {
                            assert(s0[a].key() < k);
                        } else if a < i {
                            assert(k < s0[b - 1].key());
                        } else if a == i {
                            assert(k < s0[b - 1].key());
                        } else {
                            assert(s0[a - 1].key() < s0[b - 1].key());
                        }
                    }
                }
                lemma_lookup_at(s1, i as int);
                assert forall|k2: u64| k2 != k implies lookup(s1, k2) == lookup(s0, k2) by {
                    if has_key(s0, k2) {
                        let j = choose|j: int| 0 <= j < s0.len() && #[trigger] s0[j].key() == k2;
                        lemma_lookup_at(s0, j);
                        if j < i {
                            assert(s1[j] == s0[j]);
                            lemma_lookup_at(s1, j);
                        } else {
                            assert(s1[j + 1] == s0[j]);
                            lemma_lookup_at(s1, j + 1);
                        }
                    } else {
                        assert(!has_key(s1, k2)) by {
                            if has_key(s1, k2) {
                                let j = choose|j: int| 0 <= j < s1.len() && #[trigger] s1[j].key() == k2;
                                if j < i {
                                    assert(s0[j].key() == k2);
                                } else if j > i {
                                    assert(s0[j - 1].key() == k2);
                                }
                            }
                        }
                    }
                }
            }
        }
    }

    /// The record stored under `k`, if any.
    pub fn get(&self, k: u64) -> (r: Option<T>)
        requires
            self.wf(),
        ensures
            r == self.record(k),
    {
        let mut i: usize = 0;
        while i < self.entries.len()
            invariant
                self.wf(),
                0 <= i <= self@.len(),
                forall|j: int| 0 <= j < i ==> #[trigger] self@[j].key() != k,
            decreases self@.len() - i,
        {
            if self.entries[i].id() == k {
                proof {
                    lemma_lookup_at(self@, i as int);
                }
                return Some(self.entries[i].duplicate());
            }
            i = i + 1;
        }
        None
    }

    /// Whether a record is stored under `k`.
    pub fn contains(&self, k: u64) -> (r: bool)
        requires
            self.wf(),
        ensures
            r == self.contains_key(k),
    {
        self.get(k).is_some()
    }

    /// Every record, in ascending key order.
    pub fn list_all(&self) -> (r: Vec<T>)
        ensures
            r@ == self@,
    {
        let mut out: Vec<T> = Vec::new();
        let mut i: usize = 0;
        while i < self.entries.len()
            invariant
                0 <= i <= self@.len(),
                out@ == self@.subrange(0, i as int),
            decreases self@.len() - i,
        {
            out.push(self.entries[i].duplicate());
            i = i + 1;
        }
        proof {
            assert(self@.subrange(0, self@.len() as int) =~= self@);
        }
        out
    }
}

impl<T: ChildRecord> RecordStore<T> {
    /// The stored records whose parent is `p`, in ascending key order.
    pub open spec fn children(&self, p: u64) -> Seq<T> {
        self@.filter(child_of::<T>(p))
    }

    /// Every record whose parent is `p`, in ascending key order.
    pub fn list_by_parent(&self, p: u64) -> (r: Vec<T>)
        ensures
            r@ == self.children(p),
    {
        let ghost pred = child_of::<T>(p);
        let mut out: Vec<T> = Vec::new();
        let mut i: usize = 0;
        while i < self.entries.len()
            invariant
                0 <= i <= self@.len(),
                pred == child_of::<T>(p),
                out@ == self@.subrange(0, i as int).filter(pred),
            decreases self@.len() - i,
        {
            let ghost pre = self@.subrange(0, i as int);
            let ghost next = self@.subrange(0, i + 1);
            proof {
                reveal(Seq::filter);
                assert(next.drop_last() =~= pre);
                assert(next.last() == self@[i as int]);
            }
            if self.entries[i].parent_id() == p {
                out.push(self.entries[i].duplicate());
                proof {
                    assert(pred(next.last()));
                    assert(next.filter(pred) == pre.filter(pred).push(next.last()));
                }
            } else {
                proof {
                    assert(!pred(next.last()));
                    assert(next.filter(pred) == pre.filter(pred));
                }
            }
            i = i + 1;
        }
        proof {
            assert(self@.subrange(0, self@.len() as int) =~= self@);
        }
        out
    }
}

} // verus!
