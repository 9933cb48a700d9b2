//! Bookkeeping of the worker pool: which workers are live, the replacement of a
//! worker that panicked, and the count of panics that `join` reports. Spawning and
//! joining the threads themselves is left to the caller.
use vstd::prelude::*;
use vstd::set_lib::{lemma_int_range, lemma_len_subset, set_int_range};

verus! {

/// `join` found that this many workers panicked since the pool's last join.
#[derive(Clone, Copy, Debug, PartialEq, Eq, Structural)]
pub struct JoinError(pub u32);

/// The workers of a pool of fixed size, each named by a distinct id.
pub struct PoolState {
    size: usize,
    live: Vec<u64>,
    next_id: u64,
    panicked: u32,
    joining: bool,
}

impl PoolState {
    /// The configured number of workers.
    pub closed spec fn size(&self) -> nat {
        self.size as nat
    }

    /// The ids of the live workers.
    pub closed spec fn live(&self) -> Seq<u64> {
        self.live@
    }

    /// The panics counted since the last join.
    pub closed spec fn panicked(&self) -> nat {
        self.panicked as nat
    }

    /// Whether `join` has begun.
    pub closed spec fn joining(&self) -> bool {
        self.joining
    }

    /// The ids are distinct and, while fresh ids remain, below the next fresh id;
    /// outside a join the number of live workers is the configured size.
    pub closed spec fn wf(&self) -> bool {
        &&& self.size > 0
        &&& self.live@.no_duplicates()
        &&& self.next_id < u64::MAX ==> forall|i: int|
            0 <= i < self.live@.len() ==> self.live@[i] < self.next_id
        &&& !self.joining ==> self.live@.len() == self.size
    }

    /// A pool of `size` workers, with ids `0` to `size - 1`, for the caller to start.
    pub fn new(size: usize) -> (r: PoolState)
        requires
            size > 0,
        ensures
            r.wf(),
            r.size() == size,
            r.live() == Seq::new(size as nat, |i: int| i as u64),
            r.panicked() == 0,
            !r.joining(),
    {
        let mut live: Vec<u64> = Vec::new();
        let mut i: usize = 0;
        while i < size
            invariant
                i <= size,
                live@ == Seq::new(i as nat, |k: int| k as u64),
            decreases size - i,
        {
            live.push(i as u64);
            i = i + 1;
        }
        assert(live@.no_duplicates());
        PoolState { size, live, next_id: size as u64, panicked: 0, joining: false }
    }

    /// The ids of the live workers.
    pub fn live_workers(&self) -> (r: Vec<u64>)
        ensures
            r@ == self.live(),
    {
        self.live.clone()
    }

    pub fn is_joining(&self) -> (r: bool)
        ensures
            r == self.joining(),
    {
        self.joining
    }

    pub fn panicked_count(&self) -> (r: u32)
        ensures
            r == self.panicked(),
    {
        self.panicked
    }

    /// The worker `id` panicked. The panic is counted (saturating). Outside a join,
    /// a live worker is removed and a new one takes its place: the id returned is the
    /// one to start, and no live worker, the panicked one included, has it. During a
    /// join, or for an id that is not live, nobody is replaced.
    pub fn on_worker_panic(&mut self, id: u64) -> (r: Option<u64>)
        requires
            old(self).wf(),
        ensures
            final(self).wf(),
            final(self).size() == old(self).size(),
            final(self).joining() == old(self).joining(),
            final(self).panicked() == (if old(self).panicked() < u32::MAX {
                old(self).panicked() + 1
            } else {
                old(self).panicked()
            }),
            final(self).live().len() == old(self).live().len(),
            !old(self).joining() && old(self).live().contains(id) ==> {
                &&& r is Some
                &&& r.unwrap() != id
                &&& !old(self).live().contains(r.unwrap())
                &&& final(self).live().to_set() == old(self).live().to_set().remove(id).insert(
                    r.unwrap(),
                )
            },
            !(!old(self).joining() && old(self).live().contains(id)) ==> {
                &&& r is None
                &&& final(self).live() == old(self).live()
            },
    {
        if self.panicked < u32::MAX {
            self.panicked = self.panicked + 1;
        }
        if self.joining {
            return None;
        }
        let mut i: usize = 0;
        while i < self.live.len() && self.live[i] != id
            invariant
                i <= self.live@.len(),
                forall|k: int| 0 <= k < i ==> self.live@[k] != id,
            decreases self.live@.len() - i,
        {
            i = i + 1;
        }
        if i == self.live.len() {
            return None;
        }
        let ghost before = self.live@;
        let ghost old_next = self.next_id;
        let fresh = if self.next_id < u64::MAX {
            let n = self.next_id;
            self.next_id = self.next_id + 1;
            n
        } else {
            unused_id(&self.live)
        };
        self.live.remove(i);
        let ghost rest = self.live@;
        proof {
            assert(rest =~= before.remove(i as int));
            lemma_remove_at(before, i as int);
        }
        self.live.push(fresh);
        proof {
            let after = self.live@;
            assert(after =~= rest.push(fresh));
            assert(!before.contains(fresh)) by {
                if before.contains(fresh) && old_next < u64::MAX {
                    let k = choose|k: int| 0 <= k < before.len() && before[k] == fresh;
                    assert(before[k] < old_next);
                }
            }
            assert(!rest.contains(fresh)) by {
                if rest.contains(fresh) {
                    assert(rest.to_set().contains(fresh));
                    assert(before.to_set().contains(fresh));
                }
            }
            assert forall|a: int, b: int|
                0 <= a < after.len() && 0 <= b < after.len() && a != b implies after[a]
                != after[b] by {
                if a < rest.len() && b < rest.len() {
                } else if a < rest.len() {
                    assert(rest.contains(after[a]));
                } else {
                    assert(rest.contains(after[b]));
                }
            }
            assert(after.to_set() =~= rest.to_set().insert(fresh)) by {
                assert forall|x: u64| after.to_set().contains(x) implies rest.to_set().insert(
                    fresh,
                ).contains(x) by {
                    let k = choose|k: int| 0 <= k < after.len() && after[k] == x;
                    if k < rest.len() {
                        assert(rest.contains(x));
                    }
                }
                assert forall|x: u64| rest.to_set().insert(fresh).contains(x) implies after.to_set().contains(
                    x,
                ) by {
                    if x == fresh {
                        assert(after[rest.len() as int] == x);
                    } else {
                        let k = choose|k: int| 0 <= k < rest.len() && rest[k] == x;
                        assert(after[k] == x);
                    }
                }
            }
        }
        Some(fresh)
    }

    /// `join` begins: the pool stops replacing workers.
    pub fn begin_join(&mut self)
        requires
            old(self).wf(),
        ensures
            final(self).wf(),
            final(self).joining(),
            final(self).size() == old(self).size(),
            final(self).live() == old(self).live(),
            final(self).panicked() == old(self).panicked(),
    {
        self.joining = true;
    }

    /// `join` ends, every worker having been joined: no worker is live, the count of
    /// panics starts again, and the panics counted since the last join are reported.
    pub fn finish_join(&mut self) -> (r: Result<(), JoinError>)
        requires
            old(self).wf(),
        ensures
            final(self).wf(),
            final(self).joining(),
            final(self).size() == old(self).size(),
            final(self).live() == Seq::<u64>::empty(),
            final(self).panicked() == 0,
            old(self).panicked() == 0 ==> r == Ok::<(), JoinError>(()),
            old(self).panicked() > 0 ==> r == Err::<(), JoinError>(
                JoinError(old(self).panicked() as u32),
            ),
    {
        let n = self.panicked;
        self.joining = true;
        self.live = Vec::new();
        self.panicked = 0;
        if n == 0 {
            Ok(())
        } else {
            Err(JoinError(n))
        }
    }
}

/// Whether `x` is among `ids`.
fn holds_id(ids: &Vec<u64>, x: u64) -> (r: bool)
    ensures
        r == ids@.contains(x),
{
    let mut i: usize = 0;
    while i < ids.len()
        invariant
            i <= ids@.len(),
            forall|k: int| 0 <= k < i ==> ids@[k] != x,
        decreases ids@.len() - i,
    {
        if ids[i] == x {
            return true;
        }
        i = i + 1;
    }
    false
}

/// The smallest id that is not among `ids`; it is at most their number.
fn unused_id(ids: &Vec<u64>) -> (r: u64)
    ensures
        !ids@.contains(r),
{
    let n = ids.len() as u64;
    assert(n == ids@.len()) by {
        assert(usize::MAX <= u64::MAX);
    }
    let mut c: u64 = 0;
    while holds_id(ids, c)
        invariant
            c <= n,
            n == ids@.len(),
            forall|k: u64| k < c ==> #[trigger] ids@.contains(k),
        decreases n - c,
    {
        if c == n {
            proof {
                lemma_some_id_free(ids@);
                let k = choose|k: u64| k <= ids@.len() && !#[trigger] ids@.contains(k);
                if k < c {
                    assert(ids@.contains(k));
                }
                assert(false);
            }
        }
        c = c + 1;
    }
    c
}

/// `s` does not hold all of the `s.len() + 1` ids from `0` to `s.len()`.
proof fn lemma_some_id_free(s: Seq<u64>)
    requires
        s.len() <= u64::MAX,
    ensures
        exists|k: u64| k <= s.len() && !#[trigger] s.contains(k),
{
    if forall|k: u64| k <= s.len() ==> #[trigger] s.contains(k) {
    let m = s.map_values(|x: u64| x as int);
    m.lemma_cardinality_of_set();
    let range = set_int_range(0, s.len() as int + 1);
    lemma_int_range(0, s.len() as int + 1);
    assert(range.subset_of(m.to_set())) by {
        assert forall|k: int| range.contains(k) implies m.to_set().contains(k) by {
            assert(k <= u64::MAX);
            assert(s.contains(k as u64));
            let i = choose|i: int| 0 <= i < s.len() && s[i] == k as u64;
            assert(m[i] == k);
            assert(m.contains(k));
        }
    }
    lemma_len_subset(range, m.to_set());
    }
}

/// Removing the element at `i` from a sequence without duplicates keeps it without
/// duplicates and takes exactly that element out of its set.
proof fn lemma_remove_at(s: Seq<u64>, i: int)
    requires
        s.no_duplicates(),
        0 <= i < s.len(),
    ensures
        s.remove(i).no_duplicates(),
        s.remove(i).len() == s.len() - 1,
        s.remove(i).to_set() == s.to_set().remove(s[i]),
        forall|k: int| 0 <= k < s.remove(i).len() ==> s.contains(#[trigger] s.remove(i)[k]),
{
    let r = s.remove(i);
    assert forall|k: int| 0 <= k < r.len() implies r[k] == s[if k < i { k } else { k + 1 }] by {}
    assert forall|a: int, b: int| 0 <= a < r.len() && 0 <= b < r.len() && a != b implies r[a]
        != r[b] by {
        assert(r[a] == s[if a < i { a } else { a + 1 }]);
        assert(r[b] == s[if b < i { b } else { b + 1 }]);
    }
    assert forall|k: int| 0 <= k < r.len() implies s.contains(#[trigger] r[k]) by {
        assert(r[k] == s[if k < i { k } else { k + 1 }]);
    }
    assert(r.to_set() =~= s.to_set().remove(s[i])) by {
        assert forall|x: u64| r.to_set().contains(x) implies s.to_set().remove(s[i]).contains(x) by {
            let k = choose|k: int| 0 <= k < r.len() && r[k] == x;
            let k1 = if k < i { k } else { k + 1 };
            assert(r[k] == s[k1]);
            assert(s.contains(x));
        }
        assert forall|x: u64| s.to_set().remove(s[i]).contains(x) implies r.to_set().contains(x) by {
            let k = choose|k: int| 0 <= k < s.len() && s[k] == x;
            assert(k != i);
            let k1 = if k < i { k } else { k - 1 };
            assert(r[k1] == x);
            assert(r.contains(x));
        }
    }
}

/// Outside a join the pool has exactly its configured number of live workers, all
/// distinct, whatever panics it has seen.
pub proof fn lemma_pool_size_steady(p: &PoolState)
    requires
        p.wf(),
        !p.joining(),
    ensures
        p.live().len() == p.size(),
        p.live().no_duplicates(),
{
}

} // verus!
