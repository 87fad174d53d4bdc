//! The bounded priority queue: messages ordered by priority first and
//! insertion sequence second, with TTL expiry and per-priority counts.
//!
//! The ordering itself is carried by a binary max-heap of unsigned keys;
//! each key packs a message's priority rank and the complement of its
//! insertion sequence, so the greatest key is the most urgent message
//! and, within one priority, the earliest inserted. The messages
//! themselves live in a hash map keyed by the same keys.

use vstd::prelude::*;
use vstd::multiset::Multiset;
use std::collections::HashMap;
use crate::error::{MemoryErrorType, SpaceCommError};
use crate::messaging::{Message, MessagePriority, PriorityMessage, QueueStatistics};

verus! {

broadcast use vstd::std_specs::hash::group_hash_axioms;

/// The number of sequence values a key can carry.
pub const SEQ_SPAN: u64 = 0x100000000000000;
/// The greatest sequence value a key can carry.
pub const SEQ_MAX: u64 = 0xFFFFFFFFFFFFFF;
/// The fixed capacity of the backing heap.
pub const HEAP_CAP: usize = 1024;

#[verifier::external_type_specification]
#[verifier::external_body]
#[verifier::reject_recursive_types(T)]
#[verifier::reject_recursive_types(K)]
pub struct ExBinaryHeap<T, K, const N: usize>(heapless::binary_heap::BinaryHeap<T, K, N>);

#[verifier::external_type_specification]
#[verifier::external_body]
pub struct ExMax(heapless::binary_heap::Max);

/// What the heap holds: the multiset of keys in the backing binary heap.
pub uninterp spec fn heap_keys(h: heapless::binary_heap::BinaryHeap<u64, heapless::binary_heap::Max, 1024>) -> Multiset<u64>;

/// Relies on heapless::binary_heap::BinaryHeap::new: a new heap is empty.
#[verifier::external_body]
fn heap_new() -> (h: heapless::binary_heap::BinaryHeap<u64, heapless::binary_heap::Max, 1024>)
    ensures
        heap_keys(h) == Multiset::<u64>::empty(),
{
    heapless::binary_heap::BinaryHeap::new()
}

/// Relies on heapless::binary_heap::BinaryHeap::push: the item is added
/// unless the heap is at its fixed capacity, in which case the heap is
/// unchanged and the item comes back as the error.
#[verifier::external_body]
fn heap_push(
    h: &mut heapless::binary_heap::BinaryHeap<u64, heapless::binary_heap::Max, 1024>,
    key: u64,
) -> (r: Result<(), u64>)
    ensures
        heap_keys(*old(h)).len() < HEAP_CAP ==> r is Ok && heap_keys(*final(h)) == heap_keys(
            *old(h)).insert(key),
        heap_keys(*old(h)).len() >= HEAP_CAP ==> r is Err && heap_keys(*final(h)) == heap_keys(
            *old(h)),
{
    h.push(key)
}

/// Relies on heapless::binary_heap::BinaryHeap::pop: on a max-heap it
/// removes and returns the greatest item, and returns nothing exactly
/// when the heap is empty.
#[verifier::external_body]
fn heap_pop(h: &mut heapless::binary_heap::BinaryHeap<u64, heapless::binary_heap::Max, 1024>) -> (r:
    Option<u64>)
    ensures
        match r {
            None => heap_keys(*old(h)).len() == 0 && heap_keys(*final(h)) == heap_keys(*old(h)),
            Some(k) => {
                &&& heap_keys(*old(h)).count(k) > 0
                &&& heap_keys(*final(h)) == heap_keys(*old(h)).remove(k)
                &&& forall|x: u64| heap_keys(*final(h)).count(x) > 0 ==> x <= k
            },
        },
{
    h.pop()
}

/// Relies on heapless::binary_heap::BinaryHeap::peek: on a max-heap it
/// returns the greatest item without removing it, and returns nothing
/// exactly when the heap is empty.
#[verifier::external_body]
fn heap_peek(h: &heapless::binary_heap::BinaryHeap<u64, heapless::binary_heap::Max, 1024>) -> (r:
    Option<u64>)
    ensures
        match r {
            None => heap_keys(*h).len() == 0,
            Some(k) => {
                &&& heap_keys(*h).count(k) > 0
                &&& forall|x: u64| heap_keys(*h).count(x) > 0 ==> x <= k
            },
        },
{
    h.peek().copied()
}

/// The rank a key carries.
pub open spec fn key_rank(k: u64) -> u64 {
    k / SEQ_SPAN
}

/// The insertion sequence a key carries.
pub open spec fn key_seq(k: u64) -> u64 {
    (SEQ_MAX - (k % SEQ_SPAN)) as u64
}

/// The key that packs a priority rank and an insertion sequence: ranks
/// order keys first, and within one rank an earlier sequence gives a
/// greater key.
pub open spec fn spec_key(rank: u64, seq: u64) -> u64
    recommends
        1 <= rank <= 5,
        seq <= SEQ_MAX,
{
    (rank * SEQ_SPAN + (SEQ_MAX - seq)) as u64
}

/// Pack a rank and a sequence into a key.
fn make_key(rank: u64, seq: u64) -> (r: u64)
    requires
        1 <= rank <= 5,
        seq <= SEQ_MAX,
    ensures
        r == spec_key(rank, seq),
        key_rank(r) == rank,
        key_seq(r) == seq,
{
    let r: u64 = rank * SEQ_SPAN + (SEQ_MAX - seq);
    proof {
        lemma_key_fields(rank, seq);
    }
    r
}

/// A packed key gives back the rank and sequence that built it.
pub proof fn lemma_key_fields(rank: u64, seq: u64)
    requires
        1 <= rank <= 5,
        seq <= SEQ_MAX,
    ensures
        key_rank(spec_key(rank, seq)) == rank,
        key_seq(spec_key(rank, seq)) == seq,
{
    let k = spec_key(rank, seq);
    assert(k == rank * SEQ_SPAN + (SEQ_MAX - seq));
    assert(k / SEQ_SPAN == rank && k % SEQ_SPAN == SEQ_MAX - seq) by (nonlinear_arith)
        requires
            k == rank * SEQ_SPAN + (SEQ_MAX - seq),
            1 <= rank <= 5,
            seq <= SEQ_MAX,
            SEQ_SPAN == 0x100000000000000u64,
            SEQ_MAX == 0xFFFFFFFFFFFFFFu64,
    ;
}

/// Keys order by rank first and earlier sequence second: of two packed
/// keys the greater is the one with the higher rank, or at equal rank
/// the one with the smaller sequence, and equal keys pack equal fields.
pub proof fn lemma_key_order(r1: u64, s1: u64, r2: u64, s2: u64)
    requires
        1 <= r1 <= 5,
        1 <= r2 <= 5,
        s1 <= SEQ_MAX,
        s2 <= SEQ_MAX,
    ensures
        spec_key(r1, s1) > spec_key(r2, s2) <==> (r1 > r2 || (r1 == r2 && s1 < s2)),
        spec_key(r1, s1) == spec_key(r2, s2) <==> (r1 == r2 && s1 == s2),
{
    lemma_key_fields(r1, s1);
    lemma_key_fields(r2, s2);
    assert(spec_key(r1, s1) > spec_key(r2, s2) <==> (r1 > r2 || (r1 == r2 && s1 < s2)))
        by (nonlinear_arith)
        requires
            1 <= r1 <= 5,
            1 <= r2 <= 5,
            s1 <= SEQ_MAX,
            s2 <= SEQ_MAX,
            SEQ_SPAN == 0x100000000000000u64,
            SEQ_MAX == 0xFFFFFFFFFFFFFFu64,
            spec_key(r1, s1) == r1 * SEQ_SPAN + (SEQ_MAX - s1),
            spec_key(r2, s2) == r2 * SEQ_SPAN + (SEQ_MAX - s2),
    ;
}

/// Whether `k` is the key of the most urgent message of `m`: it is
/// present and no present key exceeds it.
pub open spec fn is_top_key(m: Map<u64, Message>, k: u64) -> bool {
    &&& m.dom().contains(k)
    &&& forall|k2: u64| m.dom().contains(k2) ==> k2 <= k
}

/// A map has at most one top key.
pub proof fn lemma_top_unique(m: Map<u64, Message>, k1: u64, k2: u64)
    requires
        is_top_key(m, k1),
        is_top_key(m, k2),
    ensures
        k1 == k2,
{
}

/// Whether every key of `m` packs the rank of the message it maps to.
pub open spec fn rank_consistent(m: Map<u64, Message>) -> bool {
    forall|k: u64| #[trigger] m.dom().contains(k) ==> 1 <= key_rank(k) <= 5 && key_rank(k)
        == m[k].priority.rank()
}

/// Priority-queue ordering: over any rank-consistent key model, two
/// successive pops never rise in priority, and within one priority they
/// follow insertion order. If `k1` is the top key and `k2` is the top
/// key after `k1` is removed, then the second message's priority rank
/// is at most the first one's, and at equal rank the second message
/// carries the later insertion sequence.
pub proof fn lemma_pop_ordering(m: Map<u64, Message>, k1: u64, k2: u64)
    requires
        rank_consistent(m),
        is_top_key(m, k1),
        is_top_key(m.remove(k1), k2),
    ensures
        m[k2].priority.rank() <= m[k1].priority.rank(),
        m[k2].priority.rank() == m[k1].priority.rank() ==> key_seq(k2) > key_seq(k1),
{
    assert(m.dom().contains(k2) && k2 != k1);
    assert(k2 <= k1);
    assert(k2 < k1);
    assert(key_rank(k2) <= key_rank(k1) && (key_rank(k2) == key_rank(k1) ==> k2 % SEQ_SPAN < k1
        % SEQ_SPAN)) by (nonlinear_arith)
        requires
            k2 < k1,
            SEQ_SPAN == 0x100000000000000u64,
            key_rank(k1) == k1 / SEQ_SPAN,
            key_rank(k2) == k2 / SEQ_SPAN,
    ;
}

/// The packed-key order agrees with the documented scheduling order of
/// prioritized messages: of two entries with in-range ranks, distinct
/// sequences and sequences within the key space, the one with the
/// greater key is exactly the one scheduled ahead, higher priority
/// first and, within one priority, earlier insertion first.
pub proof fn lemma_key_order_matches_scheduling(a: PriorityMessage, b: PriorityMessage)
    requires
        a.sequence <= SEQ_MAX,
        b.sequence <= SEQ_MAX,
        a.sequence != b.sequence,
    ensures
        spec_key(a.message.priority.rank(), a.sequence) > spec_key(
            b.message.priority.rank(), b.sequence) <==> a.ahead_of(b),
{
    lemma_key_order(a.message.priority.rank(), a.sequence, b.message.priority.rank(), b.sequence);
}

/// The number of keys of `m` that pack rank `r`.
pub open spec fn rank_count(m: Map<u64, Message>, r: u64) -> nat {
    m.dom().filter(|k: u64| key_rank(k) == r).len()
}

/// Inserting a fresh key raises the count of its rank by one and
/// leaves every other rank's count unchanged.
proof fn lemma_rank_count_insert(m: Map<u64, Message>, k: u64, v: Message, r: u64)
    requires
        m.dom().finite(),
        !m.dom().contains(k),
    ensures
        rank_count(m.insert(k, v), r) == rank_count(m, r) + if key_rank(k) == r {
            1int
        } else {
            0int
        },
{
    let p = |x: u64| key_rank(x) == r;
    m.dom().lemma_len_filter(p);
    if p(k) {
        assert(m.insert(k, v).dom().filter(p) =~= m.dom().filter(p).insert(k));
    } else {
        assert(m.insert(k, v).dom().filter(p) =~= m.dom().filter(p));
    }
}

/// Removing a present key lowers the count of its rank by one and
/// leaves every other rank's count unchanged.
proof fn lemma_rank_count_remove(m: Map<u64, Message>, k: u64, r: u64)
    requires
        m.dom().finite(),
        m.dom().contains(k),
    ensures
        rank_count(m.remove(k), r) == rank_count(m, r) - if key_rank(k) == r {
            1int
        } else {
            0int
        },
{
    let p = |x: u64| key_rank(x) == r;
    m.remove(k).dom().lemma_len_filter(p);
    if p(k) {
        assert(m.dom().filter(p) =~= m.remove(k).dom().filter(p).insert(k));
    } else {
        assert(m.dom().filter(p) =~= m.remove(k).dom().filter(p));
    }
}

/// A rank count never exceeds the number of keys.
proof fn lemma_rank_count_le(m: Map<u64, Message>, r: u64)
    requires
        m.dom().finite(),
    ensures
        rank_count(m, r) <= m.dom().len(),
{
    m.dom().lemma_len_filter(|x: u64| key_rank(x) == r);
}

/// Relies on the derived Message::clone: the copy holds the same fields.
#[verifier::external_body]
pub(crate) fn clone_message(m: &Message) -> (r: Message)
    ensures
        r == *m,
{
    m.clone()
}

/// A bounded priority queue of capacity `N`: pop returns the highest
/// priority message, and within one priority the earliest pushed.
pub struct PriorityQueue<const N: usize> {
    /// The ordering heap of packed keys.
    heap: heapless::binary_heap::BinaryHeap<u64, heapless::binary_heap::Max, 1024>,
    /// The messages, keyed by packed key.
    map: HashMap<u64, Message>,
    /// The next insertion sequence number.
    sequence_counter: u64,
    /// Messages of each priority currently queued.
    low_count: usize,
    /// Messages of medium priority currently queued.
    medium_count: usize,
    /// Messages of high priority currently queued.
    high_count: usize,
    /// Messages of critical priority currently queued.
    critical_count: usize,
    /// Messages of emergency priority currently queued.
    emergency_count: usize,
}

impl<const N: usize> PriorityQueue<N> {
    /// The key model of the queue: each packed key maps to its message.
    pub closed spec fn messages(self) -> Map<u64, Message> {
        self.map@
    }

    /// The next insertion sequence number.
    pub closed spec fn next_sequence(self) -> u64 {
        self.sequence_counter
    }

    /// The queue invariant: the capacity fits the backing heap, the heap
    /// holds exactly the map's keys, each key packs its message's rank
    /// and a sequence below the counter, and the per-priority counters
    /// match the model.
    pub closed spec fn well_formed(self) -> bool {
        &&& N <= HEAP_CAP
        &&& self.map@.dom().finite()
        &&& forall|k: u64| #[trigger] heap_keys(self.heap).count(k) == if self.map@.dom().contains(
            k) {
            1nat
        } else {
            0nat
        }
        &&& heap_keys(self.heap).len() == self.map@.dom().len()
        &&& self.map@.dom().len() <= N
        &&& self.sequence_counter <= SEQ_SPAN
        &&& rank_consistent(self.map@)
        &&& forall|k: u64| #[trigger] self.map@.dom().contains(k) ==> key_seq(k)
            < self.sequence_counter
        &&& self.low_count == rank_count(self.map@, 1)
        &&& self.medium_count == rank_count(self.map@, 2)
        &&& self.high_count == rank_count(self.map@, 3)
        &&& self.critical_count == rank_count(self.map@, 4)
        &&& self.emergency_count == rank_count(self.map@, 5)
    }

    /// Create an empty queue. The capacity must fit the backing heap.
    pub fn new() -> (r: Self)
        requires
            N <= HEAP_CAP,
        ensures
            r.well_formed(),
            r.messages() == Map::<u64, Message>::empty(),
            r.next_sequence() == 0,
    {
        let r = Self {
            heap: heap_new(),
            map: HashMap::new(),
            sequence_counter: 0,
            low_count: 0,
            medium_count: 0,
            high_count: 0,
            critical_count: 0,
            emergency_count: 0,
        };
        proof {
            assert(r.map@.dom() =~= Set::<u64>::empty());
            assert forall|rk: u64| rank_count(r.map@, rk) == 0 by {
                assert(r.map@.dom().filter(|k: u64| key_rank(k) == rk) =~= Set::<u64>::empty());
            }
        }
        r
    }

    /// The number of queued messages.
    pub fn len(&self) -> (r: usize)
        requires
            self.well_formed(),
        ensures
            r == self.messages().dom().len(),
    {
        self.map.len()
    }

    /// Whether the queue is empty.
    pub fn is_empty(&self) -> (r: bool)
        requires
            self.well_formed(),
        ensures
            r == (self.messages().dom().len() == 0),
    {
        self.map.len() == 0
    }

    /// Whether the queue is full.
    pub fn is_full(&self) -> (r: bool)
        requires
            self.well_formed(),
        ensures
            r == (self.messages().dom().len() >= N),
    {
        self.map.len() >= N
    }

    /// The capacity of the queue.
    pub fn capacity(&self) -> (r: usize)
        ensures
            r == N,
    {
        N
    }

    /// Push a message. The message takes the next insertion sequence and
    /// joins the queue under its packed key. A push onto a full queue
    /// fails explicitly and evicts nothing. The sequence space wraps
    /// only when the queue is empty at the wrap point; a push that would
    /// wrap a non-empty queue is refused.
    pub fn push(&mut self, message: Message) -> (r: Result<(), SpaceCommError>)
        requires
            old(self).well_formed(),
        ensures
            final(self).well_formed(),
            old(self).messages().dom().len() >= N ==> {
                &&& r == Err::<(), SpaceCommError>(SpaceCommError::MemoryError {
                    error_type: MemoryErrorType::BufferOverflow,
                    size: Some(N),
                })
                &&& final(self).messages() == old(self).messages()
                &&& final(self).next_sequence() == old(self).next_sequence()
            },
            old(self).messages().dom().len() < N && old(self).next_sequence() <= SEQ_MAX ==> ({
                let key = spec_key(message.priority.rank(), old(self).next_sequence());
                &&& r is Ok
                &&& !old(self).messages().dom().contains(key)
                &&& final(self).messages() == old(self).messages().insert(key, message)
                &&& final(self).next_sequence() == old(self).next_sequence() + 1
            }),
            old(self).messages().dom().len() < N && old(self).next_sequence() > SEQ_MAX && old(
                self).messages().dom().len() == 0 ==> ({
                let key = spec_key(message.priority.rank(), 0);
                &&& r is Ok
                &&& final(self).messages() == old(self).messages().insert(key, message)
                &&& final(self).next_sequence() == 1
            }),
            0 < old(self).messages().dom().len() < N && old(self).next_sequence() > SEQ_MAX
                ==> r is Err && final(self).messages() == old(self).messages(),
    {
        if self.map.len() >= N {
            return Err(SpaceCommError::memory_error(MemoryErrorType::BufferOverflow, Some(N)));
        }
        if self.sequence_counter > SEQ_MAX {
            if self.map.len() == 0 {
                self.sequence_counter = 0;
            } else {
                return Err(SpaceCommError::ResourceExhausted {
                    resource: "insertion sequence numbers",
                    current_usage: u32::MAX,
                    max_usage: u32::MAX,
                });
            }
        }
        let pr: MessagePriority = message.priority;
        let rank: u64 = message.priority.rank_value();
        let seq: u64 = self.sequence_counter;
        let key: u64 = make_key(rank, seq);
        proof {
            if self.map@.dom().contains(key) {
                lemma_key_fields(rank, seq);
                assert(key_seq(key) < self.sequence_counter);
                assert(false);
            }
        }
        let ghost pre_map = self.map@;
        self.map.insert(key, message);
        let hr = heap_push(&mut self.heap, key);
        proof {
            if hr is Err {
                assert(false);
            }
            lemma_rank_count_insert(pre_map, key, message, 1);
            lemma_rank_count_insert(pre_map, key, message, 2);
            lemma_rank_count_insert(pre_map, key, message, 3);
            lemma_rank_count_insert(pre_map, key, message, 4);
            lemma_rank_count_insert(pre_map, key, message, 5);
            lemma_rank_count_le(pre_map, rank);
        }
        match pr {
            MessagePriority::Low => {
                self.low_count = self.low_count + 1;
            },
            MessagePriority::Medium => {
                self.medium_count = self.medium_count + 1;
            },
            MessagePriority::High => {
                self.high_count = self.high_count + 1;
            },
            MessagePriority::Critical => {
                self.critical_count = self.critical_count + 1;
            },
            MessagePriority::Emergency => {
                self.emergency_count = self.emergency_count + 1;
            },
        }
        self.sequence_counter = seq + 1;
        Ok(())
    }

    /// Remove and return the most urgent message: the one whose packed
    /// key is greatest, which is the highest priority and, within it,
    /// the earliest insertion. Returns nothing exactly when the queue
    /// is empty.
    pub fn pop(&mut self) -> (r: Option<Message>)
        requires
            old(self).well_formed(),
        ensures
            final(self).well_formed(),
            final(self).next_sequence() == old(self).next_sequence(),
            (r is None) <==> old(self).messages().dom().len() == 0,
            r is None ==> final(self).messages() == old(self).messages(),
            r matches Some(m) ==> exists|k: u64|
                {
                    &&& #[trigger] is_top_key(old(self).messages(), k)
                    &&& m == old(self).messages()[k]
                    &&& final(self).messages() == old(self).messages().remove(k)
                },
            // No message left behind outranks the one returned.
            r matches Some(m) ==> forall|k: u64|
                #[trigger] final(self).messages().dom().contains(k) ==> final(
                self).messages()[k].priority.rank() <= m.priority.rank(),
    {
        let popped = heap_pop(&mut self.heap);
        match popped {
            None => {
                proof {
                    assert forall|k: u64| !old(self).messages().dom().contains(k) by {
                        assert(heap_keys(old(self).heap).count(k) == 0);
                    }
                    assert(old(self).messages().dom() =~= Set::<u64>::empty());
                }
                None
            },
            Some(k) => {
                proof {
                    assert(heap_keys(old(self).heap).count(k) > 0);
                    assert(old(self).messages().dom().contains(k));
                    assert forall|k2: u64| old(self).messages().dom().contains(k2) implies k2
                        <= k by {
                        if k2 != k {
                            assert(heap_keys(self.heap).count(k2) == heap_keys(
                                old(self).heap).count(k2));
                        }
                    }
                    assert(is_top_key(old(self).messages(), k));
                }
                let ghost pre_map = self.map@;
                let removed = self.map.remove(&k);
                match removed {
                    Some(m) => {
                        proof {
                            lemma_rank_count_remove(pre_map, k, 1);
                            lemma_rank_count_remove(pre_map, k, 2);
                            lemma_rank_count_remove(pre_map, k, 3);
                            lemma_rank_count_remove(pre_map, k, 4);
                            lemma_rank_count_remove(pre_map, k, 5);
                        }
                        let rank: u64 = m.priority.rank_value();
                        match m.priority {
                            MessagePriority::Low => {
                                self.low_count = self.low_count - 1;
                            },
                            MessagePriority::Medium => {
                                self.medium_count = self.medium_count - 1;
                            },
                            MessagePriority::High => {
                                self.high_count = self.high_count - 1;
                            },
                            MessagePriority::Critical => {
                                self.critical_count = self.critical_count - 1;
                            },
                            MessagePriority::Emergency => {
                                self.emergency_count = self.emergency_count - 1;
                            },
                        }
                        proof {
                            assert forall|k2: u64| #[trigger] self.map@.dom().contains(
                                k2) implies self.map@[k2].priority.rank() <= m.priority.rank() by {
                                assert(old(self).map@.dom().contains(k2));
                                assert(k2 <= k);
                                assert(key_rank(k2) <= key_rank(k)) by (nonlinear_arith)
                                    requires
                                        k2 <= k,
                                        key_rank(k2) == k2 / SEQ_SPAN,
                                        key_rank(k) == k / SEQ_SPAN,
                                        SEQ_SPAN == 0x100000000000000u64,
                                ;
                            }
                        }
                        Some(m)
                    },
                    None => {
                        proof {
                            assert(false);
                        }
                        None
                    },
                }
            },
        }
    }

    /// Return the most urgent message without removing it. Returns
    /// nothing exactly when the queue is empty.
    pub fn peek(&self) -> (r: Option<&Message>)
        requires
            self.well_formed(),
        ensures
            (r is None) <==> self.messages().dom().len() == 0,
            r matches Some(m) ==> exists|k: u64|
                {
                    &&& #[trigger] is_top_key(self.messages(), k)
                    &&& *m == self.messages()[k]
                },
    {
        let topped = heap_peek(&self.heap);
        match topped {
            None => {
                proof {
                    assert forall|k: u64| !self.messages().dom().contains(k) by {
                        assert(heap_keys(self.heap).count(k) == 0);
                    }
                    assert(self.messages().dom() =~= Set::<u64>::empty());
                }
                None
            },
            Some(k) => {
                proof {
                    assert(self.messages().dom().contains(k));
                    assert forall|k2: u64| self.messages().dom().contains(k2) implies k2 <= k by {
                        assert(heap_keys(self.heap).count(k2) > 0);
                    }
                    assert(is_top_key(self.messages(), k));
                }
                let got = self.map.get(&k);
                match got {
                    Some(m) => Some(m),
                    None => {
                        proof {
                            assert(false);
                        }
                        None
                    },
                }
            },
        }
    }

    /// Remove every expired message: afterwards the model holds exactly
    /// the messages that had not expired at `now_seconds`, unchanged and
    /// under their old keys, so the order among survivors is preserved.
    pub fn remove_expired(&mut self, now_seconds: u64)
        requires
            old(self).well_formed(),
        ensures
            final(self).well_formed(),
            final(self).next_sequence() == old(self).next_sequence(),
            forall|k: u64| #[trigger] final(self).messages().dom().contains(k) <==> (old(
                self).messages().dom().contains(k) && !old(self).messages()[k].spec_expired(
                now_seconds)),
            forall|k: u64| #[trigger] final(self).messages().dom().contains(k) ==> final(
                self).messages()[k] == old(self).messages()[k],
    {
        let ghost m0 = old(self).map@;
        let mut kept_keys: Vec<u64> = Vec::new();
        let mut kept_msgs: Vec<Message> = Vec::new();
        loop
            invariant
                self.well_formed(),
                old(self).well_formed(),
                m0 == old(self).map@,
                self.sequence_counter == old(self).sequence_counter,
                kept_keys@.len() == kept_msgs@.len(),
                // every key still mapped is an original, unprocessed key
                forall|k: u64| #[trigger] self.map@.dom().contains(k) ==> m0.dom().contains(k)
                    && self.map@[k] == m0[k],
                // kept entries are original, not expired, and distinct
                forall|i: int| 0 <= i < kept_keys@.len() ==> m0.dom().contains(
                    #[trigger] kept_keys@[i]) && kept_msgs@[i] == m0[kept_keys@[i]]
                    && !kept_msgs@[i].spec_expired(now_seconds),
                forall|i: int, j: int| 0 <= i < j < kept_keys@.len() ==> kept_keys@[i]
                    != kept_keys@[j],
                forall|i: int| 0 <= i < kept_keys@.len() ==> !self.map@.dom().contains(
                    #[trigger] kept_keys@[i]),
                // every original key is still mapped, kept, or expired
                forall|k: u64| #[trigger] m0.dom().contains(k) ==> self.map@.dom().contains(k)
                    || kept_keys@.contains(k) || m0[k].spec_expired(now_seconds),
                kept_keys@.len() + self.map@.dom().len() <= m0.dom().len(),
            ensures
                self.well_formed(),
                self.sequence_counter == old(self).sequence_counter,
                kept_keys@.len() == kept_msgs@.len(),
                self.map@.dom().len() == 0,
                forall|k: u64| !(#[trigger] self.map@.dom().contains(k)),
                forall|i: int| 0 <= i < kept_keys@.len() ==> m0.dom().contains(
                    #[trigger] kept_keys@[i]) && kept_msgs@[i] == m0[kept_keys@[i]]
                    && !kept_msgs@[i].spec_expired(now_seconds),
                forall|i: int, j: int| 0 <= i < j < kept_keys@.len() ==> kept_keys@[i]
                    != kept_keys@[j],
                forall|k: u64| #[trigger] m0.dom().contains(k) ==> kept_keys@.contains(k)
                    || m0[k].spec_expired(now_seconds),
                kept_keys@.len() <= m0.dom().len(),
            decreases heap_keys(self.heap).len(),
        {
            let popped = heap_pop(&mut self.heap);
            match popped {
                None => {
                    proof {
                        assert forall|k: u64| !self.map@.dom().contains(k) by {
                            assert(heap_keys(self.heap).count(k) == 0);
                        }
                        assert(self.map@.dom() =~= Set::<u64>::empty());
                    }
                    break ;
                },
                Some(k) => {
                    proof {
                        assert(self.map@.dom().contains(k));
                    }
                    let ghost pre_map = self.map@;
                    let removed = self.map.remove(&k);
                    match removed {
                        Some(m) => {
                            proof {
                                lemma_rank_count_remove(pre_map, k, 1);
                                lemma_rank_count_remove(pre_map, k, 2);
                                lemma_rank_count_remove(pre_map, k, 3);
                                lemma_rank_count_remove(pre_map, k, 4);
                                lemma_rank_count_remove(pre_map, k, 5);
                            }
                            match &m.priority {
                                MessagePriority::Low => {
                                    self.low_count = self.low_count - 1;
                                },
                                MessagePriority::Medium => {
                                    self.medium_count = self.medium_count - 1;
                                },
                                MessagePriority::High => {
                                    self.high_count = self.high_count - 1;
                                },
                                MessagePriority::Critical => {
                                    self.critical_count = self.critical_count - 1;
                                },
                                MessagePriority::Emergency => {
                                    self.emergency_count = self.emergency_count - 1;
                                },
                            }
                            let ghost pre_kept = kept_keys@;
                            if !m.is_expired_at(now_seconds) {
                                kept_keys.push(k);
                                kept_msgs.push(m);
                                proof {
                                    assert(kept_keys@[kept_keys@.len() - 1] == k);
                                    assert(kept_keys@.contains(k));
                                    assert forall|x: u64| pre_kept.contains(x)
                                        implies kept_keys@.contains(x) by {
                                        let j = choose|j: int|
                                            0 <= j < pre_kept.len() && pre_kept[j] == x;
                                        assert(kept_keys@[j] == x);
                                    }
                                }
                            }
                        },
                        None => {
                            proof {
                                assert(false);
                            }
                        },
                    }
                },
            }
        }
        // Reinsert the survivors under their old keys.
        let mut i: usize = 0;
        while i < kept_keys.len()
            invariant
                self.well_formed(),
                old(self).well_formed(),
                m0 == old(self).map@,
                self.sequence_counter == old(self).sequence_counter,
                kept_keys@.len() == kept_msgs@.len(),
                i <= kept_keys@.len(),
                forall|j: int| 0 <= j < kept_keys@.len() ==> m0.dom().contains(
                    #[trigger] kept_keys@[j]) && kept_msgs@[j] == m0[kept_keys@[j]]
                    && !kept_msgs@[j].spec_expired(now_seconds),
                forall|j1: int, j2: int| 0 <= j1 < j2 < kept_keys@.len() ==> kept_keys@[j1]
                    != kept_keys@[j2],
                forall|k: u64| #[trigger] self.map@.dom().contains(k) <==> exists|j: int|
                    0 <= j < i && kept_keys@[j] == k,
                forall|k: u64| #[trigger] self.map@.dom().contains(k) ==> self.map@[k] == m0[k],
                forall|k: u64| #[trigger] m0.dom().contains(k) ==> kept_keys@.contains(k)
                    || m0[k].spec_expired(now_seconds),
                self.map@.dom().len() <= i,
                kept_keys@.len() <= m0.dom().len() <= N,
            decreases kept_keys@.len() - i,
        {
            let k = kept_keys[i];
            let m = clone_message(&kept_msgs[i]);
            proof {
                if self.map@.dom().contains(k) {
                    let j = choose|j: int| 0 <= j < i && kept_keys@[j] == k;
                    assert(false);
                }
            }
            let ghost pre_map = self.map@;
            self.map.insert(k, m);
            let hr = heap_push(&mut self.heap, k);
            proof {
                if hr is Err {
                    assert(false);
                }
                lemma_rank_count_insert(pre_map, k, m, 1);
                lemma_rank_count_insert(pre_map, k, m, 2);
                lemma_rank_count_insert(pre_map, k, m, 3);
                lemma_rank_count_insert(pre_map, k, m, 4);
                lemma_rank_count_insert(pre_map, k, m, 5);
                lemma_rank_count_le(pre_map, 1);
                lemma_rank_count_le(pre_map, 2);
                lemma_rank_count_le(pre_map, 3);
                lemma_rank_count_le(pre_map, 4);
                lemma_rank_count_le(pre_map, 5);
                assert(m == m0[k]);
                assert(key_rank(k) == m.priority.rank());
                assert forall|k2: u64| #[trigger] self.map@.dom().contains(k2) implies exists|
                    j: int,
                |
                    0 <= j < i + 1 && kept_keys@[j] == k2 by {
                    if k2 == k {
                        assert(kept_keys@[i as int] == k2);
                    } else {
                        assert(pre_map.dom().contains(k2));
                    }
                }
            }
            match &kept_msgs[i].priority {
                MessagePriority::Low => {
                    self.low_count = self.low_count + 1;
                },
                MessagePriority::Medium => {
                    self.medium_count = self.medium_count + 1;
                },
                MessagePriority::High => {
                    self.high_count = self.high_count + 1;
                },
                MessagePriority::Critical => {
                    self.critical_count = self.critical_count + 1;
                },
                MessagePriority::Emergency => {
                    self.emergency_count = self.emergency_count + 1;
                },
            }
            i = i + 1;
        }
        proof {
            assert forall|k: u64|
                #[trigger] self.map@.dom().contains(k) <==> (m0.dom().contains(k)
                    && !m0[k].spec_expired(now_seconds)) by {
                if self.map@.dom().contains(k) {
                    let j = choose|j: int|
                        0 <= j < kept_keys@.len() && kept_keys@[j] == k;
                }
                if m0.dom().contains(k) && !m0[k].spec_expired(now_seconds) {
                    assert(kept_keys@.contains(k));
                    let j = choose|j: int| 0 <= j < kept_keys@.len() && kept_keys@[j] == k;
                    assert(kept_keys@[j] == k);
                }
            }
        }
    }

    /// Counts of queued messages by priority, with the total and the
    /// capacity.
    pub fn statistics(&self) -> (r: QueueStatistics)
        requires
            self.well_formed(),
        ensures
            r.total == self.messages().dom().len(),
            r.capacity == N,
            r.low_priority == rank_count(self.messages(), 1),
            r.medium_priority == rank_count(self.messages(), 2),
            r.high_priority == rank_count(self.messages(), 3),
            r.critical_priority == rank_count(self.messages(), 4),
            r.emergency_priority == rank_count(self.messages(), 5),
    {
        QueueStatistics {
            total: self.map.len(),
            capacity: N,
            low_priority: self.low_count,
            medium_priority: self.medium_count,
            high_priority: self.high_count,
            critical_priority: self.critical_count,
            emergency_priority: self.emergency_count,
        }
    }

    /// Every key of the model packs its message's priority rank, and a
    /// sequence below the next insertion sequence.
    pub proof fn lemma_model_consistent(&self)
        requires
            self.well_formed(),
        ensures
            rank_consistent(self.messages()),
            forall|k: u64| #[trigger] self.messages().dom().contains(k) ==> key_seq(k)
                < self.next_sequence(),
            self.messages().dom().len() <= N,
    {
    }
}

} // verus!
