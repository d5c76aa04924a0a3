//! Laws of the usage counters over whole sequences of recorded operations.
//!
//! A recorded operation is modelled as an [`AllocEvent`]; folding a sequence
//! of events over a [`Trallocator`] with [`Trallocator::after_events`] gives
//! exactly the counter state that the same sequence of
//! [`Trallocator::record_alloc`] / [`Trallocator::record_dealloc`] calls
//! produces, in whatever order concurrent callers happened to interleave
//! them. The proof functions here state what the counters are guaranteed to
//! show after such sequences.

use vstd::prelude::*;
use vstd::arithmetic::div_mod::lemma_add_mod_noop;
use vstd::arithmetic::div_mod::lemma_mod_add_multiples_vanish;
use vstd::arithmetic::div_mod::lemma_small_mod;

use crate::Trallocator;

verus! {

/// One recorded counter operation.
pub enum AllocEvent {
    /// An allocation of the given number of bytes was recorded.
    Alloc(usize),
    /// A deallocation of the given number of bytes was recorded.
    Dealloc(usize),
}

/// The number of values a `usize` counter can hold; counter arithmetic
/// wraps modulo this.
pub open spec fn counter_modulus() -> int {
    usize::MAX + 1
}

/// The total number of bytes that the allocation events of `es` record.
pub open spec fn alloc_total(es: Seq<AllocEvent>) -> nat
    decreases es.len(),
{
    if es.len() == 0 {
        0
    } else {
        (match es[0] {
            AllocEvent::Alloc(s) => s as nat,
            AllocEvent::Dealloc(_) => 0,
        }) + alloc_total(es.skip(1))
    }
}

/// The total number of bytes that the deallocation events of `es` record.
pub open spec fn dealloc_total(es: Seq<AllocEvent>) -> nat
    decreases es.len(),
{
    if es.len() == 0 {
        0
    } else {
        (match es[0] {
            AllocEvent::Alloc(_) => 0,
            AllocEvent::Dealloc(s) => s as nat,
        }) + dealloc_total(es.skip(1))
    }
}

impl<A> Trallocator<A> {
    /// The counter state after one recorded event.
    pub open spec fn after_event(self, e: AllocEvent) -> Self {
        match e {
            AllocEvent::Alloc(s) => self.with_alloc_recorded(s),
            AllocEvent::Dealloc(s) => self.with_dealloc_recorded(s),
        }
    }

    /// The counter state after a sequence of recorded events, applied in
    /// order.
    pub open spec fn after_events(self, es: Seq<AllocEvent>) -> Self
        decreases es.len(),
    {
        if es.len() == 0 {
            self
        } else {
            self.after_event(es[0]).after_events(es.skip(1))
        }
    }
}

/// An allocation immediately followed by its deallocation leaves the usage
/// counter exactly where it was, for any starting value and any size: the
/// wrapping addition and the wrapping subtraction of the same amount cancel.
pub proof fn lemma_pair_restores_usage<A>(t: Trallocator<A>, size: usize)
    ensures
        t.with_alloc_recorded(size).with_dealloc_recorded(size).usage == t.usage,
{
}

/// Recording an allocation of `size` bytes while nothing is outstanding
/// brings the usage counter to exactly `size`.
pub proof fn lemma_alloc_from_idle<A>(t: Trallocator<A>, size: usize)
    requires
        t.usage == 0,
    ensures
        t.with_alloc_recorded(size).usage == size,
{
}

/// On a freshly constructed wrapper, allocating `size` bytes and freeing
/// them again leaves the usage counter at zero but the peak counter at
/// `size`: the deallocation folds the pre-deallocation usage into the peak,
/// so the high-water mark survives the block it measures.
pub proof fn lemma_fresh_pair_peak<A>(t: Trallocator<A>, size: usize)
    requires
        t.usage == 0,
        t.max_usage == 0,
    ensures
        t.with_alloc_recorded(size).with_dealloc_recorded(size).usage == 0,
        t.with_alloc_recorded(size).with_dealloc_recorded(size).max_usage == size,
{
}

/// The peak counter never decreases under recorded operations, whichever
/// kind the operation is: only [`Trallocator::clear_max_usage`] can lower
/// it.
pub proof fn lemma_peak_monotone<A>(t: Trallocator<A>, e: AllocEvent)
    ensures
        t.after_event(e).max_usage >= t.max_usage,
{
}

/// The peak counter never decreases across a whole sequence of recorded
/// operations.
pub proof fn lemma_peak_monotone_events<A>(t: Trallocator<A>, es: Seq<AllocEvent>)
    ensures
        t.after_events(es).max_usage >= t.max_usage,
    decreases es.len(),
{
    if es.len() > 0 {
        lemma_peak_monotone(t, es[0]);
        lemma_peak_monotone_events(t.after_event(es[0]), es.skip(1));
    }
}

/// The events of `n` balanced pairs: each size in `sizes` allocated and
/// immediately deallocated before the next size is touched.
pub open spec fn balanced_pairs(sizes: Seq<usize>) -> Seq<AllocEvent>
    decreases sizes.len(),
{
    if sizes.len() == 0 {
        Seq::empty()
    } else {
        seq![AllocEvent::Alloc(sizes[0]), AllocEvent::Dealloc(sizes[0])] + balanced_pairs(
            sizes.skip(1),
        )
    }
}

/// For any sequence of sizes, each allocated and immediately deallocated
/// before the next allocation, the usage counter stands at its starting
/// value after every complete pair: applying the lemma to any prefix of the
/// sizes gives the counter at that pair boundary, and it is always the value
/// the wrapper started with.
pub proof fn lemma_balanced_pairs_restore_usage<A>(t: Trallocator<A>, sizes: Seq<usize>)
    ensures
        t.after_events(balanced_pairs(sizes)).usage == t.usage,
        t.after_events(balanced_pairs(sizes)).alloc == t.alloc,
    decreases sizes.len(),
{
    if sizes.len() > 0 {
        let s = sizes[0];
        let es = balanced_pairs(sizes);
        let rest = balanced_pairs(sizes.skip(1));
        let t2 = t.with_alloc_recorded(s).with_dealloc_recorded(s);
        let t1 = t.with_alloc_recorded(s);
        assert(es[0] == AllocEvent::Alloc(s));
        assert(es.skip(1)[0] == AllocEvent::Dealloc(s));
        assert(es.skip(1).skip(1) =~= rest);
        assert(t.after_events(es) == t1.after_events(es.skip(1)));
        assert(t1.after_events(es.skip(1)) == t2.after_events(rest));
        lemma_pair_restores_usage(t, s);
        lemma_balanced_pairs_restore_usage(t2, sizes.skip(1));
    }
}

/// The number of allocation events in `es`.
pub open spec fn alloc_count(es: Seq<AllocEvent>) -> nat
    decreases es.len(),
{
    if es.len() == 0 {
        0
    } else {
        (match es[0] {
            AllocEvent::Alloc(_) => 1nat,
            AllocEvent::Dealloc(_) => 0nat,
        }) + alloc_count(es.skip(1))
    }
}

/// The number of deallocation events in `es`.
pub open spec fn dealloc_count(es: Seq<AllocEvent>) -> nat
    decreases es.len(),
{
    if es.len() == 0 {
        0
    } else {
        (match es[0] {
            AllocEvent::Alloc(_) => 0nat,
            AllocEvent::Dealloc(_) => 1nat,
        }) + dealloc_count(es.skip(1))
    }
}

/// Every event in `es` moves the counter by exactly `size` bytes.
pub open spec fn all_of_size(es: Seq<AllocEvent>, size: usize) -> bool {
    forall|i: int|
        0 <= i < es.len() ==> (#[trigger] es[i] == AllocEvent::Alloc(size) || es[i]
            == AllocEvent::Dealloc(size))
}

/// When every event moves the counter by the same `size`, the byte totals
/// are just `size` times the event counts.
pub proof fn lemma_uniform_totals(es: Seq<AllocEvent>, size: usize)
    requires
        all_of_size(es, size),
    ensures
        alloc_total(es) == size * alloc_count(es),
        dealloc_total(es) == size * dealloc_count(es),
    decreases es.len(),
{
    if es.len() == 0 {
        assert(size * 0nat == 0) by (nonlinear_arith);
    } else {
        let rest = es.skip(1);
        lemma_uniform_totals(rest, size);
        assert(size * (alloc_count(rest) + 1) == size * alloc_count(rest) + size)
            by (nonlinear_arith);
        assert(size * (dealloc_count(rest) + 1) == size * dealloc_count(rest) + size)
            by (nonlinear_arith);
    }
}

/// Concurrent balanced use: however many callers each record one
/// allocation of `size` bytes and one deallocation of `size` bytes, and in
/// whatever order those operations interleave, the usage counter returns
/// exactly to its starting value once all of them have run.
pub proof fn lemma_concurrent_pairs_restore_usage<A>(
    t: Trallocator<A>,
    es: Seq<AllocEvent>,
    size: usize,
)
    requires
        all_of_size(es, size),
        alloc_count(es) == dealloc_count(es),
    ensures
        t.after_events(es).usage == t.usage,
{
    lemma_uniform_totals(es, size);
    lemma_balanced_events_restore_usage(t, es);
}

/// Whatever order a sequence of recorded operations arrives in, the usage
/// counter afterwards is congruent, modulo the counter's word size, to the
/// starting value plus every byte allocated minus every byte deallocated:
/// no update is ever lost, only wrapped.
pub proof fn lemma_events_usage_congruent<A>(t: Trallocator<A>, es: Seq<AllocEvent>)
    ensures
        (t.after_events(es).usage + dealloc_total(es)) % counter_modulus() == (t.usage
            + alloc_total(es)) % counter_modulus(),
    decreases es.len(),
{
    let m = counter_modulus();
    if es.len() > 0 {
        let rest = es.skip(1);
        let t1 = t.after_event(es[0]);
        let f = t.after_events(es);
        lemma_events_usage_congruent(t1, rest);
        match es[0] {
            AllocEvent::Alloc(s) => {
                if t.usage + s > usize::MAX {
                    assert(t1.usage == t.usage + s - m);
                    lemma_mod_add_multiples_vanish(
                        t.usage + s - m + alloc_total(rest),
                        m,
                    );
                }
                assert((t1.usage + alloc_total(rest)) % m == (t.usage + alloc_total(es)) % m);
            },
            AllocEvent::Dealloc(s) => {
                // The induction hypothesis relates `f` to `t1`; shifting
                // both sides by the `s` bytes this event frees relates `f`
                // to `t` itself.
                lemma_add_mod_noop(f.usage + dealloc_total(rest), s as int, m);
                lemma_add_mod_noop(t1.usage + alloc_total(rest), s as int, m);
                if t.usage < s {
                    assert(t1.usage == t.usage - s + m);
                    lemma_mod_add_multiples_vanish(
                        t.usage + alloc_total(rest),
                        m,
                    );
                }
                assert((f.usage + dealloc_total(es)) % m == (t1.usage + s + alloc_total(rest))
                    % m);
                assert((t1.usage + s + alloc_total(rest)) % m == (t.usage + alloc_total(es)) % m);
            },
        }
    }
}

/// For any sequence of recorded operations in which the bytes allocated
/// equal the bytes deallocated — for instance, any interleaving of the
/// operations of concurrent callers that each allocate a block and free
/// that same block — the usage counter returns exactly to its starting
/// value.
pub proof fn lemma_balanced_events_restore_usage<A>(t: Trallocator<A>, es: Seq<AllocEvent>)
    requires
        alloc_total(es) == dealloc_total(es),
    ensures
        t.after_events(es).usage == t.usage,
{
    let m = counter_modulus();
    let f = t.after_events(es);
    let total = alloc_total(es);
    lemma_events_usage_congruent(t, es);
    lemma_add_mod_noop(f.usage as int, total as int, m);
    lemma_add_mod_noop(t.usage as int, total as int, m);
    lemma_small_mod(f.usage as nat, m as nat);
    lemma_small_mod(t.usage as nat, m as nat);
    let tm = total as int % m;
    assert(0 <= tm < m) by {
        vstd::arithmetic::div_mod::lemma_mod_bound(total as int, m);
    }
    if f.usage + tm >= m {
        lemma_mod_add_multiples_vanish(f.usage + tm - m, m);
        lemma_small_mod((f.usage + tm - m) as nat, m as nat);
    } else {
        lemma_small_mod((f.usage + tm) as nat, m as nat);
    }
    if t.usage + tm >= m {
        lemma_mod_add_multiples_vanish(t.usage + tm - m, m);
        lemma_small_mod((t.usage + tm - m) as nat, m as nat);
    } else {
        lemma_small_mod((t.usage + tm) as nat, m as nat);
    }
}

} // verus!
