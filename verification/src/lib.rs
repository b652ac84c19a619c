//! Adapts a stateful producer callable of type `FnMut() -> Option<Item>`
//! into a pull-based lazy sequence, without requiring a dedicated named
//! type for every such occasion.
//!
//! The adapter stores the producer at construction without invoking it.
//! Each pull invokes the producer exactly once and returns its result
//! verbatim: a present item, or the exhaustion marker `None`.

use vstd::prelude::*;

verus! {

/// A pull-based sequence implemented by its underlying producer
/// `FnMut() -> Option<Item>`.
///
/// The adapter owns the producer exclusively for its entire lifetime and
/// has no other state: exhaustion is a per-pull outcome reported by the
/// producer, never a latched adapter state.
#[verifier::reject_recursive_types(Item)]
pub struct MutFn<Item, F> where F: FnMut() -> Option<Item> {
    closure: F,
}

impl<Item, F> MutFn<Item, F> where F: FnMut() -> Option<Item> {
    /// The producer owned by this adapter.
    pub closed spec fn producer(self) -> F {
        self.closure
    }

    /// Creates the adapter, taking ownership of the producer.
    /// The producer is not invoked.
    fn new(closure: F) -> (r: Self)
        ensures
            r.producer() == closure,
    {
        MutFn { closure }
    }

    /// Pulls the next element: invokes the owned producer exactly once
    /// and returns its result unchanged.
    pub fn next(&mut self) -> (r: Option<Item>)
        requires
            call_requires(old(self).producer(), ()),
        ensures
            call_ensures(old(self).producer(), (), r),
            final(self).producer() == old(self).producer(),
    {
        (self.closure)()
    }
}

/// Converts a producer of form `FnMut() -> Option<Item>` into a
/// pull-based sequence over `Item`.
///
/// Construction cannot fail and has no side effect: the producer is
/// stored, not invoked.
pub fn iter_from_closure<Item, F>(closure: F) -> (r: MutFn<Item, F>) where
    F: FnMut() -> Option<Item>,
    ensures
        r.producer() == closure,
{
    MutFn::new(closure)
}

/// Holds of a producer that can never report exhaustion: every result
/// it may return carries a present item.
pub open spec fn never_exhausts<Item, F>(producer: F) -> bool where
    F: FnMut() -> Option<Item>,
{
    forall|r: Option<Item>| #[trigger] call_ensures(producer, (), r) ==> r is Some
}

/// Law: the adapter is transparent to infinite producers. A pull on an
/// adapter whose producer can never report exhaustion returns a present
/// item, and the adapter afterwards again holds such a producer; so any
/// number of pulls, each of which satisfies the contract of `next`,
/// returns a present item, and the sequence never spuriously terminates.
pub proof fn lemma_infinite_producer_pull<Item, F>(
    before: MutFn<Item, F>,
    after: MutFn<Item, F>,
    r: Option<Item>,
) where
    F: FnMut() -> Option<Item>,
    requires
        never_exhausts(before.producer()),
        call_ensures(before.producer(), (), r),
        after.producer() == before.producer(),
    ensures
        r is Some,
        never_exhausts(after.producer()),
{
}

/// Law: pulls pass the producer's results through verbatim. On an
/// adapter holding `producer`, the result of any pull that satisfies
/// the contract of `next` is a result `producer` itself can return,
/// and the adapter afterwards still holds `producer`; so the same
/// holds of every later pull, and the adapter never invents or alters
/// a value.
pub proof fn lemma_pull_passes_through<Item, F>(
    producer: F,
    before: MutFn<Item, F>,
    after: MutFn<Item, F>,
    r: Option<Item>,
) where
    F: FnMut() -> Option<Item>,
    requires
        before.producer() == producer,
        call_ensures(before.producer(), (), r),
        after.producer() == before.producer(),
    ensures
        call_ensures(producer, (), r),
        after.producer() == producer,
{
}

} // verus!
