//! A fixed-capacity table mapping small integer indices to zero-argument
//! handlers.
//!
//! The table owns `N` slots, each either empty or occupied by a registered
//! handler. Registration is first-writer-wins: a slot transitions from empty
//! to occupied only through a successful `register_handler`, and back to
//! empty only through a successful `unregister_handler`. Invocation runs the
//! occupying handler synchronously on the caller's own context and never
//! changes slot state. Out-of-range indices are rejected uniformly, with the
//! same failure result as an empty slot, and never mutate anything.

use vstd::prelude::*;

verus! {

/// A fixed-capacity table of `N` handler slots.
///
/// `H` is the handler type: an argument-less, result-less callable that the
/// caller keeps valid for as long as it might be invoked. The table stores
/// at most one handler per slot and never runs one except during `handle`.
pub struct HandlerTable<H, const N: usize> {
    handlers: Vec<Option<H>>,
}

impl<H: Fn() + Copy, const N: usize> HandlerTable<H, N> {
    /// The logical contents of the table: one entry per slot,
    /// `None` where the slot is empty.
    pub closed spec fn slots(self) -> Seq<Option<H>> {
        self.handlers@
    }

    /// Well-formed: exactly `N` slots, and every occupying handler may be
    /// called (its precondition holds), so `handle` can always run it.
    pub open spec fn wf(self) -> bool {
        &&& self.slots().len() == N
        &&& forall|i: int|
            0 <= i < N ==> ((#[trigger] self.slots()[i]) matches Some(h) ==> call_requires(
                h,
                (),
            ))
    }

    /// Slot `idx` exists and holds a handler.
    pub open spec fn slot_occupied(self, idx: usize) -> bool {
        idx < N && self.slots()[idx as int] is Some
    }

    /// Whether a registration at `idx` succeeds: the index is in range and
    /// the slot is empty.
    pub open spec fn can_register(self, idx: usize) -> bool {
        idx < N && self.slots()[idx as int] is None
    }

    /// What an unregistration at `idx` hands back: the occupying handler if
    /// the slot exists and is occupied, nothing otherwise.
    pub open spec fn unregistered(self, idx: usize) -> Option<H> {
        if idx < N {
            self.slots()[idx as int]
        } else {
            None
        }
    }

    /// Creates a new table with all `N` slots empty.
    pub fn new() -> (t: Self)
        ensures
            t.wf(),
            forall|i: int| 0 <= i < N ==> t.slots()[i] is None,
    {
        let mut handlers: Vec<Option<H>> = Vec::new();
        let mut k: usize = 0;
        while k < N
            invariant
                k <= N,
                handlers@.len() == k,
                forall|i: int| 0 <= i < k ==> handlers@[i] is None,
            decreases N - k,
        {
            handlers.push(None);
            k += 1;
        }
        HandlerTable { handlers }
    }

    /// Attempts to register `handler` in slot `idx`.
    ///
    /// Succeeds, returning `true`, exactly when `idx` is in range and the
    /// slot is empty; the slot then holds `handler`. Otherwise returns
    /// `false` and changes nothing: registration never overwrites an
    /// occupying handler (first writer wins), and an out-of-range index
    /// never mutates any slot.
    pub fn register_handler(&mut self, idx: usize, handler: H) -> (r: bool)
        requires
            old(self).wf(),
            call_requires(handler, ()),
        ensures
            final(self).wf(),
            r == old(self).can_register(idx),
            r ==> final(self).slots() == old(self).slots().update(idx as int, Some(handler)),
            !r ==> final(self).slots() == old(self).slots(),
    {
        if idx >= N {
            return false;
        }
        if self.handlers[idx].is_some() {
            false
        } else {
            self.handlers[idx] = Some(handler);
            true
        }
    }

    /// Unregisters and returns the handler in slot `idx`.
    ///
    /// If `idx` is in range and the slot is occupied, empties the slot and
    /// returns exactly the handler that was occupying it. If `idx` is out
    /// of range or the slot is empty, returns `None` and changes nothing.
    pub fn unregister_handler(&mut self, idx: usize) -> (r: Option<H>)
        requires
            old(self).wf(),
        ensures
            final(self).wf(),
            r == old(self).unregistered(idx),
            old(self).slot_occupied(idx) ==> final(self).slots() == old(self).slots().update(
                idx as int,
                None,
            ),
            !old(self).slot_occupied(idx) ==> final(self).slots() == old(self).slots(),
    {
        if idx >= N {
            return None;
        }
        match self.handlers[idx] {
            Some(h) => {
                self.handlers[idx] = None;
                Some(h)
            },
            None => None,
        }
    }

    /// Invokes the handler in slot `idx`.
    ///
    /// If `idx` is in range and the slot is occupied, runs the occupying
    /// handler synchronously and returns `true`; the handler's own
    /// postcondition then holds of the call. If `idx` is out of range or
    /// the slot is empty, returns `false` and runs nothing. Slot state is
    /// never changed, so repeated invocations re-run the handler each time.
    pub fn handle(&self, idx: usize) -> (r: bool)
        requires
            self.wf(),
        ensures
            r == self.slot_occupied(idx),
            self.slot_occupied(idx) ==> call_ensures(self.slots()[idx as int]->0, (), ()),
    {
        if idx >= N {
            return false;
        }
        match self.handlers[idx] {
            Some(h) => {
                h();
                true
            },
            None => false,
        }
    }

    /// On a freshly constructed table every slot is empty, so an invocation
    /// of any in-range index finds no handler: `handle` returns `false`.
    pub proof fn lemma_fresh_table_invoke_fails(t: Self, idx: usize)
        requires
            forall|i: int| 0 <= i < N ==> t.slots()[i] is None,
            idx < N,
        ensures
            !t.slot_occupied(idx),
    {
    }

    /// An out-of-range index is rejected by every operation: registration
    /// cannot succeed, unregistration hands back nothing, and invocation
    /// finds no handler. The operations' own contracts add that slot state
    /// is left unchanged in exactly these cases.
    pub proof fn lemma_out_of_range_rejected(t: Self, idx: usize)
        requires
            idx >= N,
        ensures
            !t.can_register(idx),
            t.unregistered(idx) is None,
            !t.slot_occupied(idx),
    {
    }

    /// First writer wins. From a state whose slot `idx` is empty, a
    /// registration succeeds, and from the resulting state any further
    /// registration on the same slot fails, whatever handler it offers,
    /// while the slot keeps exactly the first handler. Read along the
    /// linearization order of overlapping registrations, this says that of
    /// any number of attempts on one empty slot exactly the first succeeds
    /// and all later ones fail.
    pub proof fn lemma_register_first_writer_wins(t0: Self, t1: Self, idx: usize, h: H)
        requires
            t0.slots().len() == N,
            idx < N,
            t0.slots()[idx as int] is None,
            t1.slots() == t0.slots().update(idx as int, Some(h)),
        ensures
            t0.can_register(idx),
            !t1.can_register(idx),
            t1.slot_occupied(idx),
            t1.slots()[idx as int] == Some(h),
    {
    }

    /// After a successful registration of `h` at `idx`, an invocation finds
    /// the slot occupied by exactly `h`, so `handle` returns `true` and runs
    /// `h`. `handle` takes the table by shared reference and never changes
    /// slot state, so this holds again of every repeated invocation: the
    /// handler is re-run each time, never consumed.
    pub proof fn lemma_invoke_after_register(t: Self, idx: usize, h: H)
        requires
            t.slots().len() == N,
            idx < N,
            t.slots()[idx as int] == Some(h),
        ensures
            t.slot_occupied(idx),
            t.unregistered(idx) == Some(h),
    {
    }

    /// Unregistration retrieves exactly the handler that was occupying the
    /// slot, and from the resulting empty slot a following invocation finds
    /// nothing, so `handle` returns `false`.
    pub proof fn lemma_unregister_returns_registered(t0: Self, t1: Self, idx: usize, h: H)
        requires
            t0.slots().len() == N,
            idx < N,
            t0.slots()[idx as int] == Some(h),
            t1.slots() == t0.slots().update(idx as int, None),
        ensures
            t0.unregistered(idx) == Some(h),
            !t1.slot_occupied(idx),
    {
    }

    /// The handler leaves a slot exactly once. From the state after a
    /// successful unregistration of slot `idx`, any further unregistration
    /// of that slot hands back nothing. Read along the linearization order
    /// of overlapping unregistrations of one occupied slot, this says that
    /// exactly the first receives the handler and all later ones receive
    /// `None`.
    pub proof fn lemma_unregister_exclusive(t0: Self, t1: Self, idx: usize)
        requires
            t0.slots().len() == N,
            idx < N,
            t1.slots() == t0.slots().update(idx as int, None),
        ensures
            t1.unregistered(idx) is None,
            !t1.slot_occupied(idx),
            t1.can_register(idx),
    {
    }
}

impl<H: Fn() + Copy, const N: usize> Default for HandlerTable<H, N> {
    /// Creates a new table with all `N` slots empty, as `new` does.
    fn default() -> (t: Self)
        ensures
            t.wf(),
            forall|i: int| 0 <= i < N ==> t.slots()[i] is None,
    {
        Self::new()
    }
}

} // verus!
