//! Do something on drop.
//!
//! [`OnDrop`] owns a single-use callable and invokes it exactly once when the
//! wrapper is dropped, unless the callable is first taken back out with
//! [`OnDrop::into_inner`].

use vstd::prelude::*;

verus! {

/// Calls the wrapped closure when dropped.
///
/// The slot is `Some` for the whole life of the wrapper; it is emptied only
/// by the one terminating operation, extraction or the drop hook, and the
/// wrapper itself is gone immediately afterwards.
#[derive(Debug, Clone, PartialEq, Eq, PartialOrd, Ord, Hash)]
pub struct OnDrop<F: FnOnce()> {
    slot: Option<F>,
}

impl<F: FnOnce()> OnDrop<F> {
    /// A live wrapper holds a payload, and that payload may be invoked.
    pub closed spec fn wf(self) -> bool {
        self.slot is Some && call_requires(self.slot->0, ())
    }

    /// The callable the wrapper owns.
    pub closed spec fn payload(self) -> F {
        self.slot->0
    }

    /// Creates a new `OnDrop` from a closure.
    pub fn new(f: F) -> (r: Self)
        requires
            call_requires(f, ()),
        ensures
            r.wf(),
            r.payload() == f,
    {
        OnDrop { slot: Some(f) }
    }

    /// Unwraps the closure without calling it.
    ///
    /// The payload comes back exactly as it was handed to [`OnDrop::new`],
    /// still unconsumed; since an `FnOnce` value is used up by a call, the
    /// wrapper cannot also have invoked it. The emptied wrapper is dropped
    /// here, and the drop hook finds nothing left to run.
    pub fn into_inner(self) -> (f: F)
        requires
            self.wf(),
        ensures
            f == self.payload(),
    {
        let mut this = self;
        this.slot.take().unwrap()
    }
}

/// Empties the slot and invokes whatever it held.
///
/// This is the whole of the teardown logic: the payload is moved out before
/// it is called, so the one slot can never produce two invocations, and a
/// slot that was already emptied (by extraction) yields no call at all.
fn invoke_pending<F: FnOnce()>(slot: &mut Option<F>)
    requires
        *old(slot) is Some ==> call_requires((*old(slot))->0, ()),
    ensures
        *final(slot) is None,
        *old(slot) is Some ==> call_ensures((*old(slot))->0, (), ()),
{
    match slot.take() {
        Some(f) => f(),
        None => {},
    }
}

impl<F: FnOnce()> Drop for OnDrop<F> {
    /// The destruction hook: forwards to the verified [`invoke_pending`].
    ///
    /// The body is trusted because Verus gives every `Drop` impl the fixed
    /// signature `opens_invariants none` + `no_unwind` and treats a call
    /// through `FnOnce` as compatible with neither, so no drop body that
    /// invokes a generic callable can be verified in place. The hook adds
    /// nothing of its own: a panic raised by the payload passes through it
    /// unchanged and surfaces at the point of disposal.
    #[verifier::external_body]
    fn drop(&mut self)
        opens_invariants none
        no_unwind
    {
        invoke_pending(&mut self.slot);
    }
}

} // verus!
