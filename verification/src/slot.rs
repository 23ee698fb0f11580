//! A single-occupancy handle slot.
//!
//! The application keeps two process-wide slots: one holding the running
//! scheduler instance and one holding the live sidecar child handle. A slot
//! holds at most one value; it is filled once on a successful start and
//! emptied exactly once on shutdown. Taking from an empty slot is harmless
//! and yields nothing, which is what makes the teardown path idempotent.

use vstd::prelude::*;

verus! {

pub struct HandleSlot<T> {
    pub inner: Option<T>,
}

impl<T> HandleSlot<T> {
    /// A slot starts out unoccupied.
    pub fn empty() -> (s: Self)
        ensures
            s.inner is None,
    {
        HandleSlot { inner: None }
    }

    /// Fill the slot. The slot accepts the value only when unoccupied, so at
    /// most one live handle exists per run; a second install is refused and
    /// leaves the slot as it was.
    pub fn install(&mut self, value: T) -> (installed: bool)
        ensures
            old(self).inner is None ==> installed && final(self).inner == Some(value),
            old(self).inner is Some ==> !installed && *final(self) == *old(self),
    {
        match &self.inner {
            None => {
                self.inner = Some(value);
                true
            },
            Some(_) => false,
        }
    }

    /// Empty the slot, handing out whatever it held. Taking from an already
    /// empty slot yields nothing and changes nothing.
    pub fn take(&mut self) -> (taken: Option<T>)
        ensures
            taken == old(self).inner,
            final(self).inner is None,
    {
        let mut taken: Option<T> = None;
        core::mem::swap(&mut taken, &mut self.inner);
        taken
    }

    /// Whether the slot currently holds a value.
    pub fn is_occupied(&self) -> (r: bool)
        ensures
            r == (self.inner is Some),
    {
        self.inner.is_some()
    }
}

/// The `take` transition on a slot's contents: the contents after the call,
/// paired with the value handed out.
pub open spec fn slot_take_model<T>(contents: Option<T>) -> (Option<T>, Option<T>) {
    (None, contents)
}

/// Law: emptying a slot is idempotent. After one `take` the slot is empty,
/// and a second `take` hands out nothing and leaves the slot empty. The
/// teardown path may therefore run over a slot that was never filled, or was
/// emptied before, without effect.
pub proof fn lemma_take_is_idempotent<T>(contents: Option<T>)
    ensures
        slot_take_model::<T>(slot_take_model(contents).0).1 is None,
        slot_take_model::<T>(slot_take_model(contents).0).0 is None,
{
}

} // verus!
