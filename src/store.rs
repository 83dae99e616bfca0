use vstd::prelude::*;

verus! {

/// What became of the tracked sidecar when termination was asked for.
#[derive(Clone, Copy, Debug, PartialEq, Eq, Structural)]
pub enum Termination {
    /// The slot was empty: nothing was signalled.
    NothingTracked,
    /// The terminate signal was issued to the tracked process.
    Signalled,
    /// The terminate signal was rejected, or the process was already gone.
    Failed,
}

/// The single slot that holds the handle of the running sidecar, if any.
/// The host keeps it behind a lock shared by the launch path and the
/// window-close path.
pub struct LifecycleStore<H> {
    slot: Option<H>,
}

/// The slot after registering `handle`.
pub open spec fn spec_register<H>(slot: Option<H>, handle: H) -> Option<H> {
    Some(handle)
}

/// The slot after a termination request: always empty.
pub open spec fn spec_after_take<H>(slot: Option<H>) -> Option<H> {
    None
}

/// What a termination request reports, given the slot it found and whether
/// the terminate signal was accepted.
pub open spec fn spec_termination<H>(slot: Option<H>, accepted: bool) -> Termination {
    match slot {
        None => Termination::NothingTracked,
        Some(_) => if accepted {
            Termination::Signalled
        } else {
            Termination::Failed
        },
    }
}

impl<H> View for LifecycleStore<H> {
    type V = Option<H>;

    closed spec fn view(&self) -> Option<H> {
        self.slot
    }
}

impl<H> LifecycleStore<H> {
    /// An empty store: no sidecar is tracked before launch.
    pub fn new() -> (r: Self)
        ensures
            r@ == None::<H>,
    {
        LifecycleStore { slot: None }
    }

    /// Whether a sidecar handle is tracked.
    pub fn is_tracking(&self) -> (r: bool)
        ensures
            r == self@ is Some,
    {
        self.slot.is_some()
    }

    /// The tracked handle, if any.
    pub fn current(&self) -> (r: Option<&H>)
        ensures
            r == match self@ {
                Some(h) => Some(&h),
                None => None::<&H>,
            },
    {
        match &self.slot {
            Some(h) => Some(h),
            None => None,
        }
    }

    /// Tracks `handle`, replacing whatever the slot held.
    pub fn register(&mut self, handle: H)
        ensures
            final(self)@ == spec_register(old(self)@, handle),
    {
        self.slot = Some(handle);
    }

    /// Empties the slot and, if it held a handle, hands that handle to
    /// `terminate`, which issues the terminate signal and tells whether it was
    /// accepted. A rejected signal is reported, never retried. With an empty
    /// slot `terminate` is not called.
    pub fn take_and_terminate<F: FnOnce(H) -> bool>(&mut self, terminate: F) -> (r: Termination)
        requires
            forall|h: H| old(self)@ == Some(h) ==> terminate.requires((h,)),
        ensures
            final(self)@ == spec_after_take(old(self)@),
            r == spec_termination(old(self)@, r == Termination::Signalled),
            forall|h: H|
                old(self)@ == Some(h) ==> terminate.ensures((h,), r == Termination::Signalled),
    {
        match self.slot.take() {
            None => Termination::NothingTracked,
            Some(h) => {
                if terminate(h) {
                    Termination::Signalled
                } else {
                    Termination::Failed
                }
            },
        }
    }
}

/// Registering a handle makes the store track it; a termination request then
/// signals that handle and empties the store; a second request finds nothing
/// and signals nothing.
pub proof fn lemma_register_then_terminate_twice<H>(slot: Option<H>, handle: H, accepted: bool)
    ensures
        spec_register(slot, handle) == Some(handle),
        spec_termination(spec_register(slot, handle), accepted) != Termination::NothingTracked,
        spec_after_take(spec_register(slot, handle)) == None::<H>,
        spec_termination(spec_after_take(spec_register(slot, handle)), accepted)
            == Termination::NothingTracked,
        spec_after_take(spec_after_take(spec_register(slot, handle))) == None::<H>,
{
}

} // verus!
