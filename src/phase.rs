use vstd::prelude::*;

verus! {

/// Lifecycle of the render loop: no GPU resources until a surface is
/// available, then the resource set `S` for the rest of the run.
pub enum LoopPhase<S> {
    Uninitialized,
    Ready(S),
}

/// A call that the loop's current phase does not allow.
#[derive(Clone, Copy, Debug, PartialEq, Eq, Structural)]
pub enum PhaseError {
    /// The resources were asked for before any surface was available.
    NotReady,
    /// A surface arrived when the resources already exist.
    AlreadyReady,
}

impl<S> LoopPhase<S> {
    pub fn new() -> (r: LoopPhase<S>)
        ensures
            r is Uninitialized,
    {
        LoopPhase::Uninitialized
    }

    pub fn is_ready(&self) -> (r: bool)
        ensures
            r == (self is Ready),
    {
        match self {
            LoopPhase::Ready(_) => true,
            LoopPhase::Uninitialized => false,
        }
    }

    /// The single transition: takes the resources built for the new
    /// surface. Refused, with the phase unchanged, once the loop is ready.
    pub fn on_surface_available(&mut self, resources: S) -> (r: Result<(), PhaseError>)
        ensures
            *old(self) is Uninitialized ==> r is Ok && *final(self) == LoopPhase::Ready(resources),
            *old(self) is Ready ==> r == Err::<(), PhaseError>(PhaseError::AlreadyReady)
                && *final(self) == *old(self),
    {
        match self {
            LoopPhase::Ready(_) => Err(PhaseError::AlreadyReady),
            LoopPhase::Uninitialized => {
                *self = LoopPhase::Ready(resources);
                Ok(())
            },
        }
    }

    /// The resources, for a call that needs them; `NotReady` before the
    /// transition.
    pub fn resources(&self) -> (r: Result<&S, PhaseError>)
        ensures
            match *self {
                LoopPhase::Ready(s) => r == Ok::<&S, PhaseError>(&s),
                LoopPhase::Uninitialized => r == Err::<&S, PhaseError>(PhaseError::NotReady),
            },
    {
        match self {
            LoopPhase::Ready(s) => Ok(s),
            LoopPhase::Uninitialized => Err(PhaseError::NotReady),
        }
    }
    /// The resources, to be changed by a call that needs them; `NotReady`
    /// before the transition.
    pub fn resources_mut(&mut self) -> (r: Result<&mut S, PhaseError>)
        ensures
            *old(self) is Uninitialized ==> r == Err::<&mut S, PhaseError>(PhaseError::NotReady)
                && *final(self) == *old(self),
            *old(self) is Ready ==> r is Ok,
            match r {
                Ok(m) => *old(self) == LoopPhase::Ready(*m) && *final(self) == LoopPhase::Ready(
                    *final(m),
                ),
                Err(_) => true,
            },
    {
        match self {
            LoopPhase::Ready(s) => Ok(s),
            LoopPhase::Uninitialized => Err(PhaseError::NotReady),
        }
    }
}

} // verus!
