//! The uniform lifecycle every worker-like entity moves through:
//! `Created -> Initialized -> Running -> Stopped -> Destroyed`, strictly in
//! that order. `Destroyed` is terminal; the contracts leave a call after it
//! out entirely, so lifecycle misuse is rejected before it can run.

use vstd::prelude::*;

verus! {

/// Where in its lifecycle a worker-like entity stands.
#[derive(Debug, PartialEq, Eq, Structural, Clone, Copy)]
pub enum Phase {
    Created,
    Initialized,
    Running,
    Stopped,
    Destroyed,
}

/// The capability set every hosted entity implements: four lifecycle
/// operations and three per-connection event hooks. `init` is idempotent
/// setup (calling it on an already initialized entity is allowed and keeps
/// it initialized); the other transitions are valid from exactly one phase.
pub trait Serve: Sized {
    /// The entity's current lifecycle phase.
    spec fn phase(&self) -> Phase;

    /// The entity's internal well-formedness; every operation keeps it.
    spec fn inv(&self) -> bool;

    fn init(&mut self)
        requires
            old(self).inv(),
            old(self).phase() == Phase::Created || old(self).phase() == Phase::Initialized,
        ensures
            final(self).inv(),
            final(self).phase() == Phase::Initialized,
    ;

    fn start(&mut self)
        requires
            old(self).inv(),
            old(self).phase() == Phase::Initialized,
        ensures
            final(self).inv(),
            final(self).phase() == Phase::Running,
    ;

    fn stop(&mut self)
        requires
            old(self).inv(),
            old(self).phase() == Phase::Running,
        ensures
            final(self).inv(),
            final(self).phase() == Phase::Stopped,
    ;

    fn destroy(&mut self)
        requires
            old(self).inv(),
            old(self).phase() == Phase::Stopped,
        ensures
            final(self).inv(),
            final(self).phase() == Phase::Destroyed,
    ;

    /// Hook invoked around per-connection reads; observes, never
    /// re-phases the entity.
    fn on_read(&mut self)
        requires
            old(self).inv(),
        ensures
            final(self).inv(),
            final(self).phase() == old(self).phase(),
    ;

    /// Hook invoked around per-connection writes.
    fn on_write(&mut self)
        requires
            old(self).inv(),
        ensures
            final(self).inv(),
            final(self).phase() == old(self).phase(),
    ;

    /// Hook invoked on per-connection I/O errors.
    fn on_error(&mut self)
        requires
            old(self).inv(),
        ensures
            final(self).inv(),
            final(self).phase() == old(self).phase(),
    ;
}

} // verus!
