//! The administrative worker: an ordinary worker adapted to host an
//! external HTTP-serving collaborator. Here `init` only prepares the worker;
//! serving genuinely begins at `start`, so the lifecycle order
//! `init -> start` holds for this worker like for every other. The serving
//! loop itself runs outside the library; the route logic it needs is the
//! plain function below.

use vstd::prelude::*;
use crate::context::Analyzer;
use crate::lifecycle::{Phase, Serve};
use crate::profile::Profile;
use crate::worker::Contributor;

verus! {

/// The text of the administrative greeting route: `"Hello "`, the caller's
/// name, `"!"`.
pub fn greet(name: &str) -> (r: String)
    ensures
        r@ == "Hello "@ + name@ + "!"@,
{
    let mut r = String::from_str("Hello ");
    r.append(name);
    r.append("!");
    r
}

/// The worker bound to the administrative profile. The handle of the
/// external HTTP server stays with the host process; the library sees the
/// same state as for any other worker.
#[derive(Debug)]
pub struct AdminContributor {
    pub this: Contributor,
}

impl AdminContributor {
    pub fn from(profile: Profile) -> (w: AdminContributor)
        ensures
            w.this.profile == profile,
            w.phase() == Phase::Created,
            w.this.context.live().len() == 0,
            !w.this.accepting(),
            w.this.context.watchdog.name@ == "Watchdog"@,
            w.this.context.watchdog.status == 0,
            w.this.context.watchdog.counter == 0,
            w.this.context.watchdog.threshold == 10,
            w.this.context.analyzer == (Analyzer { publishers: 0, subscribers: 0, api_admins: 0, delay_ms: 0 }),
            w.inv(),
    {
        AdminContributor { this: Contributor::from(profile) }
    }
}

impl Serve for AdminContributor {
    open spec fn phase(&self) -> Phase {
        self.this.phase()
    }

    open spec fn inv(&self) -> bool {
        self.this.inv()
    }

    fn init(&mut self)
        ensures
            final(self).this.profile == old(self).this.profile,
            final(self).this.context == old(self).this.context,
            old(self).phase() == Phase::Initialized ==> *final(self) == *old(self),
    {
        self.this.init();
    }

    fn start(&mut self)
        ensures
            final(self).this.profile == old(self).this.profile,
            final(self).this.context == old(self).this.context,
    {
        self.this.start();
    }

    fn stop(&mut self)
        ensures
            final(self).this.profile == old(self).this.profile,
            final(self).this.context.live() == old(self).this.context.live(),
            !final(self).this.accepting(),
    {
        self.this.stop();
    }

    fn destroy(&mut self)
        ensures
            final(self).this.profile == old(self).this.profile,
            final(self).this.context.live().len() == 0,
    {
        self.this.destroy();
    }

    fn on_read(&mut self)
        ensures
            *final(self) == *old(self),
    {
    }

    fn on_write(&mut self)
        ensures
            *final(self) == *old(self),
    {
    }

    fn on_error(&mut self)
        ensures
            *final(self) == *old(self),
    {
    }
}

} // verus!
