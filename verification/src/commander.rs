//! The supervising coordinator: owns the administrative worker and the
//! ordinary protocol workers, and drives them all through the lifecycle
//! contract in a fixed order.

use vstd::prelude::*;
use crate::admin::AdminContributor;
use crate::lifecycle::{Phase, Serve};
use crate::profile::Profile;
use crate::worker::Contributor;

verus! {

/// The supervisor. `this` is the distinguished administrative worker;
/// `others` are the ordinary protocol workers, instantiated at `init` and
/// driven in insertion order.
pub struct Commander {
    pub this: AdminContributor,
    pub others: Vec<Contributor>,
    pub phase: Phase,
}

impl Commander {
    /// The worker behind endpoint `i`: the administrative worker first,
    /// then the ordinary workers in insertion order.
    pub open spec fn worker_at(&self, i: int) -> Contributor
        recommends
            0 <= i <= self.others@.len(),
    {
        if i == 0 {
            self.this.this
        } else {
            self.others@[i - 1]
        }
    }

    /// All configured endpoints, the administrative one first.
    pub open spec fn endpoints(&self) -> Seq<Profile> {
        Seq::new(1 + self.others@.len(), |i: int| self.worker_at(i).profile)
    }

    /// No two enabled endpoints claim the same port, so every enabled
    /// worker can own a listener of its own.
    pub open spec fn conflict_free(&self) -> bool {
        forall|i: int, j: int|
            0 <= i < j < self.endpoints().len() && (#[trigger] self.endpoints()[i]).enable && (
            #[trigger] self.endpoints()[j]).enable ==> self.endpoints()[i].port
                != self.endpoints()[j].port
    }

    pub fn from(profile: Profile) -> (c: Commander)
        ensures
            c.this.this.profile == profile,
            c.phase() == Phase::Created,
            c.others@.len() == 0,
            c.inv(),
    {
        Commander { this: AdminContributor::from(profile), others: Vec::new(), phase: Phase::Created }
    }

    pub fn new() -> (c: Commander)
        ensures
            c.this.this.profile.name@ == "HTTP"@,
            c.this.this.profile.port == 8081,
            c.this.this.profile.enable,
            c.this.this.profile.log,
            c.phase() == Phase::Created,
            c.others@.len() == 0,
            c.inv(),
    {
        Self::from(Profile::api_admin())
    }

    /// The configured endpoint `i`, counting the administrative one as 0.
    pub fn endpoint(&self, i: usize) -> (p: Profile)
        requires
            i < self.endpoints().len(),
        ensures
            p == self.endpoints()[i as int],
    {
        if i == 0 {
            self.this.this.profile
        } else {
            self.others[i - 1].profile
        }
    }

    /// Looks for a port that two enabled endpoints both claim. `None`
    /// exactly when the configuration is conflict-free; a conflicting bind
    /// must be surfaced as a fatal, descriptive error, never resolved by
    /// letting one listener shadow the other.
    pub fn port_conflict(&self) -> (r: Option<u16>)
        requires
            self.inv(),
        ensures
            r is Some <==> !self.conflict_free(),
            r matches Some(p) ==> exists|i: int, j: int|
                0 <= i < j < self.endpoints().len() && (#[trigger] self.endpoints()[i]).enable && (
                #[trigger] self.endpoints()[j]).enable && self.endpoints()[i].port == p
                    && self.endpoints()[j].port == p,
    {
        let n: usize = self.others.len() + 1;
        let mut i: usize = 0;
        while i < n
            invariant
                n == self.endpoints().len(),
                n == 1 + self.others@.len(),
                0 <= i <= n,
                forall|a: int, b: int|
                    0 <= a < b < n && a < i && (#[trigger] self.endpoints()[a]).enable && (
                    #[trigger] self.endpoints()[b]).enable ==> self.endpoints()[a].port
                        != self.endpoints()[b].port,
            decreases n - i,
        {
            let pi = self.endpoint(i);
            if pi.enable {
                let mut j: usize = i + 1;
                while j < n
                    invariant
                        n == self.endpoints().len(),
                        n == 1 + self.others@.len(),
                        0 <= i < n,
                        i < j <= n,
                        pi == self.endpoints()[i as int],
                        pi.enable,
                        forall|b: int|
                            i < b < j && (#[trigger] self.endpoints()[b]).enable ==> self.endpoints()[b].port
                                != pi.port,
                    decreases n - j,
                {
                    let pj = self.endpoint(j);
                    if pj.enable && pj.port == pi.port {
                        return Some(pi.port);
                    }
                    j += 1;
                }
            }
            i += 1;
        }
        None
    }
}

/// Law: while the supervisor is well-formed and no two enabled endpoints
/// share a port, a worker that holds a listener holds it on its own
/// configured port, and no two workers hold listeners on the same port —
/// each enabled worker's listener is its own.
pub proof fn lemma_listeners_on_configured_ports(c: &Commander, i: int, j: int)
    requires
        c.inv(),
        c.conflict_free(),
        0 <= i <= c.others@.len(),
        0 <= j <= c.others@.len(),
        i != j,
        c.worker_at(i).accepting(),
        c.worker_at(j).accepting(),
    ensures
        c.worker_at(i).context.listener == Some(c.worker_at(i).profile.port),
        c.worker_at(j).context.listener == Some(c.worker_at(j).profile.port),
        c.worker_at(i).profile.port != c.worker_at(j).profile.port,
{
    assert(c.worker_at(i).inv());
    assert(c.worker_at(j).inv());
    assert(c.endpoints()[i] == c.worker_at(i).profile);
    assert(c.endpoints()[j] == c.worker_at(j).profile);
    let a = if i < j {
        i
    } else {
        j
    };
    let b = if i < j {
        j
    } else {
        i
    };
    assert(c.endpoints()[a].enable && c.endpoints()[b].enable);
    assert(c.endpoints()[a].port != c.endpoints()[b].port);
}

impl Serve for Commander {
    open spec fn phase(&self) -> Phase {
        self.phase
    }

    /// Every owned worker is well-formed, and the workers' phases follow
    /// the supervisor's: ordinary workers are created at `init` and move in
    /// step, while `stop` and `destroy` are propagated to the ordinary
    /// workers only — the administrative worker deliberately keeps serving,
    /// mirroring the asymmetry of the lifecycle contract.
    open spec fn inv(&self) -> bool {
        &&& self.this.inv()
        &&& forall|i: int| 0 <= i < self.others@.len() ==> (#[trigger] self.others@[i]).inv()
        &&& match self.phase {
            Phase::Created => self.others@.len() == 0 && self.this.phase() == Phase::Created,
            Phase::Initialized => self.others@.len() == 3 && self.this.phase() == Phase::Initialized
                && forall|i: int|
                0 <= i < self.others@.len() ==> (#[trigger] self.others@[i]).phase()
                    == Phase::Initialized,
            Phase::Running => self.others@.len() == 3 && self.this.phase() == Phase::Running
                && forall|i: int|
                0 <= i < self.others@.len() ==> (#[trigger] self.others@[i]).phase()
                    == Phase::Running,
            Phase::Stopped => self.others@.len() == 3 && self.this.phase() == Phase::Running
                && forall|i: int|
                0 <= i < self.others@.len() ==> (#[trigger] self.others@[i]).phase()
                    == Phase::Stopped,
            Phase::Destroyed => self.others@.len() == 3 && self.this.phase() == Phase::Running
                && forall|i: int|
                0 <= i < self.others@.len() ==> (#[trigger] self.others@[i]).phase()
                    == Phase::Destroyed,
        }
    }

    /// Instantiates the ordinary workers from the presets — only on the
    /// first call: a second `init` registers nothing again and changes
    /// nothing — then propagates `init` to the administrative worker and to
    /// each ordinary worker in insertion order.
    fn init(&mut self)
        ensures
            final(self).others@.len() == 3,
            final(self).this.this.profile == old(self).this.this.profile,
            final(self).this.this.context == old(self).this.this.context,
            old(self).phase() == Phase::Created ==> {
                &&& final(self).others@[0].profile.name@ == "RTMP"@
                &&& final(self).others@[0].profile.port == 1935
                &&& final(self).others@[1].profile.name@ == "HTTP"@
                &&& final(self).others@[1].profile.port == 8080
                &&& final(self).others@[2].profile.name@ == "RTSP"@
                &&& final(self).others@[2].profile.port == 5544
                &&& forall|k: int|
                    0 <= k < 3 ==> (#[trigger] final(self).others@[k]).profile.enable && final(self).others@[k].profile.log && final(self).others@[k].context.live().len() == 0
                        && !final(self).others@[k].accepting()
            },
            old(self).phase() == Phase::Initialized ==> final(self).others@ == old(self).others@
                && final(self).this == old(self).this,
    {
        if self.phase == Phase::Created {
            self.others.push(Contributor::from(Profile::rtmp()));
            self.others.push(Contributor::from(Profile::http()));
            self.others.push(Contributor::from(Profile::rtsp()));
        }
        self.this.init();
        let ghost snap = self.others@;
        let ghost this_snap = self.this;
        let n: usize = self.others.len();
        let mut i: usize = 0;
        while i < n
            invariant
                n == self.others@.len(),
                n == snap.len(),
                0 <= i <= n,
                self.this == this_snap,
                self.phase == old(self).phase,
                forall|k: int| i <= k < n ==> self.others@[k] == snap[k],
                forall|k: int|
                    i <= k < n ==> (#[trigger] snap[k]).inv() && (snap[k].phase() == Phase::Created
                        || snap[k].phase() == Phase::Initialized),
                forall|k: int|
                    0 <= k < i ==> (#[trigger] self.others@[k]).inv() && self.others@[k].phase()
                        == Phase::Initialized && self.others@[k].profile == snap[k].profile
                        && self.others@[k].context == snap[k].context && (snap[k].phase()
                        == Phase::Initialized ==> self.others@[k] == snap[k]),
            decreases n - i,
        {
            self.others[i].init();
            i += 1;
        }
        self.phase = Phase::Initialized;
        proof {
            if old(self).phase() == Phase::Initialized {
                assert(self.others@ =~= old(self).others@);
            }
        }
    }

    /// Propagates `start` to the administrative worker first, then to each
    /// ordinary worker in insertion order.
    fn start(&mut self)
        ensures
            final(self).others@.len() == old(self).others@.len(),
            final(self).this.this.profile == old(self).this.this.profile,
            final(self).this.this.context == old(self).this.this.context,
            forall|k: int|
                0 <= k < old(self).others@.len() ==> (#[trigger] final(self).others@[k]).profile
                    == old(self).others@[k].profile && final(self).others@[k].context == old(self).others@[k].context,
    {
        self.this.start();
        let ghost snap = self.others@;
        let ghost this_snap = self.this;
        let n: usize = self.others.len();
        let mut i: usize = 0;
        while i < n
            invariant
                n == self.others@.len(),
                n == snap.len(),
                0 <= i <= n,
                self.this == this_snap,
                self.phase == old(self).phase,
                forall|k: int| i <= k < n ==> self.others@[k] == snap[k],
                forall|k: int|
                    i <= k < n ==> (#[trigger] snap[k]).inv() && snap[k].phase()
                        == Phase::Initialized,
                forall|k: int|
                    0 <= k < i ==> (#[trigger] self.others@[k]).inv() && self.others@[k].phase()
                        == Phase::Running && self.others@[k].profile == snap[k].profile
                        && self.others@[k].context == snap[k].context,
            decreases n - i,
        {
            self.others[i].start();
            i += 1;
        }
        self.phase = Phase::Running;
    }

    /// Requests cessation of new-connection acceptance from the ordinary
    /// workers. The administrative worker is deliberately left out of the
    /// propagation and keeps serving.
    fn stop(&mut self)
        ensures
            final(self).others@.len() == old(self).others@.len(),
            final(self).this == old(self).this,
            forall|k: int|
                0 <= k < old(self).others@.len() ==> (#[trigger] final(self).others@[k]).profile
                    == old(self).others@[k].profile && !final(self).others@[k].accepting() && final(self).others@[k].context.live() == old(self).others@[k].context.live(),
    {
        let ghost snap = self.others@;
        let n: usize = self.others.len();
        let mut i: usize = 0;
        while i < n
            invariant
                n == self.others@.len(),
                n == snap.len(),
                0 <= i <= n,
                self.this == old(self).this,
                self.phase == old(self).phase,
                forall|k: int| i <= k < n ==> self.others@[k] == snap[k],
                forall|k: int|
                    i <= k < n ==> (#[trigger] snap[k]).inv() && snap[k].phase() == Phase::Running,
                forall|k: int|
                    0 <= k < i ==> (#[trigger] self.others@[k]).inv() && self.others@[k].phase()
                        == Phase::Stopped && self.others@[k].profile == snap[k].profile
                        && !self.others@[k].accepting() && self.others@[k].context.live()
                        == snap[k].context.live(),
            decreases n - i,
        {
            self.others[i].stop();
            i += 1;
        }
        self.phase = Phase::Stopped;
    }

    /// Releases the ordinary workers' resources: after `destroy` no
    /// ordinary worker holds a listener or a live session.
    fn destroy(&mut self)
        ensures
            final(self).others@.len() == old(self).others@.len(),
            final(self).this == old(self).this,
            forall|k: int|
                0 <= k < old(self).others@.len() ==> (#[trigger] final(self).others@[k]).profile
                    == old(self).others@[k].profile && !final(self).others@[k].accepting() && final(self).others@[k].context.live().len() == 0,
    {
        let ghost snap = self.others@;
        let n: usize = self.others.len();
        let mut i: usize = 0;
        while i < n
            invariant
                n == self.others@.len(),
                n == snap.len(),
                0 <= i <= n,
                self.this == old(self).this,
                self.phase == old(self).phase,
                forall|k: int| i <= k < n ==> self.others@[k] == snap[k],
                forall|k: int|
                    i <= k < n ==> (#[trigger] snap[k]).inv() && snap[k].phase() == Phase::Stopped,
                forall|k: int|
                    0 <= k < i ==> (#[trigger] self.others@[k]).inv() && self.others@[k].phase()
                        == Phase::Destroyed && self.others@[k].profile == snap[k].profile
                        && !self.others@[k].accepting() && self.others@[k].context.live().len()
                        == 0,
            decreases n - i,
        {
            self.others[i].destroy();
            i += 1;
        }
        self.phase = Phase::Destroyed;
    }

    fn on_read(&mut self)
        ensures
            *final(self) == *old(self),
    {
    }

    fn on_write(&mut self)
        ensures
            *final(self) == *old(self),
    {
    }

    fn on_error(&mut self)
        ensures
            *final(self) == *old(self),
    {
    }
}

} // verus!
