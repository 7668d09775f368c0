//! Per-worker runtime state: the live session set, a watchdog, and a traffic
//! analyzer. A context is owned and mutated by exactly one worker.

use vstd::prelude::*;
use crate::session::{Identity, Session};

verus! {

/// Traffic counters kept per worker.
#[derive(Debug, PartialEq, Eq, Structural, Clone, Copy)]
pub struct Analyzer {
    pub publishers: u16,
    pub subscribers: u16,
    pub api_admins: u16,
    pub delay_ms: u16,
}

impl Analyzer {
    pub fn new() -> (a: Analyzer)
        ensures
            a.publishers == 0,
            a.subscribers == 0,
            a.api_admins == 0,
            a.delay_ms == 0,
    {
        Analyzer { publishers: 0, subscribers: 0, api_admins: 0, delay_ms: 0 }
    }
}

/// A per-worker watchdog: its counter only ever grows, and counts the
/// anomalies the worker has seen (failed accept calls).
#[derive(Debug)]
pub struct Watchdog {
    pub name: String,
    pub status: u8,
    pub counter: u64,
    pub threshold: u16,
}

impl Watchdog {
    pub fn new(name: String) -> (w: Watchdog)
        ensures
            w.name@ == name@,
            w.status == 0,
            w.counter == 0,
            w.threshold == 10,
    {
        Watchdog { name, status: 0, counter: 0, threshold: 10 }
    }
}

/// Runtime state of one worker. `listener` models the worker's listening
/// socket as the port it is bound to: `None` until a bind succeeds, and
/// `None` again once the worker stops accepting.
#[derive(Debug)]
pub struct Context {
    pub sessions: Vec<Session>,
    pub watchdog: Watchdog,
    pub analyzer: Analyzer,
    pub listener: Option<u16>,
}

impl Context {
    /// The live set: sessions in acceptance order.
    pub open spec fn live(&self) -> Seq<Session> {
        self.sessions@
    }

    /// No two simultaneously live sessions have equal identity.
    pub open spec fn wf(&self) -> bool {
        forall|i: int, j: int|
            0 <= i < j < self.sessions@.len() ==> self.sessions@[i].spec_identity()
                != self.sessions@[j].spec_identity()
    }

    /// Whether some live session has the given identity.
    pub open spec fn spec_has_live(&self, id: Identity) -> bool {
        exists|i: int| 0 <= i < self.sessions@.len() && self.sessions@[i].spec_identity() == id
    }

    pub fn new() -> (c: Context)
        ensures
            c.live() == Seq::<Session>::empty(),
            c.wf(),
            c.listener is None,
            c.watchdog.name@ == "Watchdog"@,
            c.watchdog.counter == 0,
            c.watchdog.status == 0,
            c.watchdog.threshold == 10,
            c.analyzer == (Analyzer { publishers: 0, subscribers: 0, api_admins: 0, delay_ms: 0 }),
    {
        let c = Context {
            sessions: Vec::new(),
            watchdog: Watchdog::new(String::from_str("Watchdog")),
            analyzer: Analyzer::new(),
            listener: None,
        };
        proof {
            assert(c.live() =~= Seq::<Session>::empty());
        }
        c
    }

    /// Whether a live session with this identity exists right now.
    pub fn has_live(&self, id: &Identity) -> (r: bool)
        ensures
            r == self.spec_has_live(*id),
    {
        let mut k: usize = 0;
        while k < self.sessions.len()
            invariant
                0 <= k <= self.sessions@.len(),
                forall|i: int| 0 <= i < k ==> self.sessions@[i].spec_identity() != *id,
            decreases self.sessions@.len() - k,
        {
            if self.sessions[k].identity() == *id {
                return true;
            }
            k += 1;
        }
        false
    }

    /// Registers a session in the live set. The session is appended exactly
    /// when no live session already carries the same identity, so the live
    /// set never holds two equal identities.
    pub fn register(&mut self, s: Session) -> (r: bool)
        requires
            old(self).wf(),
        ensures
            final(self).wf(),
            r == !old(self).spec_has_live(s.spec_identity()),
            r ==> final(self).live() == old(self).live().push(s),
            !r ==> final(self).live() == old(self).live(),
            final(self).watchdog == old(self).watchdog,
            final(self).analyzer == old(self).analyzer,
            final(self).listener == old(self).listener,
    {
        let id = s.identity();
        if self.has_live(&id) {
            false
        } else {
            self.sessions.push(s);
            true
        }
    }

    /// Removes the live session with this identity, if there is one,
    /// keeping the order of the remaining sessions. Afterwards no live
    /// session carries the identity.
    pub fn remove(&mut self, id: &Identity) -> (r: bool)
        requires
            old(self).wf(),
        ensures
            final(self).wf(),
            r == old(self).spec_has_live(*id),
            !final(self).spec_has_live(*id),
            r ==> exists|i: int|
                0 <= i < old(self).live().len() && old(self).live()[i].spec_identity() == *id
                    && final(self).live() == old(self).live().remove(i),
            !r ==> final(self).live() == old(self).live(),
            final(self).watchdog == old(self).watchdog,
            final(self).analyzer == old(self).analyzer,
            final(self).listener == old(self).listener,
    {
        let mut k: usize = 0;
        while k < self.sessions.len()
            invariant
                0 <= k <= self.sessions@.len(),
                old(self).wf(),
                self.sessions@ == old(self).sessions@,
                self.watchdog == old(self).watchdog,
                self.analyzer == old(self).analyzer,
                self.listener == old(self).listener,
                forall|i: int| 0 <= i < k ==> self.sessions@[i].spec_identity() != *id,
            decreases self.sessions@.len() - k,
        {
            if self.sessions[k].identity() == *id {
                self.sessions.remove(k);
                proof {
                    let pre = old(self).sessions@;
                    pre.remove_ensures(k as int);
                    assert(self.sessions@ == pre.remove(k as int));
                    assert forall|j: int|
                        0 <= j < self.sessions@.len() implies (#[trigger] self.sessions@[j]).spec_identity()
                        != *id by {
                        if j < k {
                            assert(pre.remove(k as int)[j] == pre[j]);
                        } else {
                            assert(pre.remove(k as int)[j] == pre[j + 1]);
                        }
                    }
                    assert forall|i: int, j: int|
                        0 <= i < j < self.sessions@.len() implies self.sessions@[i].spec_identity()
                        != self.sessions@[j].spec_identity() by {
                        if i < k {
                            assert(pre.remove(k as int)[i] == pre[i]);
                        } else {
                            assert(pre.remove(k as int)[i] == pre[i + 1]);
                        }
                        if j < k {
                            assert(pre.remove(k as int)[j] == pre[j]);
                        } else {
                            assert(pre.remove(k as int)[j] == pre[j + 1]);
                        }
                    }
                    assert(0 <= k < old(self).live().len() && old(self).live()[k as int].spec_identity()
                        == *id && self.live() == old(self).live().remove(k as int));
                }
                return true;
            }
            k += 1;
        }
        false
    }
}

/// Law: on one worker, no two simultaneously live sessions carry equal
/// connection identity.
pub proof fn lemma_live_identities_distinct(c: &Context, i: int, j: int)
    requires
        c.wf(),
        0 <= i < c.live().len(),
        0 <= j < c.live().len(),
        i != j,
    ensures
        c.live()[i].spec_identity() != c.live()[j].spec_identity(),
{
}

} // verus!
