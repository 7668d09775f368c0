//! The per-protocol connection acceptor. It owns one `Profile` and one
//! `Context`, implements the lifecycle contract, and decides every step of
//! the bind/accept/handle cycle. The blocking socket operations themselves
//! (bind, accept, read, write) run outside the library; their outcomes come
//! back in as events, and each event handler here says exactly what the
//! worker's state becomes and what action the caller must take next.

use vstd::prelude::*;
use crate::category::{category_of, Category};
use crate::context::{Analyzer, Context};
use crate::lifecycle::{Phase, Serve};
use crate::profile::Profile;
use crate::session::{Identity, NetAddr, Session};

verus! {

/// A line the worker asks its host to record on the operational log.
#[derive(Debug, PartialEq, Eq, Clone, Copy)]
pub enum LogEvent {
    /// The listener was bound: protocol name and bound port.
    Bound { name: &'static str, port: u16 },
    /// A connection arrived: protocol name and peer address.
    Request { name: &'static str, peer: NetAddr },
    /// One accept call failed; the loop goes on.
    AcceptError { name: &'static str },
}

/// A listener could not be created: fatal for the worker. Carries the
/// protocol name and the attempted port, so the report to the operator can
/// name both.
#[derive(Debug, PartialEq, Eq, Clone, Copy)]
pub struct BindError {
    pub name: &'static str,
    pub port: u16,
}

/// What the accept loop must do after one accepted connection.
#[derive(Debug, Clone, Copy)]
pub struct AcceptAction {
    /// Hand the transport to an independently scheduled handler task.
    pub spawn: bool,
    /// A line to record, when the profile asks for logging.
    pub log: Option<LogEvent>,
}

/// The outcome of one per-connection I/O step, reported by the handler task.
/// A `Recv` of zero bytes means the peer closed the connection.
#[derive(Debug, PartialEq, Eq, Structural, Clone, Copy)]
pub enum ConnEvent {
    Recv { len: usize },
    ReadFailed,
    WriteFailed,
}

/// What the per-connection handler must do after reporting an event.
#[derive(Debug, PartialEq, Eq, Structural, Clone, Copy)]
pub enum HandlerAction {
    /// Write the demonstration response back and keep reading.
    Reply,
    /// Close: the session has left the live set, the task ends.
    Terminate,
}

/// The session a worker with profile `p` records for a connection accepted
/// with the given transport handle and addresses.
pub open spec fn accepted_session(p: Profile, handle: u64, local: NetAddr, peer: NetAddr) -> Session {
    Session {
        handle,
        local,
        peer,
        category: category_of(p.name@),
        port: p.port,
    }
}

/// The identity a worker with profile `p` gives a connection between the
/// given addresses.
pub open spec fn conn_identity(p: Profile, local: NetAddr, peer: NetAddr) -> Identity {
    Identity { category: category_of(p.name@), local, peer, port: p.port }
}

/// The fixed demonstration response, written back regardless of what the
/// peer sent. Placeholder behavior of the unplugged core, not protocol
/// logic.
pub open spec fn default_response_text() -> Seq<char> {
    "HTTP/1.1 200 OK\r\n\r\n\r\n<h1>Good</h1>"@
}

pub fn default_response() -> (r: &'static str)
    ensures
        r@ == default_response_text(),
{
    "HTTP/1.1 200 OK\r\n\r\n\r\n<h1>Good</h1>"
}

/// An ordinary protocol worker.
#[derive(Debug)]
pub struct Contributor {
    pub profile: Profile,
    pub context: Context,
    pub phase: Phase,
}

impl Contributor {
    /// Whether the worker holds a listening socket right now.
    pub open spec fn accepting(&self) -> bool {
        self.context.listener is Some
    }

    pub fn from(profile: Profile) -> (w: Contributor)
        ensures
            w.profile == profile,
            w.phase() == Phase::Created,
            w.context.live() == Seq::<Session>::empty(),
            !w.accepting(),
            w.context.watchdog.name@ == "Watchdog"@,
            w.context.watchdog.status == 0,
            w.context.watchdog.counter == 0,
            w.context.watchdog.threshold == 10,
            w.context.analyzer == (Analyzer { publishers: 0, subscribers: 0, api_admins: 0, delay_ms: 0 }),
            w.inv(),
    {
        Contributor { profile, context: Context::new(), phase: Phase::Created }
    }

    /// The address this worker's listener is to be bound to: loopback on
    /// the profile's port.
    pub fn bind_addr(&self) -> (a: NetAddr)
        ensures
            a.ip == crate::session::LOOPBACK_IP,
            a.port == self.profile.port,
    {
        NetAddr { ip: crate::session::LOOPBACK_IP, port: self.profile.port }
    }

    /// Takes the outcome of the bind attempt. Success makes the worker
    /// accept connections on its configured port and, when the profile asks
    /// for logging, yields the line to record. Failure is fatal for the
    /// worker: it changes nothing and surfaces a descriptive error to the
    /// owner.
    pub fn on_bound(&mut self, ok: bool) -> (r: Result<Option<LogEvent>, BindError>)
        requires
            old(self).inv(),
            old(self).phase() == Phase::Running,
            old(self).profile.enable,
            !old(self).accepting(),
        ensures
            final(self).inv(),
            final(self).profile == old(self).profile,
            final(self).phase() == Phase::Running,
            final(self).context.live() == old(self).context.live(),
            final(self).context.watchdog == old(self).context.watchdog,
            final(self).context.analyzer == old(self).context.analyzer,
            ok ==> final(self).context.listener == Some(old(self).profile.port),
            ok ==> (r matches Ok(ev) && (ev is Some <==> old(self).profile.log) && (ev matches Some(e) ==> (e matches LogEvent::Bound { name, port } && name@ == old(self).profile.name@
                && port == old(self).profile.port))),
            !ok ==> *final(self) == *old(self),
            !ok ==> (r matches Err(e) && e.name@ == old(self).profile.name@ && e.port == old(self).profile.port),
    {
        if ok {
            self.context.listener = Some(self.profile.port);
            if self.profile.log {
                Ok(Some(LogEvent::Bound { name: self.profile.name, port: self.profile.port }))
            } else {
                Ok(None)
            }
        } else {
            Err(BindError { name: self.profile.name, port: self.profile.port })
        }
    }

    /// Takes one accepted connection. The session is registered in the live
    /// set and handed to an independent handler task, unless a live session
    /// already carries the same identity (then nothing is registered and no
    /// task is spawned, so the live set never holds two equal identities).
    pub fn on_accept(&mut self, handle: u64, local: NetAddr, peer: NetAddr) -> (a: AcceptAction)
        requires
            old(self).inv(),
            old(self).accepting(),
        ensures
            final(self).inv(),
            final(self).profile == old(self).profile,
            final(self).phase() == old(self).phase(),
            final(self).context.listener == old(self).context.listener,
            final(self).context.watchdog == old(self).context.watchdog,
            a.spawn == !old(self).context.spec_has_live(
                accepted_session(old(self).profile, handle, local, peer).spec_identity(),
            ),
            a.spawn ==> final(self).context.live() == old(self).context.live().push(
                accepted_session(old(self).profile, handle, local, peer),
            ),
            !a.spawn ==> final(self).context.live() == old(self).context.live(),
            a.log is Some <==> old(self).profile.log,
            a.log matches Some(e) ==> (e matches LogEvent::Request { name, peer: pe } && name@ == old(self).profile.name@ && pe == peer),
    {
        let category = Category::from(self.profile.name);
        let s = Session::new(handle, local, peer, self.profile.port, category);
        let spawn = self.context.register(s);
        let log = if self.profile.log {
            Some(LogEvent::Request { name: self.profile.name, peer })
        } else {
            None
        };
        AcceptAction { spawn, log }
    }

    /// Takes one failed accept call. The failure is counted and reported,
    /// and nothing else changes: the listener stays bound and the loop goes
    /// on accepting, so one failed accept never takes the listener down.
    pub fn on_accept_error(&mut self) -> (ev: LogEvent)
        requires
            old(self).inv(),
        ensures
            final(self).inv(),
            final(self).profile == old(self).profile,
            final(self).phase() == old(self).phase(),
            final(self).accepting() == old(self).accepting(),
            final(self).context.listener == old(self).context.listener,
            final(self).context.live() == old(self).context.live(),
            final(self).context.watchdog.counter >= old(self).context.watchdog.counter,
            old(self).context.watchdog.counter < u64::MAX ==> final(self).context.watchdog.counter
                == old(self).context.watchdog.counter + 1,
            ev matches LogEvent::AcceptError { name } && name@ == old(self).profile.name@,
    {
        if self.context.watchdog.counter < u64::MAX {
            self.context.watchdog.counter = self.context.watchdog.counter + 1;
        }
        LogEvent::AcceptError { name: self.profile.name }
    }

    /// Takes the outcome of one per-connection I/O step. Data keeps the
    /// session and answers with the fixed demonstration response; a
    /// zero-byte read (peer closed) or a failed read or write terminates
    /// the handler and removes the session from the live set.
    pub fn on_conn_event(&mut self, local: NetAddr, peer: NetAddr, ev: ConnEvent) -> (a:
        HandlerAction)
        requires
            old(self).inv(),
        ensures
            final(self).inv(),
            final(self).profile == old(self).profile,
            final(self).phase() == old(self).phase(),
            final(self).context.listener == old(self).context.listener,
            final(self).context.watchdog == old(self).context.watchdog,
            (ev matches ConnEvent::Recv { len } && len > 0) ==> a == HandlerAction::Reply && *final(self) == *old(self),
            (ev == (ConnEvent::Recv { len: 0usize }) || ev == ConnEvent::ReadFailed || ev
                == ConnEvent::WriteFailed) ==> a == HandlerAction::Terminate && !final(self).context.spec_has_live(conn_identity(old(self).profile, local, peer)),
            a == HandlerAction::Terminate ==> (old(self).context.spec_has_live(
                conn_identity(old(self).profile, local, peer),
            ) ==> exists|i: int|
                0 <= i < old(self).context.live().len() && old(self).context.live()[i].spec_identity()
                    == conn_identity(old(self).profile, local, peer) && final(self).context.live()
                    == old(self).context.live().remove(i)) && (!old(self).context.spec_has_live(
                conn_identity(old(self).profile, local, peer),
            ) ==> final(self).context.live() == old(self).context.live()),
    {
        let terminate = match ev {
            ConnEvent::Recv { len } => len == 0,
            ConnEvent::ReadFailed => true,
            ConnEvent::WriteFailed => true,
        };
        if terminate {
            let category = Category::from(self.profile.name);
            let id = Identity { category, local, peer, port: self.profile.port };
            self.context.remove(&id);
            HandlerAction::Terminate
        } else {
            HandlerAction::Reply
        }
    }
}

impl Serve for Contributor {
    open spec fn phase(&self) -> Phase {
        self.phase
    }

    /// The live set holds no two equal identities, and a bound listener
    /// exists only while the worker runs, on the configured port.
    open spec fn inv(&self) -> bool {
        &&& self.context.wf()
        &&& self.context.listener is Some ==> (self.context.listener == Some(self.profile.port)
            && self.phase == Phase::Running && self.profile.enable)
    }

    fn init(&mut self)
        ensures
            final(self).profile == old(self).profile,
            final(self).context == old(self).context,
            old(self).phase() == Phase::Initialized ==> *final(self) == *old(self),
    {
        if self.phase == Phase::Created {
            self.phase = Phase::Initialized;
        }
    }

    fn start(&mut self)
        ensures
            final(self).profile == old(self).profile,
            final(self).context == old(self).context,
    {
        self.phase = Phase::Running;
    }

    fn stop(&mut self)
        ensures
            final(self).profile == old(self).profile,
            final(self).context.live() == old(self).context.live(),
            final(self).context.watchdog == old(self).context.watchdog,
            final(self).context.analyzer == old(self).context.analyzer,
            !final(self).accepting(),
    {
        self.context.listener = None;
        self.phase = Phase::Stopped;
    }

    fn destroy(&mut self)
        ensures
            final(self).profile == old(self).profile,
            final(self).context.live() == Seq::<Session>::empty(),
            final(self).context.watchdog == old(self).context.watchdog,
            final(self).context.analyzer == old(self).context.analyzer,
            !final(self).accepting(),
    {
        self.context.sessions = Vec::new();
        self.phase = Phase::Destroyed;
        proof {
            assert(self.context.live() =~= Seq::<Session>::empty());
        }
    }

    fn on_read(&mut self)
        ensures
            *final(self) == *old(self),
    {
    }

    fn on_write(&mut self)
        ensures
            *final(self) == *old(self),
    {
    }

    fn on_error(&mut self)
        ensures
            *final(self) == *old(self),
    {
    }
}

} // verus!
