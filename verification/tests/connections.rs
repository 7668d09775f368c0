use rsms::admin::greet;
use rsms::category::Category;
use rsms::context::{Analyzer, Context, Watchdog};
use rsms::lifecycle::Serve;
use rsms::profile::Profile;
use rsms::session::{Identity, NetAddr, Session, LOOPBACK_IP};
use rsms::worker::{
    default_response, BindError, ConnEvent, Contributor, HandlerAction, LogEvent,
};

fn running_worker(profile: Profile) -> Contributor {
    let mut w = Contributor::from(profile);
    w.init();
    w.start();
    let bound = w.on_bound(true);
    assert!(bound.is_ok());
    w
}

fn addr(ip: u128, port: u16) -> NetAddr {
    NetAddr { ip, port }
}

#[test]
fn category_matches_exact_names_only() {
    assert_eq!(Category::from("RTMP"), Category::Rtmp);
    assert_eq!(Category::from("HTTP"), Category::Http);
    assert_eq!(Category::from("RTSP"), Category::Rtsp);
    assert_eq!(Category::from("GB28181"), Category::Invalid);
    assert_eq!(Category::from("rtmp"), Category::Invalid);
    assert_eq!(Category::from(""), Category::Invalid);
}

#[test]
fn bind_addr_is_loopback_on_profile_port() {
    let w = Contributor::from(Profile::rtmp());
    let a = w.bind_addr();
    assert_eq!(a.ip, LOOPBACK_IP);
    assert_eq!(a.ip, 0x7F00_0001);
    assert_eq!(a.port, 1935);
}

#[test]
fn bind_failure_is_fatal_and_descriptive() {
    let mut w = Contributor::from(Profile::http());
    w.init();
    w.start();
    let r = w.on_bound(false);
    assert_eq!(r, Err(BindError { name: "HTTP", port: 8080 }));
    assert!(w.context.listener.is_none());
}

#[test]
fn successful_bind_reports_and_listens() {
    let mut w = Contributor::from(Profile::rtmp());
    w.init();
    w.start();
    let r = w.on_bound(true);
    assert_eq!(r, Ok(Some(LogEvent::Bound { name: "RTMP", port: 1935 })));
    assert_eq!(w.context.listener, Some(1935));

    // a profile that asks for no logging binds silently
    let mut q = Contributor::from(Profile::new("RTSP", 5545, false, true));
    q.init();
    q.start();
    assert_eq!(q.on_bound(true), Ok(None));
    assert_eq!(q.context.listener, Some(5545));
}

#[test]
fn accepted_connections_get_distinct_identities() {
    let mut w = running_worker(Profile::rtmp());
    let local = addr(LOOPBACK_IP, 1935);
    let a1 = w.on_accept(1, local, addr(9, 50001));
    let a2 = w.on_accept(2, local, addr(9, 50002));
    assert!(a1.spawn);
    assert!(a2.spawn);
    assert_eq!(a1.log, Some(LogEvent::Request { name: "RTMP", peer: addr(9, 50001) }));
    assert_eq!(w.context.sessions.len(), 2);
    let id1 = w.context.sessions[0].identity();
    let id2 = w.context.sessions[1].identity();
    assert_ne!(id1, id2);
}

#[test]
fn duplicate_identity_is_never_registered_twice() {
    let mut w = running_worker(Profile::rtmp());
    let local = addr(LOOPBACK_IP, 1935);
    let peer = addr(9, 50001);
    assert!(w.on_accept(1, local, peer).spawn);
    let again = w.on_accept(2, local, peer);
    assert!(!again.spawn, "an identity already live must not get a second session");
    assert_eq!(w.context.sessions.len(), 1);
}

#[test]
fn zero_byte_read_removes_session_and_terminates() {
    let mut w = running_worker(Profile::rtmp());
    let local = addr(LOOPBACK_IP, 1935);
    let peer = addr(9, 50001);
    w.on_accept(1, local, peer);
    assert_eq!(w.context.sessions.len(), 1);
    let act = w.on_conn_event(local, peer, ConnEvent::Recv { len: 0 });
    assert_eq!(act, HandlerAction::Terminate);
    assert_eq!(w.context.sessions.len(), 0);
}

#[test]
fn read_and_write_failures_remove_only_their_session() {
    let mut w = running_worker(Profile::rtsp());
    let local = addr(LOOPBACK_IP, 5544);
    w.on_accept(1, local, addr(9, 50001));
    w.on_accept(2, local, addr(9, 50002));
    w.on_accept(3, local, addr(9, 50003));

    let act = w.on_conn_event(local, addr(9, 50002), ConnEvent::ReadFailed);
    assert_eq!(act, HandlerAction::Terminate);
    assert_eq!(w.context.sessions.len(), 2);
    // acceptance order of the remaining sessions is kept
    assert_eq!(w.context.sessions[0].peer, addr(9, 50001));
    assert_eq!(w.context.sessions[1].peer, addr(9, 50003));

    let act = w.on_conn_event(local, addr(9, 50003), ConnEvent::WriteFailed);
    assert_eq!(act, HandlerAction::Terminate);
    assert_eq!(w.context.sessions.len(), 1);
    assert_eq!(w.context.sessions[0].peer, addr(9, 50001));
}

#[test]
fn failed_accept_keeps_the_loop_accepting() {
    let mut w = running_worker(Profile::http());
    let ev = w.on_accept_error();
    assert_eq!(ev, LogEvent::AcceptError { name: "HTTP" });
    assert_eq!(w.context.watchdog.counter, 1);
    assert_eq!(w.context.listener, Some(8080));
    // a subsequent connection is still accepted
    let a = w.on_accept(1, addr(LOOPBACK_IP, 8080), addr(9, 50001));
    assert!(a.spawn);
    assert_eq!(w.context.sessions.len(), 1);
}

#[test]
fn ping_gets_the_fixed_demonstration_response() {
    let mut w = running_worker(Profile::http());
    let local = addr(LOOPBACK_IP, 8080);
    let peer = addr(9, 50001);
    w.on_accept(1, local, peer);
    // the unplugged core answers any payload, "PING" included, with the
    // same fixed text: placeholder behavior, not protocol logic
    let act = w.on_conn_event(local, peer, ConnEvent::Recv { len: "PING".len() });
    assert_eq!(act, HandlerAction::Reply);
    assert_eq!(default_response(), "HTTP/1.1 200 OK\r\n\r\n\r\n<h1>Good</h1>");
    let act = w.on_conn_event(local, peer, ConnEvent::Recv { len: 1024 });
    assert_eq!(act, HandlerAction::Reply);
    assert_eq!(w.context.sessions.len(), 1);
}

#[test]
fn sessions_compare_by_identity_not_handle() {
    let local = addr(LOOPBACK_IP, 1935);
    let peer = addr(9, 50001);
    let s1 = Session::new(1, local, peer, 1935, Category::Rtmp);
    let s2 = Session::new(2, local, peer, 1935, Category::Rtmp);
    assert_eq!(s1, s2);
    let s3 = Session::new(1, local, addr(9, 50002), 1935, Category::Rtmp);
    assert_ne!(s1, s3);
    let s4 = Session::new(1, local, peer, 1935, Category::Http);
    assert_ne!(s1, s4);
}

#[test]
fn context_register_and_remove_keep_the_live_set_sound() {
    let mut c = Context::new();
    let local = addr(LOOPBACK_IP, 1935);
    let s1 = Session::new(1, local, addr(9, 50001), 1935, Category::Rtmp);
    let s2 = Session::new(2, local, addr(9, 50002), 1935, Category::Rtmp);
    assert!(c.register(s1));
    assert!(c.register(s2));
    assert!(!c.register(Session::new(3, local, addr(9, 50001), 1935, Category::Rtmp)));
    assert_eq!(c.sessions.len(), 2);

    let id1 = Identity { category: Category::Rtmp, local, peer: addr(9, 50001), port: 1935 };
    assert!(c.has_live(&id1));
    assert!(c.remove(&id1));
    assert!(!c.has_live(&id1));
    assert!(!c.remove(&id1));
    assert_eq!(c.sessions.len(), 1);
}

#[test]
fn fresh_context_and_gauges_start_clean() {
    let c = Context::new();
    assert_eq!(c.sessions.len(), 0);
    assert!(c.listener.is_none());
    assert_eq!(c.watchdog.name, "Watchdog");

    let a = Analyzer::new();
    assert_eq!(a.publishers, 0);
    assert_eq!(a.subscribers, 0);
    assert_eq!(a.api_admins, 0);
    assert_eq!(a.delay_ms, 0);

    let w = Watchdog::new(String::from("Watchdog"));
    assert_eq!(w.name, "Watchdog");
    assert_eq!(w.status, 0);
    assert_eq!(w.counter, 0);
    assert_eq!(w.threshold, 10);
}

#[test]
fn greet_builds_the_administrative_reply() {
    assert_eq!(greet("operator"), "Hello operator!");
    assert_eq!(greet(""), "Hello !");
}
