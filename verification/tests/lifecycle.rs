use rsms::commander::Commander;
use rsms::infra::{d, log, v, Journal};
use rsms::lifecycle::{Phase, Serve};
use rsms::profile::Profile;
use rsms::worker::Contributor;

#[test]
fn presets_have_expected_endpoints() {
    let rtmp = Profile::rtmp();
    assert_eq!(rtmp.name, "RTMP");
    assert_eq!(rtmp.port, 1935);
    assert!(rtmp.log);
    assert!(rtmp.enable);

    let http = Profile::http();
    assert_eq!(http.name, "HTTP");
    assert_eq!(http.port, 8080);

    let rtsp = Profile::rtsp();
    assert_eq!(rtsp.name, "RTSP");
    assert_eq!(rtsp.port, 5544);

    let gb = Profile::gb28181();
    assert_eq!(gb.name, "GB28181");
    assert_eq!(gb.port, 5060);

    let admin = Profile::api_admin();
    assert_eq!(admin.name, "HTTP");
    // the administrative endpoint deliberately sits on its own port
    assert_ne!(admin.port, http.port);
    assert_eq!(admin.port, 8081);
}

#[test]
fn profile_new_keeps_fields() {
    let p = Profile::new("RTSP", 10554, false, true);
    assert_eq!(p.name, "RTSP");
    assert_eq!(p.port, 10554);
    assert!(!p.log);
    assert!(p.enable);
}

#[test]
fn commander_init_registers_three_workers() {
    let mut c = Commander::new();
    assert_eq!(c.others.len(), 0);
    c.init();
    assert_eq!(c.others.len(), 3);
    assert_eq!(c.others[0].profile.name, "RTMP");
    assert_eq!(c.others[0].profile.port, 1935);
    assert_eq!(c.others[1].profile.name, "HTTP");
    assert_eq!(c.others[1].profile.port, 8080);
    assert_eq!(c.others[2].profile.name, "RTSP");
    assert_eq!(c.others[2].profile.port, 5544);
    assert_eq!(c.phase, Phase::Initialized);
    assert_eq!(c.this.this.phase, Phase::Initialized);
}

#[test]
fn commander_init_twice_is_idempotent() {
    let mut c = Commander::new();
    c.init();
    let ports: Vec<u16> = c.others.iter().map(|w| w.profile.port).collect();
    c.init();
    assert_eq!(c.others.len(), 3, "a second init must not double-register workers");
    let ports_again: Vec<u16> = c.others.iter().map(|w| w.profile.port).collect();
    assert_eq!(ports, ports_again);
    assert_eq!(c.phase, Phase::Initialized);
}

#[test]
fn lifecycle_runs_in_order_and_admin_keeps_serving() {
    let mut c = Commander::new();
    c.init();
    c.start();
    assert_eq!(c.phase, Phase::Running);
    for w in c.others.iter() {
        assert_eq!(w.phase, Phase::Running);
    }
    assert_eq!(c.this.this.phase, Phase::Running);

    c.stop();
    assert_eq!(c.phase, Phase::Stopped);
    for w in c.others.iter() {
        assert_eq!(w.phase, Phase::Stopped);
        assert!(w.context.listener.is_none());
    }
    // stop is propagated to the ordinary workers only
    assert_eq!(c.this.this.phase, Phase::Running);

    c.destroy();
    assert_eq!(c.phase, Phase::Destroyed);
    for w in c.others.iter() {
        assert_eq!(w.phase, Phase::Destroyed);
        assert_eq!(w.context.sessions.len(), 0);
        assert!(w.context.listener.is_none());
    }
    assert_eq!(c.this.this.phase, Phase::Running);
}

#[test]
fn worker_init_is_idempotent_and_ordered() {
    let mut w = Contributor::from(Profile::rtsp());
    assert_eq!(w.phase, Phase::Created);
    w.init();
    assert_eq!(w.phase, Phase::Initialized);
    w.init();
    assert_eq!(w.phase, Phase::Initialized);
    w.start();
    assert_eq!(w.phase, Phase::Running);
    w.stop();
    assert_eq!(w.phase, Phase::Stopped);
    w.destroy();
    assert_eq!(w.phase, Phase::Destroyed);
}

#[test]
fn port_conflict_found_between_http_and_admin_preset() {
    // an administrative profile put on the HTTP preset's port: the clash
    // must surface as one conflicting port, not be silently shadowed
    let mut c = Commander::from(Profile::new("HTTP", 8080, true, true));
    c.init();
    assert_eq!(c.port_conflict(), Some(8080));
}

#[test]
fn no_port_conflict_in_default_configuration() {
    let mut c = Commander::new();
    c.init();
    assert_eq!(c.port_conflict(), None);
}

#[test]
fn journal_records_lines_in_order() {
    let mut j = Journal::new();
    assert_eq!(j.entries.len(), 0);
    v(&mut j, "rsms initializing...");
    d(&mut j, "listener ready");
    log(&mut j, "accept failed");
    assert_eq!(j.entries, vec!["rsms initializing...", "listener ready", "accept failed"]);
}

#[test]
fn all_enabled_workers_listen_on_their_own_ports() {
    let mut c = Commander::new();
    c.init();
    assert_eq!(c.port_conflict(), None);
    c.start();
    assert!(c.this.this.on_bound(true).is_ok());
    for w in c.others.iter_mut() {
        assert!(w.on_bound(true).is_ok());
    }
    assert_eq!(c.this.this.context.listener, Some(c.this.this.profile.port));
    let mut seen: Vec<u16> = Vec::new();
    for w in c.others.iter() {
        let bound = w.context.listener.expect("an enabled worker must be listening");
        assert_eq!(bound, w.profile.port);
        assert!(!seen.contains(&bound), "no two workers may share a listener");
        seen.push(bound);
    }
}
