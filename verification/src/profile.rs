//! Immutable per-protocol endpoint configuration, with the built-in presets.

use vstd::prelude::*;

verus! {

/// Configuration of one protocol endpoint: symbolic name, bind port,
/// logging flag, enabled flag. Never mutated after construction; owned by
/// exactly one worker for that worker's whole life.
#[derive(Debug, Clone, Copy)]
pub struct Profile {
    pub name: &'static str,
    pub port: u16,
    pub log: bool,
    pub enable: bool,
}

impl Profile {
    pub fn new(name: &'static str, port: u16, log: bool, enable: bool) -> (p: Profile)
        ensures
            p.name@ == name@,
            p.port == port,
            p.log == log,
            p.enable == enable,
    {
        Profile { name, port, log, enable }
    }

    /// Preset for the streaming-ingest protocol endpoint.
    pub fn rtmp() -> (p: Profile)
        ensures
            p.name@ == "RTMP"@,
            p.port == 1935,
            p.log,
            p.enable,
    {
        Profile { name: "RTMP", port: 1935, log: true, enable: true }
    }

    /// Preset for the HTTP endpoint.
    pub fn http() -> (p: Profile)
        ensures
            p.name@ == "HTTP"@,
            p.port == 8080,
            p.log,
            p.enable,
    {
        Profile { name: "HTTP", port: 8080, log: true, enable: true }
    }

    /// Preset for the session-control protocol endpoint.
    pub fn rtsp() -> (p: Profile)
        ensures
            p.name@ == "RTSP"@,
            p.port == 5544,
            p.log,
            p.enable,
    {
        Profile { name: "RTSP", port: 5544, log: true, enable: true }
    }

    /// Preset for a GB28181 endpoint; kept for completeness, no worker is
    /// built from it by default.
    pub fn gb28181() -> (p: Profile)
        ensures
            p.name@ == "GB28181"@,
            p.port == 5060,
            p.log,
            p.enable,
    {
        Profile { name: "GB28181", port: 5060, log: true, enable: true }
    }

    /// Preset for the administrative HTTP endpoint. It gets a port of its
    /// own, deliberately distinct from the HTTP preset's, so that the two
    /// listeners never contend for one address.
    pub fn api_admin() -> (p: Profile)
        ensures
            p.name@ == "HTTP"@,
            p.port == 8081,
            p.log,
            p.enable,
    {
        Profile { name: "HTTP", port: 8081, log: true, enable: true }
    }
}

} // verus!
