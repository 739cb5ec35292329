//! The daemon launcher's decisions: where the supervisor may live, which
//! candidate to start, and what its one-line handshake means.
//!
//! Starting the supervisor process, reading its output and sleeping
//! between heartbeats is operating-system work done by the thin binary
//! around the library; everything it needs to decide is computed and
//! verified here.

use crate::bytes::{tokenize, tokens_of};
use crate::config::SonicPiToolCfg;
use crate::digits::{parse_i32_bytes, parse_i32_spec, parse_u16_bytes, parse_u16_spec};
use vstd::prelude::*;

verus! {

/// Why no session could be started.
#[derive(Clone, Copy, PartialEq, Eq, Structural, Debug)]
pub enum LauncherError {
    /// None of the candidate locations holds the supervisor executable.
    NotFound,
    /// The supervisor's handshake line does not have the expected shape.
    HandshakeUnparsable,
}

/// Seconds between two keep-alive heartbeats once a session runs.
pub const HEARTBEAT_INTERVAL_SECS: u64 = 5;

/// How many bytes of the supervisor's output are read for the handshake.
pub const HANDSHAKE_READ_LIMIT: usize = 1000;

/// The fixed, ordered candidate directories where the supervisor
/// executable may live: bundled application locations, a local relative
/// path, and system install locations.
pub open spec fn fixed_candidate_dirs() -> Seq<Seq<char>> {
    seq![
        "/Applications/Sonic Pi.app/Contents/Resources/app/server/ruby/bin"@,
        "/Applications/Sonic Pi.app/server/bin"@,
        "/Applications/Sonic Pi.app/server/ruby/bin"@,
        "./app/server/bin"@,
        "/opt/spider/app/server/bin"@,
        "/usr/lib/spider/server/bin"@,
        "/opt/spider/app/server/ruby/bin"@,
        "/usr/lib/spider/server/ruby/bin"@,
    ]
}

/// The home-relative candidate directory, put before the fixed ones when
/// a home directory is known.
pub open spec fn home_candidate_dir(home: Seq<char>) -> Seq<char> {
    home + "/Applications/Sonic Pi.app/server/bin"@
}

/// Build the ordered candidate list for the supervisor executable.  The
/// home-relative location comes first when the caller could resolve a
/// home directory, then the fixed locations in their fixed order.
pub fn candidate_paths(home: Option<&str>) -> (r: Vec<String>)
    ensures
        match home {
            Some(h) => r.deep_view() == seq![home_candidate_dir(h@)] + fixed_candidate_dirs(),
            None => r.deep_view() == fixed_candidate_dirs(),
        },
{
    let mut r: Vec<String> = Vec::new();
    if let Some(h) = home {
        let mut p = h.to_owned();
        p.append("/Applications/Sonic Pi.app/server/bin");
        r.push(p);
    }
    r.push("/Applications/Sonic Pi.app/Contents/Resources/app/server/ruby/bin".to_owned());
    r.push("/Applications/Sonic Pi.app/server/bin".to_owned());
    r.push("/Applications/Sonic Pi.app/server/ruby/bin".to_owned());
    r.push("./app/server/bin".to_owned());
    r.push("/opt/spider/app/server/bin".to_owned());
    r.push("/usr/lib/spider/server/bin".to_owned());
    r.push("/opt/spider/app/server/ruby/bin".to_owned());
    r.push("/usr/lib/spider/server/ruby/bin".to_owned());
    proof {
        match home {
            Some(h) => {
                assert(r.deep_view() =~~= seq![home_candidate_dir(h@)] + fixed_candidate_dirs());
            },
            None => {
                assert(r.deep_view() =~~= fixed_candidate_dirs());
            },
        }
    }
    r
}

/// Pick the first candidate that exists on disk.  `present[i]` says
/// whether `paths[i]` exists — the caller probes the filesystem and hands
/// the answers in.  `Err(LauncherError::NotFound)` exactly when no
/// candidate exists; no process has been started in that case.
pub fn select_first_existing(paths: &Vec<String>, present: &Vec<bool>) -> (r: Result<
    usize,
    LauncherError,
>)
    requires
        paths@.len() == present@.len(),
    ensures
        match r {
            Ok(i) => {
                &&& i < paths@.len()
                &&& present@[i as int]
                &&& forall|j: int| 0 <= j < i ==> !present@[j]
            },
            Err(e) => {
                &&& e == LauncherError::NotFound
                &&& forall|j: int| 0 <= j < present@.len() ==> !present@[j]
            },
        },
{
    let mut i: usize = 0;
    while i < present.len()
        invariant
            paths@.len() == present@.len(),
            i <= present@.len(),
            forall|j: int| 0 <= j < i ==> !present@[j],
        decreases present@.len() - i,
    {
        if present[i] {
            return Ok(i);
        }
        i = i + 1;
    }
    Err(LauncherError::NotFound)
}

/// The supervisor executable inside a candidate directory.
pub fn daemon_exe_path(dir: &str) -> (r: String)
    ensures
        r@ == dir@ + "/daemon.rb"@,
{
    let mut s = dir.to_owned();
    s.append("/daemon.rb");
    s
}

/// The fixed flag the supervisor is started with, disabling inbound audio
/// device inputs.
pub fn daemon_launch_flag() -> (r: String)
    ensures
        r@ == "--no-scsynth-inputs"@,
{
    "--no-scsynth-inputs".to_owned()
}

/// What the supervisor's handshake line means.  The line is whitespace-
/// delimited and positional: token 0 is the daemon (keep-alive) port,
/// token 1 the GUI (log) port, token 2 the server (control) port, and
/// token 7 the session token; at least eight tokens must be present and
/// the four significant ones must parse in range.
pub open spec fn handshake_spec(s: Seq<u8>) -> Option<SonicPiToolCfg> {
    let ts = tokens_of(s);
    if ts.len() >= 8 && parse_u16_spec(ts[0]) is Some && parse_u16_spec(ts[1]) is Some
        && parse_u16_spec(ts[2]) is Some && parse_i32_spec(ts[7]) is Some {
        Some(
            SonicPiToolCfg {
                token: parse_i32_spec(ts[7]).unwrap() as i32,
                sonic_pi_port: parse_u16_spec(ts[2]).unwrap() as u16,
                daemon_port: parse_u16_spec(ts[0]).unwrap() as u16,
                gui_port: parse_u16_spec(ts[1]).unwrap() as u16,
            },
        )
    } else {
        None
    }
}

/// Parse the handshake output of the supervisor into a session
/// descriptor.  Succeeds exactly when the line has the handshake shape;
/// too few tokens or a value out of range is
/// `Err(LauncherError::HandshakeUnparsable)`, a fatal startup error.
pub fn parse_handshake(output: &Vec<u8>) -> (r: Result<SonicPiToolCfg, LauncherError>)
    ensures
        match r {
            Ok(c) => handshake_spec(output@) == Some(c),
            Err(e) => e == LauncherError::HandshakeUnparsable && handshake_spec(output@) is None,
        },
{
    let ts = tokenize(output);
    let ghost tsv = tokens_of(output@);
    proof {
        assert(tsv.len() == ts@.len());
    }
    if ts.len() < 8 {
        return Err(LauncherError::HandshakeUnparsable);
    }
    proof {
        assert forall|k: int| 0 <= k < 8 implies ts@[k]@ == tsv[k] by {
            assert(ts.deep_view()[k] == tsv[k]);
        }
    }
    let daemon_port = match parse_u16_bytes(&ts[0]) {
        Some(p) => p,
        None => {
            return Err(LauncherError::HandshakeUnparsable);
        },
    };
    let gui_port = match parse_u16_bytes(&ts[1]) {
        Some(p) => p,
        None => {
            return Err(LauncherError::HandshakeUnparsable);
        },
    };
    let sonic_pi_port = match parse_u16_bytes(&ts[2]) {
        Some(p) => p,
        None => {
            return Err(LauncherError::HandshakeUnparsable);
        },
    };
    let token = match parse_i32_bytes(&ts[7]) {
        Some(t) => t,
        None => {
            return Err(LauncherError::HandshakeUnparsable);
        },
    };
    Ok(SonicPiToolCfg { token, sonic_pi_port, daemon_port, gui_port })
}

} // verus!
