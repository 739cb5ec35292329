//! The control link: the outbound messages of the control protocol.
//!
//! Every command the tool sends is one datagram holding a structured
//! message: a slash-delimited address, the session token, and at most one
//! further string argument.  This module builds the six messages of the
//! protocol from a session descriptor, each with an exact contract on its
//! address, arguments and target port, and encodes a message to wire
//! bytes through the OSC encoder.  Binding a socket and sending the bytes
//! is network work left to the caller; a send is fire-and-forget and is
//! never retried.

use crate::config::SonicPiToolCfg;
use vstd::prelude::*;

verus! {

/// Why an outbound datagram could not be handed to the network.
#[derive(Clone, PartialEq, Eq, Debug)]
pub enum TransportError {
    /// The socket send failed; the command is abandoned, nothing is
    /// retried.
    SendFailed(String),
}

/// One outbound control message: the address path, the session token sent
/// as the first argument, an optional string argument after it, and the
/// UDP port it must be sent to.
pub struct ControlMsg {
    pub addr: String,
    pub token: i32,
    pub text: Option<String>,
    pub port: u16,
}

/// The spec-level text argument of a message.
pub open spec fn text_view(t: Option<String>) -> Option<Seq<char>> {
    match t {
        Some(s) => Some(s@),
        None => None,
    }
}

/// Build the run-code message: `(token, source_text)` to the control
/// port.
pub fn run_code(cfg: &SonicPiToolCfg, source: String) -> (m: ControlMsg)
    ensures
        m.addr@ == "/run-code"@,
        m.token == cfg.token,
        text_view(m.text) == Some(source@),
        m.port == cfg.sonic_pi_port,
{
    ControlMsg {
        addr: "/run-code".to_owned(),
        token: cfg.token,
        text: Some(source),
        port: cfg.sonic_pi_port,
    }
}

/// Take some code and build the message that sends it to the server.
pub fn eval(cfg: &SonicPiToolCfg, code: String) -> (m: ControlMsg)
    ensures
        m.addr@ == "/run-code"@,
        m.token == cfg.token,
        text_view(m.text) == Some(code@),
        m.port == cfg.sonic_pi_port,
{
    run_code(cfg, code)
}

/// Build the stop-all-jobs message: `(token)` to the control port.
pub fn stop_all_jobs(cfg: &SonicPiToolCfg) -> (m: ControlMsg)
    ensures
        m.addr@ == "/stop-all-jobs"@,
        m.token == cfg.token,
        m.text is None,
        m.port == cfg.sonic_pi_port,
{
    ControlMsg {
        addr: "/stop-all-jobs".to_owned(),
        token: cfg.token,
        text: None,
        port: cfg.sonic_pi_port,
    }
}

/// Build the message that instructs the server to stop playing.
pub fn stop(cfg: &SonicPiToolCfg) -> (m: ControlMsg)
    ensures
        m.addr@ == "/stop-all-jobs"@,
        m.token == cfg.token,
        m.text is None,
        m.port == cfg.sonic_pi_port,
{
    stop_all_jobs(cfg)
}

/// Build the start-recording message: `(token)` to the control port.
pub fn start_recording(cfg: &SonicPiToolCfg) -> (m: ControlMsg)
    ensures
        m.addr@ == "/start-recording"@,
        m.token == cfg.token,
        m.text is None,
        m.port == cfg.sonic_pi_port,
{
    ControlMsg {
        addr: "/start-recording".to_owned(),
        token: cfg.token,
        text: None,
        port: cfg.sonic_pi_port,
    }
}

/// Build the two messages that stop a recording and save it to `path`:
/// exactly a stop message `(token)` first and a save message
/// `(token, path)` second, both to the control port.  The two datagrams
/// are independent and unacknowledged — if either is dropped the command
/// silently partially fails, a documented limitation of the protocol.
pub fn stop_and_save_recording(cfg: &SonicPiToolCfg, path: String) -> (r: (ControlMsg, ControlMsg))
    ensures
        r.0.addr@ == "/stop-recording"@,
        r.0.token == cfg.token,
        r.0.text is None,
        r.0.port == cfg.sonic_pi_port,
        r.1.addr@ == "/save-recording"@,
        r.1.token == cfg.token,
        text_view(r.1.text) == Some(path@),
        r.1.port == cfg.sonic_pi_port,
{
    let stop_msg = ControlMsg {
        addr: "/stop-recording".to_owned(),
        token: cfg.token,
        text: None,
        port: cfg.sonic_pi_port,
    };
    let save_msg = ControlMsg {
        addr: "/save-recording".to_owned(),
        token: cfg.token,
        text: Some(path),
        port: cfg.sonic_pi_port,
    };
    (stop_msg, save_msg)
}

/// Build the keep-alive heartbeat: `(token)` to the daemon port — always
/// the daemon's keep-alive channel, never the control port.
pub fn send_keep_live(cfg: &SonicPiToolCfg) -> (m: ControlMsg)
    ensures
        m.addr@ == "/daemon/keep-alive"@,
        m.token == cfg.token,
        m.text is None,
        m.port == cfg.daemon_port,
{
    ControlMsg {
        addr: "/daemon/keep-alive".to_owned(),
        token: cfg.token,
        text: None,
        port: cfg.daemon_port,
    }
}

/// The OSC wire encoding of a message with the given address, token
/// argument and optional string argument.  The encoding is a fixed
/// function of the message alone; its byte-level layout is the OSC
/// encoder's business and is not restated here.
pub uninterp spec fn osc_encoding(addr: Seq<char>, token: int, text: Option<Seq<char>>) -> Seq<u8>;

/// Relies on rosc::encoder::encode: the wire bytes of a one-message
/// packet are a function of its address and arguments alone, and encoding
/// into a byte vector cannot fail (its error type is uninhabited).
#[verifier::external_body]
fn osc_encode_raw(addr: &String, token: i32, text: &Option<String>) -> (r: Vec<u8>)
    ensures
        r@ == osc_encoding(addr@, token as int, text_view(*text)),
{
    let mut args = vec![rosc::OscType::Int(token)];
    if let Some(s) = text {
        args.push(rosc::OscType::String(s.clone()));
    }
    let packet = rosc::OscPacket::Message(rosc::OscMessage { addr: addr.clone(), args });
    rosc::encoder::encode(&packet).unwrap()
}

/// Encode a control message to the bytes of one outbound datagram.
pub fn encode_message(m: &ControlMsg) -> (r: Vec<u8>)
    ensures
        r@ == osc_encoding(m.addr@, m.token as int, text_view(m.text)),
{
    osc_encode_raw(&m.addr, m.token, &m.text)
}

/// Interpret the outcome of a liveness probe on the server's port: the
/// caller tried to bind a receive socket on the port and reports whether
/// that bind failed.  A failed bind means something already owns the port
/// (in use); a successful bind means nothing is listening.  This is an
/// inherently racy heuristic, not a handshake with the real process.
pub fn server_port_in_use(bind_failed: bool) -> (r: bool)
    ensures
        r == bind_failed,
{
    bind_failed
}

} // verus!
