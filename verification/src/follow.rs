//! The log follower's control flow.
//!
//! Following the server's log stream means binding a receive socket on
//! the session's GUI port and looping over inbound datagrams forever.
//! The socket work is the caller's; this module decides, for each thing
//! that can happen on the socket, whether the loop goes on and with what,
//! and decodes an inbound datagram through the OSC decoder.  A failed
//! bind ends the command at once, before any receive; so does any receive
//! error — there is no reconnection and no backoff.

use vstd::prelude::*;

verus! {

/// Why following the log stream ended.
pub enum FollowLogError {
    /// The log port is already bound, typically by a graphical front-end;
    /// the two are mutually exclusive consumers of the stream.
    AddrInUse,
    /// A receive on the bound socket failed with this cause.
    ReceiveFail(String),
}

/// One thing that happened on the log socket.
pub enum FollowEvent {
    /// Binding the receive socket on the log port failed.
    BindFailed,
    /// One datagram arrived with these bytes.
    Datagram(Vec<u8>),
    /// A receive on the bound socket failed with this message.
    SocketError(String),
}

/// What the follow loop does next.
pub enum FollowStep {
    /// Hand this decoded packet to the log formatter and keep listening.
    Deliver(rosc::OscPacket),
    /// Stop following with this error.
    Stop(FollowLogError),
}

/// The decoded form of an inbound packet is opaque to the library: the
/// log formatter that renders it is an external collaborator.
#[verifier::external_type_specification]
#[verifier::external_body]
pub struct ExOscPacket(rosc::OscPacket);

/// Whether a datagram's bytes decode as one well-formed OSC packet.  The
/// decoder's verdict is a function of the bytes alone; which byte strings
/// are well-formed is the OSC decoder's business and is not restated
/// here.
pub uninterp spec fn osc_decodes(b: Seq<u8>) -> bool;

/// Relies on rosc::decoder::decode_udp: its verdict depends on the bytes
/// alone — a well-formed datagram yields a packet, anything else an
/// error.  The decoder recurses on nested bundle elements, so the buffer
/// is bounded by the largest UDP payload to keep that recursion shallow.
#[verifier::external_body]
fn osc_decode_raw(buf: &Vec<u8>) -> (r: Option<rosc::OscPacket>)
    requires
        buf@.len() <= 65507,
    ensures
        r is Some == osc_decodes(buf@),
{
    match rosc::decoder::decode_udp(buf.as_slice()) {
        Ok((_rest, packet)) => Some(packet),
        Err(_) => None,
    }
}

/// Decide one step of the follow loop from what happened on the socket.
///
/// A failed bind stops the loop before any receive, with
/// `FollowLogError::AddrInUse`.  A receive error stops it with
/// `FollowLogError::ReceiveFail` carrying the cause.  A datagram is
/// decoded: a well-formed one is always delivered for display, and only a
/// malformed one stops the loop, as a receive failure.  A datagram's
/// bytes must fit one UDP payload, which anything read off a socket does.
pub fn follow_logs_step(event: FollowEvent) -> (r: FollowStep)
    requires
        event matches FollowEvent::Datagram(b) ==> b@.len() <= 65507,
    ensures
        event is BindFailed ==> r == FollowStep::Stop(FollowLogError::AddrInUse),
        (event matches FollowEvent::SocketError(e) ==> r matches FollowStep::Stop(err)
            && err matches FollowLogError::ReceiveFail(cause) && cause@ == e@),
        (event matches FollowEvent::Datagram(b) ==> (osc_decodes(b@) ==> r matches
        FollowStep::Deliver(_))),
        (event matches FollowEvent::Datagram(b) ==> (!osc_decodes(b@) ==> r matches
        FollowStep::Stop(FollowLogError::ReceiveFail(_)))),
{
    match event {
        FollowEvent::BindFailed => FollowStep::Stop(FollowLogError::AddrInUse),
        FollowEvent::SocketError(e) => FollowStep::Stop(FollowLogError::ReceiveFail(e)),
        FollowEvent::Datagram(buf) => {
            match osc_decode_raw(&buf) {
                Some(packet) => FollowStep::Deliver(packet),
                None => FollowStep::Stop(
                    FollowLogError::ReceiveFail("malformed log datagram".to_owned()),
                ),
            }
        },
    }
}

} // verus!
