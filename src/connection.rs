//! The decisions of one connection's read-dispatch-write loop. The caller
//! performs each `Action` on the socket and reports what came of it as an
//! `Event`.
use crate::catalog::Directory;
use crate::codec::{enc_prefixed, u32_at, ServerError};
use crate::messages::message_of;
use crate::dispatch::{dispatched, frame, parse_message, Dispatch};
use crate::sessions::{ConnectedUsers, PeerAddr};
use crate::store::{Db, StoreCall};
use vstd::bytes::{spec_u32_from_le_bytes, u32_from_le_bytes};
use vstd::prelude::*;

verus! {

/// Bytes in a frame's length prefix.
pub const HEADER_LEN: usize = 4;

/// What the connection waits for.
#[derive(Debug, Clone, Copy, PartialEq, Eq, Structural)]
pub enum Phase {
    /// The 4-byte length prefix of the next frame.
    Header,
    /// A frame body of this many bytes.
    Body(usize),
}

/// What came of the last read or write.
pub enum Event {
    /// The bytes that were read.
    Received(Vec<u8>),
    /// The socket failed or the peer closed it.
    Failed,
}

/// What the caller does next.
#[derive(Debug)]
pub enum Action {
    /// Read exactly this many bytes and report them.
    Read(usize),
    /// Write this framed reply, then read the next header.
    Send(Vec<u8>),
    /// The message was dropped for this reason; read the next header.
    Reject(ServerError),
    /// The message had an opcode nobody handles; read the next header.
    Ignore(u32),
    /// The connection is over and its session is gone.
    Close,
}

/// The state of one connection.
pub struct PeerConnection {
    pub peer: PeerAddr,
    pub phase: Phase,
}

/// How the dispatcher's result becomes the next action.
pub open spec fn action_for(r: Result<Dispatch, ServerError>, a: Action) -> bool {
    match r {
        Ok(Dispatch::Reply(b)) => if b@.len() <= u32::MAX {
            a is Send && a->Send_0@ == enc_prefixed(b@)
        } else {
            a == Action::Reject(ServerError::TransportFailure)
        },
        Ok(Dispatch::NoReply) => a == Action::Read(HEADER_LEN),
        Ok(Dispatch::UnknownOpcode(c)) => a == Action::Ignore(c),
        Err(e) => a == Action::Reject(e),
    }
}

impl PeerConnection {
    /// A connection that waits for its first frame.
    pub fn new(peer: PeerAddr) -> (r: Self)
        ensures
            r.peer == peer,
            r.phase == Phase::Header,
    {
        PeerConnection { peer, phase: Phase::Header }
    }

    /// Takes the outcome of the last read (or of a failed write) and decides
    /// what comes next. A failure or a short read ends the connection and
    /// removes its session; a whole header asks for the body; a whole body is
    /// dispatched and the connection goes back to waiting for a header.
    pub fn step(&mut self, event: Event, db: &mut Db, users: &mut ConnectedUsers) -> (a: Action)
        ensures
            final(self).peer == old(self).peer,
            match event {
                Event::Failed => a == Action::Close && final(db).log() == old(db).log()
                    && final(users)@ == old(users)@.remove(old(self).peer.spec_key()),
                Event::Received(bytes) => match old(self).phase {
                    Phase::Header => if bytes@.len() == HEADER_LEN {
                        &&& final(self).phase == Phase::Body(
                            spec_u32_from_le_bytes(bytes@) as usize,
                        )
                        &&& a == Action::Read(spec_u32_from_le_bytes(bytes@) as usize)
                        &&& final(users)@ == old(users)@
                        &&& final(db).log() == old(db).log()
                    } else {
                        a == Action::Close && final(db).log() == old(db).log() && final(users)@
                            == old(users)@.remove(old(self).peer.spec_key())
                    },
                    Phase::Body(n) => if bytes@.len() == n {
                        &&& final(self).phase == Phase::Header
                        &&& exists|r: Result<Dispatch, ServerError>|
                            #[trigger] dispatched(
                                bytes@,
                                old(self).peer,
                                old(users)@,
                                final(users)@,
                                old(db).log(),
                                final(db).log(),
                                r,
                            ) && action_for(r, a)
                    } else {
                        a == Action::Close && final(db).log() == old(db).log() && final(users)@
                            == old(users)@.remove(old(self).peer.spec_key())
                    },
                },
            },
    {
        match event {
            Event::Failed => {
                users.remove(self.peer);
                Action::Close
            },
            Event::Received(bytes) => match self.phase {
                Phase::Header => {
                    if bytes.len() != HEADER_LEN {
                        users.remove(self.peer);
                        return Action::Close;
                    }
                    let n = u32_from_le_bytes(bytes.as_slice()) as usize;
                    self.phase = Phase::Body(n);
                    Action::Read(n)
                },
                Phase::Body(n) => {
                    if bytes.len() != n {
                        users.remove(self.peer);
                        return Action::Close;
                    }
                    self.phase = Phase::Header;
                    let r = parse_message(self.peer, bytes.as_slice(), db, users);
                    let a = match r {
                        Ok(Dispatch::Reply(body)) => {
                            if body.len() <= u32::MAX as usize {
                                Action::Send(frame(body.as_slice()))
                            } else {
                                Action::Reject(ServerError::TransportFailure)
                            }
                        },
                        Ok(Dispatch::NoReply) => Action::Read(HEADER_LEN),
                        Ok(Dispatch::UnknownOpcode(c)) => Action::Ignore(c),
                        Err(e) => Action::Reject(e),
                    };
                    assert(action_for(r, a));
                    a
                },
            },
        }
    }
}

/// A message with an opcode nobody handles is ignored: nothing is sent, no
/// session changes, the store is asked nothing, and (by `step`) the connection waits for the next header.
pub proof fn lemma_unknown_opcode_ignored(
    body: Seq<u8>,
    peer: PeerAddr,
    before: Directory,
    after: Directory,
    asked: Seq<StoreCall>,
    told: Seq<StoreCall>,
    r: Result<Dispatch, ServerError>,
    a: Action,
)
    requires
        body.len() >= 4,
        message_of(u32_at(body, 0)) is None,
        dispatched(body, peer, before, after, asked, told, r),
        action_for(r, a),
    ensures
        a == Action::Ignore(u32_at(body, 0)),
        after == before,
        told == asked,
{
}

} // verus!
