//! From a received message body to the reply, and the framing of replies.
use crate::catalog::{handled, payload_end, Directory};
use crate::codec::{enc_prefixed, u32_at, BufferReader, BufferWriter, ServerError};
use crate::messages::{message_of, ServerMessage};
use crate::sessions::{ConnectedUsers, PeerAddr};
use crate::store::{Db, StoreCall};
use vstd::prelude::*;

verus! {

/// What became of a well-read message.
#[derive(Debug)]
pub enum Dispatch {
    /// Send this reply body (opcode and fields) back.
    Reply(Vec<u8>),
    /// The request asks for no reply.
    NoReply,
    /// No handler knows this opcode; nothing is sent.
    UnknownOpcode(u32),
}

/// How a handler's result, with the reader stopped at `end` of a body of
/// `len` bytes, becomes the dispatcher's: a handler that leaves bytes unread
/// has its message rejected.
pub open spec fn settled(
    hr: Result<Option<Seq<u8>>, ServerError>,
    end: int,
    len: int,
    r: Result<Dispatch, ServerError>,
) -> bool {
    match hr {
        Err(e) => r == Err::<Dispatch, ServerError>(e),
        Ok(o) => if end != len {
            r == Err::<Dispatch, ServerError>(ServerError::PayloadNotFullyConsumed)
        } else {
            match o {
                Some(b) => r is Ok && r->Ok_0 is Reply && r->Ok_0->Reply_0@ == b,
                None => r == Ok::<Dispatch, ServerError>(Dispatch::NoReply),
            }
        },
    }
}

/// What handling the message `body` from `peer` may lead to: `r` the result,
/// `before`/`after` the directory and `asked`/`told` the store's request log.
pub open spec fn dispatched(
    body: Seq<u8>,
    peer: PeerAddr,
    before: Directory,
    after: Directory,
    asked: Seq<StoreCall>,
    told: Seq<StoreCall>,
    r: Result<Dispatch, ServerError>,
) -> bool {
    if body.len() < 4 {
        r == Err::<Dispatch, ServerError>(ServerError::EndOfData) && after == before && told
            == asked
    } else {
        match message_of(u32_at(body, 0)) {
            None => r == Ok::<Dispatch, ServerError>(Dispatch::UnknownOpcode(u32_at(body, 0)))
                && after == before && told == asked,
            Some(m) => exists|end: int, hr: Result<Option<Seq<u8>>, ServerError>|
                #[trigger] handled(m, body, 4, peer, before, after, asked, told, end, hr) && settled(
                    hr,
                    end,
                    body.len() as int,
                    r,
                ),
        }
    }
}

/// Handles one message body: its opcode, then that request's payload, which
/// must be read to its last byte.
pub fn parse_message(
    peer: PeerAddr,
    body: &[u8],
    db: &mut Db,
    users: &mut ConnectedUsers,
) -> (r: Result<Dispatch, ServerError>)
    ensures
        dispatched(body@, peer, old(users)@, final(users)@, old(db).log(), final(db).log(), r),
{
    let mut reader = BufferReader::new(body);
    let code = reader.read_u32()?;
    match ServerMessage::from_code(code) {
        Some(message) => {
            let response = message.process(&mut reader, peer, db, users);
            let ghost end = reader.pos();
            let ghost hr = crate::catalog::reply_view(response);
            assert(handled(message, body@, 4, peer, old(users)@, users@, old(db).log(), db.log(), end, hr));
            match response {
                Ok(reply) => {
                    if !reader.is_empty() {
                        return Err(ServerError::PayloadNotFullyConsumed);
                    }
                    match reply {
                        Some(bytes) => Ok(Dispatch::Reply(bytes)),
                        None => Ok(Dispatch::NoReply),
                    }
                },
                Err(e) => Err(e),
            }
        },
        None => Ok(Dispatch::UnknownOpcode(code)),
    }
}

/// A reply as sent: its length as a `u32`, then its bytes.
pub fn frame(body: &[u8]) -> (r: Vec<u8>)
    requires
        body@.len() <= u32::MAX,
    ensures
        r@ == enc_prefixed(body@),
{
    let mut w = BufferWriter::new();
    w.write_byte_array(body);
    w.to_vec()
}

/// A framed reply's length prefix is the exact length of the body that follows it.
pub proof fn lemma_frame_integrity(body: Seq<u8>)
    requires
        body.len() <= u32::MAX,
    ensures
        enc_prefixed(body).len() == 4 + body.len(),
        u32_at(enc_prefixed(body), 0) == body.len(),
        enc_prefixed(body).subrange(4, enc_prefixed(body).len() as int) == body,
{
    vstd::bytes::lemma_auto_spec_u32_to_from_le_bytes();
    let e = Seq::<u8>::empty();
    crate::codec::lemma_byte_array_round_trip(e, body, e);
    assert(e + enc_prefixed(body) + e =~= enc_prefixed(body));
}

/// A known request whose payload is well formed is read to its last byte:
/// its message is never rejected as left unread, and only the account store
/// can make it fail.
pub proof fn lemma_full_payload_consumed(
    body: Seq<u8>,
    peer: PeerAddr,
    before: Directory,
    after: Directory,
    asked: Seq<StoreCall>,
    told: Seq<StoreCall>,
    r: Result<Dispatch, ServerError>,
)
    requires
        body.len() >= 4,
        message_of(u32_at(body, 0)) is Some,
        payload_end(message_of(u32_at(body, 0))->Some_0, body, 4) == Ok::<int, ServerError>(
            body.len() as int,
        ),
        dispatched(body, peer, before, after, asked, told, r),
    ensures
        r is Ok || r == Err::<Dispatch, ServerError>(ServerError::StorageFailure),
{
    let m = message_of(u32_at(body, 0))->Some_0;
    let (end, hr) = choose|end: int, hr: Result<Option<Seq<u8>>, ServerError>|
        #[trigger] handled(m, body, 4, peer, before, after, asked, told, end, hr) && settled(
            hr,
            end,
            body.len() as int,
            r,
        );
}

/// Bytes left after a known request's payload are caught: the message is
/// rejected.
pub proof fn lemma_trailing_bytes_rejected(
    body: Seq<u8>,
    peer: PeerAddr,
    before: Directory,
    after: Directory,
    asked: Seq<StoreCall>,
    told: Seq<StoreCall>,
    r: Result<Dispatch, ServerError>,
    e: int,
)
    requires
        body.len() >= 4,
        message_of(u32_at(body, 0)) is Some,
        payload_end(message_of(u32_at(body, 0))->Some_0, body, 4) == Ok::<int, ServerError>(e),
        e < body.len(),
        dispatched(body, peer, before, after, asked, told, r),
    ensures
        r is Err,
{
    let m = message_of(u32_at(body, 0))->Some_0;
    let (end, hr) = choose|end: int, hr: Result<Option<Seq<u8>>, ServerError>|
        #[trigger] handled(m, body, 4, peer, before, after, asked, told, end, hr) && settled(
            hr,
            end,
            body.len() as int,
            r,
        );
}

} // verus!
