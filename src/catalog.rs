//! What each request carries, what it answers and what it changes.
use crate::codec::{
    bool_at, enc_bool, enc_prefixed, enc_str, fields_end, str_at, str_bytes_at, str_end, u32_at,
    BufferReader, BufferWriter, FieldKind, ServerError,
};
use crate::messages::{status_from, ServerMessage, UserStatus};
use crate::sessions::{ConnectedUsers, PeerAddr};
use crate::store::{Db, StoreCall, StoreReply, StoreRequest};
use vstd::bytes::spec_u32_to_le_bytes;
use vstd::prelude::*;
use vstd::utf8::encode_utf8;

verus! {

/// The name given to what `md5::compute` returns for some bytes: their 16-byte digest.
pub uninterp spec fn md5_digest(data: Seq<u8>) -> Seq<u8>;

/// Relies on `md5::compute`: the MD5 digest of the bytes, which depends on them alone.
#[verifier::external_body]
fn md5_of(data: &[u8]) -> (r: [u8; 16])
    ensures
        r@ == md5_digest(data@),
{
    md5::compute(data).0
}

/// The directory as a map from connection key to (name, status).
pub type Directory = Map<u64, (Seq<char>, UserStatus)>;

/// The fields each request carries, in order; `SetWaitPort` may add two
/// more `u32`s (see `payload_end`).
pub open spec fn request_fields(m: ServerMessage) -> Seq<FieldKind> {
    match m {
        ServerMessage::Login => seq![
            FieldKind::Str,
            FieldKind::Str,
            FieldKind::U32,
            FieldKind::Str,
            FieldKind::U32,
        ],
        ServerMessage::SetWaitPort => seq![FieldKind::U32],
        ServerMessage::GetUserStatus => seq![FieldKind::Str],
        ServerMessage::SetStatus => seq![FieldKind::I32],
        ServerMessage::SharedFoldersFiles => seq![FieldKind::U32, FieldKind::U32],
        ServerMessage::RoomList => seq![],
        ServerMessage::HaveNoParent => seq![FieldKind::Bool],
        ServerMessage::CheckPrivileges => seq![],
        ServerMessage::AcceptChildren => seq![FieldKind::Bool],
        ServerMessage::BranchLevel => seq![FieldKind::U32],
        ServerMessage::BranchRoot => seq![FieldKind::Str],
        ServerMessage::PrivateRoomToggle => seq![FieldKind::Bool],
    }
}

/// Where the payload of `m` that starts at `pos` ends, or why it cannot be read.
pub open spec fn payload_end(m: ServerMessage, data: Seq<u8>, pos: int) -> Result<
    int,
    ServerError,
> {
    match fields_end(data, pos, request_fields(m)) {
        Err(e) => Err(e),
        Ok(e) => {
            if m is SetWaitPort && e != data.len() {
                fields_end(data, e, seq![FieldKind::U32, FieldKind::U32])
            } else if m is SetStatus && status_from(u32_at(data, pos) as i32) is None {
                Err(ServerError::InvalidEnumValue)
            } else {
                Ok(e)
            }
        },
    }
}

/// The lowercase hex digit of a value below 16.
pub open spec fn hex_digit(n: u8) -> u8 {
    if n < 10 {
        (48 + n) as u8
    } else {
        (87 + n) as u8
    }
}

/// Lowercase hex text of the bytes, two ASCII digits per byte.
pub open spec fn hex_lower(bytes: Seq<u8>) -> Seq<u8>
    decreases bytes.len(),
{
    if bytes.len() == 0 {
        seq![]
    } else {
        hex_lower(bytes.drop_last()) + seq![
            hex_digit(bytes.last() / 16),
            hex_digit(bytes.last() % 16),
        ]
    }
}

/// The answer to a login: success, a greeting, the caller's address, the
/// hex digest of the password and a second success flag.
pub open spec fn login_reply(ip: u32, digest: Seq<u8>) -> Seq<u8> {
    spec_u32_to_le_bytes(1) + enc_bool(true) + enc_str("Hello"@) + spec_u32_to_le_bytes(ip)
        + enc_prefixed(hex_lower(digest)) + enc_bool(true)
}

/// The answer to a status query: the name, the constant status Online, and
/// the privilege flag.
pub open spec fn status_reply(name: Seq<char>, privileged: bool) -> Seq<u8> {
    spec_u32_to_le_bytes(7) + enc_str(name) + spec_u32_to_le_bytes(2) + enc_bool(privileged)
}

pub open spec fn room_list_reply() -> Seq<u8> {
    spec_u32_to_le_bytes(64) + spec_u32_to_le_bytes(0)
}

/// Privileges never run out.
pub open spec fn privileges_reply() -> Seq<u8> {
    spec_u32_to_le_bytes(92) + spec_u32_to_le_bytes(u32::MAX)
}

pub open spec fn room_toggle_reply(enable: bool) -> Seq<u8> {
    spec_u32_to_le_bytes(141) + enc_bool(enable)
}

/// The bytes of the password field of a login whose payload starts at `pos`.
pub open spec fn login_password_bytes(data: Seq<u8>, pos: int) -> Seq<u8> {
    str_bytes_at(data, str_end(data, pos))
}

/// The directory after `peer` reports `status`: only an existing session changes.
pub open spec fn with_status(users: Directory, peer: PeerAddr, status: UserStatus) -> Directory {
    if users.contains_key(peer.spec_key()) {
        users.insert(peer.spec_key(), (users[peer.spec_key()].0, status))
    } else {
        users
    }
}

/// A handler's result as plain values.
pub open spec fn reply_view(r: Result<Option<Vec<u8>>, ServerError>) -> Result<
    Option<Seq<u8>>,
    ServerError,
> {
    match r {
        Ok(Some(v)) => Ok(Some(v@)),
        Ok(None) => Ok(None),
        Err(e) => Err(e),
    }
}

/// The password of a login whose payload starts at `pos`.
pub open spec fn login_password(data: Seq<u8>, pos: int) -> Seq<char> {
    str_at(data, str_end(data, pos))
}

/// What a login of `name` with `password` sends to the store and what
/// follows from the store's replies: the log `asked` grows to `told` by the
/// question whether `name` exists and, only when the answer is no, the
/// creation of the account. The login succeeds (`success`) once the account
/// is known or made, and fails with the store otherwise (`failure`).
pub open spec fn login_store(
    name: Seq<char>,
    password: Seq<char>,
    asked: Seq<StoreCall>,
    told: Seq<StoreCall>,
    success: bool,
    failure: bool,
) -> bool {
    let n = asked.len() as int;
    &&& told.len() > n
    &&& told.subrange(0, n) == asked
    &&& told[n].0 == StoreRequest::UserExists(name)
    &&& match told[n].1 {
        StoreReply::Answer(true) => told.len() == n + 1 && success,
        StoreReply::Answer(false) => {
            &&& told.len() == n + 2
            &&& told[n + 1].0 == StoreRequest::InsertUser(name, password)
            &&& match told[n + 1].1 {
                StoreReply::Done => success,
                StoreReply::Failed => failure,
                StoreReply::Answer(_) => false,
            }
        },
        StoreReply::Failed => told.len() == n + 1 && failure,
        StoreReply::Done => false,
    }
}

/// What a status query of `name` sends to the store: one privilege question,
/// whose answer becomes the reply's flag.
pub open spec fn status_store(
    name: Seq<char>,
    asked: Seq<StoreCall>,
    told: Seq<StoreCall>,
    at_end: bool,
    r: Result<Option<Seq<u8>>, ServerError>,
) -> bool {
    let n = asked.len() as int;
    &&& told.len() == n + 1
    &&& told.subrange(0, n) == asked
    &&& told[n].0 == StoreRequest::IsPrivileged(name)
    &&& match told[n].1 {
        StoreReply::Answer(p) => at_end && r == Ok::<Option<Seq<u8>>, ServerError>(
            Some(status_reply(name, p)),
        ),
        StoreReply::Failed => r == Err::<Option<Seq<u8>>, ServerError>(ServerError::StorageFailure),
        StoreReply::Done => false,
    }
}

/// What handling `m` with its payload at `pos` in `data` leads to: `r` the
/// reply, `end` where reading stopped, `before`/`after` the directory and
/// `asked`/`told` the store's request log. Only the store's replies can make
/// a well-formed login or status query fail.
pub open spec fn handled(
    m: ServerMessage,
    data: Seq<u8>,
    pos: int,
    peer: PeerAddr,
    before: Directory,
    after: Directory,
    asked: Seq<StoreCall>,
    told: Seq<StoreCall>,
    end: int,
    r: Result<Option<Seq<u8>>, ServerError>,
) -> bool {
    match payload_end(m, data, pos) {
        Err(e) => r == Err::<Option<Seq<u8>>, ServerError>(e) && after == before && told == asked,
        Ok(e) => match m {
            ServerMessage::Login => login_store(
                str_at(data, pos),
                login_password(data, pos),
                asked,
                told,
                end == e && r == Ok::<Option<Seq<u8>>, ServerError>(
                    Some(login_reply(peer.ip, md5_digest(login_password_bytes(data, pos)))),
                ) && after == before.insert(
                    peer.spec_key(),
                    (str_at(data, pos), UserStatus::Online),
                ),
                r == Err::<Option<Seq<u8>>, ServerError>(ServerError::StorageFailure) && after
                    == before,
            ),
            ServerMessage::GetUserStatus => after == before && status_store(
                str_at(data, pos),
                asked,
                told,
                end == e,
                r,
            ),
            ServerMessage::SetStatus => {
                &&& end == e
                &&& told == asked
                &&& r == Ok::<Option<Seq<u8>>, ServerError>(None)
                &&& after == with_status(
                    before,
                    peer,
                    status_from(u32_at(data, pos) as i32)->Some_0,
                )
            },
            ServerMessage::RoomList => end == e && after == before && told == asked && r == Ok::<
                Option<Seq<u8>>,
                ServerError,
            >(Some(room_list_reply())),
            ServerMessage::CheckPrivileges => end == e && after == before && told == asked && r
                == Ok::<Option<Seq<u8>>, ServerError>(Some(privileges_reply())),
            ServerMessage::PrivateRoomToggle => end == e && after == before && told == asked && r
                == Ok::<Option<Seq<u8>>, ServerError>(Some(room_toggle_reply(bool_at(data, pos)))),
            _ => end == e && after == before && told == asked && r == Ok::<
                Option<Seq<u8>>,
                ServerError,
            >(None),
        },
    }
}

/// Privilege and room-list queries are idempotent: any two of the same kind,
/// whatever their payloads, callers and directories, give the same constant
/// answer (unlimited privilege time; zero rooms), change no session and ask
/// the store nothing.
pub proof fn lemma_constant_replies(
    m: ServerMessage,
    data1: Seq<u8>,
    pos1: int,
    peer1: PeerAddr,
    before1: Directory,
    after1: Directory,
    asked1: Seq<StoreCall>,
    told1: Seq<StoreCall>,
    end1: int,
    r1: Result<Option<Seq<u8>>, ServerError>,
    data2: Seq<u8>,
    pos2: int,
    peer2: PeerAddr,
    before2: Directory,
    after2: Directory,
    asked2: Seq<StoreCall>,
    told2: Seq<StoreCall>,
    end2: int,
    r2: Result<Option<Seq<u8>>, ServerError>,
)
    requires
        m == ServerMessage::CheckPrivileges || m == ServerMessage::RoomList,
        handled(m, data1, pos1, peer1, before1, after1, asked1, told1, end1, r1),
        handled(m, data2, pos2, peer2, before2, after2, asked2, told2, end2, r2),
    ensures
        r1 == r2,
        m == ServerMessage::CheckPrivileges ==> r1 == Ok::<Option<Seq<u8>>, ServerError>(
            Some(privileges_reply()),
        ),
        m == ServerMessage::RoomList ==> r1 == Ok::<Option<Seq<u8>>, ServerError>(
            Some(room_list_reply()),
        ),
        after1 == before1,
        after2 == before2,
        told1 == asked1,
        told2 == asked2,
{
    reveal_with_fuel(fields_end, 1);
}

proof fn lemma_hex_lower_len(bytes: Seq<u8>)
    ensures
        hex_lower(bytes).len() == 2 * bytes.len(),
    decreases bytes.len(),
{
    if bytes.len() > 0 {
        lemma_hex_lower_len(bytes.drop_last());
    }
}

fn hex_char(n: u8) -> (r: u8)
    requires
        n < 16,
    ensures
        r == hex_digit(n),
{
    if n < 10 {
        48 + n
    } else {
        87 + n
    }
}

/// Lowercase hex text of `bytes`.
pub fn hex_text(bytes: &[u8]) -> (r: Vec<u8>)
    ensures
        r@ == hex_lower(bytes@),
{
    let mut out: Vec<u8> = Vec::new();
    let mut i: usize = 0;
    while i < bytes.len()
        invariant
            i <= bytes@.len(),
            out@ == hex_lower(bytes@.subrange(0, i as int)),
        decreases bytes@.len() - i,
    {
        let b = bytes[i];
        out.push(hex_char(b / 16));
        out.push(hex_char(b % 16));
        proof {
            let next = bytes@.subrange(0, i + 1);
            assert(next.drop_last() =~= bytes@.subrange(0, i as int));
            assert(next.last() == b);
            assert(out@ =~= hex_lower(next));
        }
        i = i + 1;
    }
    assert(bytes@.subrange(0, i as int) =~= bytes@);
    out
}

proof fn lemma_hello_len()
    ensures
        encode_utf8("Hello"@).len() == 5,
{
    reveal_strlit("Hello");
    reveal_with_fuel(encode_utf8, 6);
    assert("Hello"@.drop_first() =~= seq!['e', 'l', 'l', 'o']);
    assert(seq!['e', 'l', 'l', 'o'].drop_first() =~= seq!['l', 'l', 'o']);
    assert(seq!['l', 'l', 'o'].drop_first() =~= seq!['l', 'o']);
    assert(seq!['l', 'o'].drop_first() =~= seq!['o']);
    assert(seq!['o'].drop_first() =~= Seq::<char>::empty());
}

/// The login answer for a caller at `ip` whose password has digest `digest`.
pub fn login_reply_bytes(ip: u32, digest: &[u8]) -> (r: Vec<u8>)
    requires
        digest@.len() <= 0x7fff_ffff,
    ensures
        r@ == login_reply(ip, digest@),
{
    let hex = hex_text(digest);
    proof {
        lemma_hex_lower_len(digest@);
        lemma_hello_len();
    }
    let mut w = BufferWriter::new();
    w.write_u32(1).write_bool(true).write_string("Hello").write_u32(ip).write_byte_array(
        hex.as_slice(),
    ).write_bool(true);
    assert(w@ =~= login_reply(ip, digest@));
    w.to_vec()
}

/// The status answer for `name`: Online, with the given privilege flag.
pub fn status_reply_bytes(name: &str, privileged: bool) -> (r: Vec<u8>)
    requires
        encode_utf8(name@).len() <= u32::MAX,
    ensures
        r@ == status_reply(name@, privileged),
{
    let mut w = BufferWriter::new();
    w.write_u32(7).write_string(name).write_u32(UserStatus::Online.code() as u32).write_bool(
        privileged,
    );
    assert(w@ =~= status_reply(name@, privileged));
    w.to_vec()
}

fn shared_folders_files(
    reader: &mut BufferReader,
    peer: PeerAddr,
    db: &mut Db,
    users: &mut ConnectedUsers,
) -> (r: Result<Option<Vec<u8>>, ServerError>)
    requires
        old(reader).wf(),
    ensures
        final(reader).data() == old(reader).data(),
        final(reader).wf(),
        handled(
            ServerMessage::SharedFoldersFiles,
            old(reader).data(),
            old(reader).pos(),
            peer,
            old(users)@,
            final(users)@,
            old(db).log(),
            final(db).log(),
            final(reader).pos(),
            reply_view(r),
        ),
{
    proof {
        reveal_with_fuel(fields_end, 3);
        assert(request_fields(ServerMessage::SharedFoldersFiles).drop_first() =~= seq![FieldKind::U32]);
    }
    let _folders = reader.read_u32()?;
    let _files = reader.read_u32()?;
    Ok(None)
}

fn room_list(
    reader: &mut BufferReader,
    peer: PeerAddr,
    db: &mut Db,
    users: &mut ConnectedUsers,
) -> (r: Result<Option<Vec<u8>>, ServerError>)
    requires
        old(reader).wf(),
    ensures
        final(reader).data() == old(reader).data(),
        final(reader).wf(),
        handled(
            ServerMessage::RoomList,
            old(reader).data(),
            old(reader).pos(),
            peer,
            old(users)@,
            final(users)@,
            old(db).log(),
            final(db).log(),
            final(reader).pos(),
            reply_view(r),
        ),
{
    let mut w = BufferWriter::new();
    w.write_u32(64).write_u32(0);
    assert(w@ =~= room_list_reply());
    Ok(Some(w.to_vec()))
}

fn check_privileges(
    reader: &mut BufferReader,
    peer: PeerAddr,
    db: &mut Db,
    users: &mut ConnectedUsers,
) -> (r: Result<Option<Vec<u8>>, ServerError>)
    requires
        old(reader).wf(),
    ensures
        final(reader).data() == old(reader).data(),
        final(reader).wf(),
        handled(
            ServerMessage::CheckPrivileges,
            old(reader).data(),
            old(reader).pos(),
            peer,
            old(users)@,
            final(users)@,
            old(db).log(),
            final(db).log(),
            final(reader).pos(),
            reply_view(r),
        ),
{
    let mut w = BufferWriter::new();
    w.write_u32(92).write_u32(u32::MAX);
    assert(w@ =~= privileges_reply());
    Ok(Some(w.to_vec()))
}

fn have_no_parent(
    reader: &mut BufferReader,
    peer: PeerAddr,
    db: &mut Db,
    users: &mut ConnectedUsers,
) -> (r: Result<Option<Vec<u8>>, ServerError>)
    requires
        old(reader).wf(),
    ensures
        final(reader).data() == old(reader).data(),
        final(reader).wf(),
        handled(
            ServerMessage::HaveNoParent,
            old(reader).data(),
            old(reader).pos(),
            peer,
            old(users)@,
            final(users)@,
            old(db).log(),
            final(db).log(),
            final(reader).pos(),
            reply_view(r),
        ),
{
    proof {
        reveal_with_fuel(fields_end, 2);
    }
    let _no_parent = reader.read_bool()?;
    Ok(None)
}

fn accept_children(
    reader: &mut BufferReader,
    peer: PeerAddr,
    db: &mut Db,
    users: &mut ConnectedUsers,
) -> (r: Result<Option<Vec<u8>>, ServerError>)
    requires
        old(reader).wf(),
    ensures
        final(reader).data() == old(reader).data(),
        final(reader).wf(),
        handled(
            ServerMessage::AcceptChildren,
            old(reader).data(),
            old(reader).pos(),
            peer,
            old(users)@,
            final(users)@,
            old(db).log(),
            final(db).log(),
            final(reader).pos(),
            reply_view(r),
        ),
{
    proof {
        reveal_with_fuel(fields_end, 2);
    }
    let _accept = reader.read_bool()?;
    Ok(None)
}

fn branch_level(
    reader: &mut BufferReader,
    peer: PeerAddr,
    db: &mut Db,
    users: &mut ConnectedUsers,
) -> (r: Result<Option<Vec<u8>>, ServerError>)
    requires
        old(reader).wf(),
    ensures
        final(reader).data() == old(reader).data(),
        final(reader).wf(),
        handled(
            ServerMessage::BranchLevel,
            old(reader).data(),
            old(reader).pos(),
            peer,
            old(users)@,
            final(users)@,
            old(db).log(),
            final(db).log(),
            final(reader).pos(),
            reply_view(r),
        ),
{
    proof {
        reveal_with_fuel(fields_end, 2);
    }
    let _level = reader.read_u32()?;
    Ok(None)
}

fn branch_root(
    reader: &mut BufferReader,
    peer: PeerAddr,
    db: &mut Db,
    users: &mut ConnectedUsers,
) -> (r: Result<Option<Vec<u8>>, ServerError>)
    requires
        old(reader).wf(),
    ensures
        final(reader).data() == old(reader).data(),
        final(reader).wf(),
        handled(
            ServerMessage::BranchRoot,
            old(reader).data(),
            old(reader).pos(),
            peer,
            old(users)@,
            final(users)@,
            old(db).log(),
            final(db).log(),
            final(reader).pos(),
            reply_view(r),
        ),
{
    proof {
        reveal_with_fuel(fields_end, 2);
    }
    let _root = reader.read_string()?;
    Ok(None)
}

fn private_room_toggle(
    reader: &mut BufferReader,
    peer: PeerAddr,
    db: &mut Db,
    users: &mut ConnectedUsers,
) -> (r: Result<Option<Vec<u8>>, ServerError>)
    requires
        old(reader).wf(),
    ensures
        final(reader).data() == old(reader).data(),
        final(reader).wf(),
        handled(
            ServerMessage::PrivateRoomToggle,
            old(reader).data(),
            old(reader).pos(),
            peer,
            old(users)@,
            final(users)@,
            old(db).log(),
            final(db).log(),
            final(reader).pos(),
            reply_view(r),
        ),
{
    proof {
        reveal_with_fuel(fields_end, 2);
    }
    let enable = reader.read_bool()?;
    let mut w = BufferWriter::new();
    w.write_u32(141).write_bool(enable);
    assert(w@ =~= room_toggle_reply(enable));
    Ok(Some(w.to_vec()))
}

fn set_wait_port(
    reader: &mut BufferReader,
    peer: PeerAddr,
    db: &mut Db,
    users: &mut ConnectedUsers,
) -> (r: Result<Option<Vec<u8>>, ServerError>)
    requires
        old(reader).wf(),
    ensures
        final(reader).data() == old(reader).data(),
        final(reader).wf(),
        handled(
            ServerMessage::SetWaitPort,
            old(reader).data(),
            old(reader).pos(),
            peer,
            old(users)@,
            final(users)@,
            old(db).log(),
            final(db).log(),
            final(reader).pos(),
            reply_view(r),
        ),
{
    proof {
        reveal_with_fuel(fields_end, 3);
        assert(seq![FieldKind::U32, FieldKind::U32].drop_first() =~= seq![FieldKind::U32]);
    }
    let _port = reader.read_u32()?;
    if !reader.is_empty() {
        let _obfuscation_type = reader.read_u32()?;
        let _obfuscated_port = reader.read_u32()?;
    }
    Ok(None)
}

fn set_status(
    reader: &mut BufferReader,
    peer: PeerAddr,
    db: &mut Db,
    users: &mut ConnectedUsers,
) -> (r: Result<Option<Vec<u8>>, ServerError>)
    requires
        old(reader).wf(),
    ensures
        final(reader).data() == old(reader).data(),
        final(reader).wf(),
        handled(
            ServerMessage::SetStatus,
            old(reader).data(),
            old(reader).pos(),
            peer,
            old(users)@,
            final(users)@,
            old(db).log(),
            final(db).log(),
            final(reader).pos(),
            reply_view(r),
        ),
{
    proof {
        reveal_with_fuel(fields_end, 2);
    }
    let value = reader.read_i32()?;
    match UserStatus::try_from_i32(value) {
        Some(status) => {
            users.set_status(peer, status);
            Ok(None)
        },
        None => Err(ServerError::InvalidEnumValue),
    }
}

fn login(
    reader: &mut BufferReader,
    peer: PeerAddr,
    db: &mut Db,
    users: &mut ConnectedUsers,
) -> (r: Result<Option<Vec<u8>>, ServerError>)
    requires
        old(reader).wf(),
    ensures
        final(reader).data() == old(reader).data(),
        final(reader).wf(),
        handled(
            ServerMessage::Login,
            old(reader).data(),
            old(reader).pos(),
            peer,
            old(users)@,
            final(users)@,
            old(db).log(),
            final(db).log(),
            final(reader).pos(),
            reply_view(r),
        ),
{
    proof {
        reveal_with_fuel(fields_end, 6);
        let ks = request_fields(ServerMessage::Login);
        assert(ks.drop_first() =~= seq![FieldKind::Str, FieldKind::U32, FieldKind::Str, FieldKind::U32]);
        assert(ks.drop_first().drop_first() =~= seq![FieldKind::U32, FieldKind::Str, FieldKind::U32]);
        assert(ks.drop_first().drop_first().drop_first() =~= seq![FieldKind::Str, FieldKind::U32]);
        assert(ks.drop_first().drop_first().drop_first().drop_first() =~= seq![FieldKind::U32]);
    }
    let ghost data = reader.data();
    let ghost pos = reader.pos();
    let username = reader.read_string()?;
    let password = reader.read_string()?;
    let _version = reader.read_u32()?;
    let _hash = reader.read_string()?;
    let _minor_version = reader.read_u32()?;
    let ghost asked = db.log();
    let known = db.user_exists(username.as_str());
    assert(db.log().subrange(0, asked.len() as int) =~= asked);
    match known {
        Err(e) => {
            return Err(e);
        },
        Ok(false) => {
            let made = db.insert_user(username.as_str(), password.as_str());
            assert(db.log().subrange(0, asked.len() as int) =~= asked);
            if let Err(e) = made {
                return Err(e);
            }
        },
        Ok(true) => {},
    }
    proof {
        vstd::utf8::decode_utf8_encode_utf8(login_password_bytes(data, pos));
    }
    let digest = md5_of(password.as_str().as_bytes());
    let reply = login_reply_bytes(peer.ip, &digest);
    users.insert(peer, username, UserStatus::Online);
    Ok(Some(reply))
}

fn get_user_status(
    reader: &mut BufferReader,
    peer: PeerAddr,
    db: &mut Db,
    users: &mut ConnectedUsers,
) -> (r: Result<Option<Vec<u8>>, ServerError>)
    requires
        old(reader).wf(),
    ensures
        final(reader).data() == old(reader).data(),
        final(reader).wf(),
        handled(
            ServerMessage::GetUserStatus,
            old(reader).data(),
            old(reader).pos(),
            peer,
            old(users)@,
            final(users)@,
            old(db).log(),
            final(db).log(),
            final(reader).pos(),
            reply_view(r),
        ),
{
    proof {
        reveal_with_fuel(fields_end, 2);
    }
    let ghost data = reader.data();
    let ghost pos = reader.pos();
    let username = reader.read_string()?;
    let ghost asked = db.log();
    let answer = db.is_user_privileged(username.as_str());
    assert(db.log().subrange(0, asked.len() as int) =~= asked);
    let privileged = answer?;
    proof {
        vstd::utf8::decode_utf8_encode_utf8(str_bytes_at(data, pos));
    }
    let reply = status_reply_bytes(username.as_str(), privileged);
    assert(reply@ == status_reply(str_at(data, pos), privileged));
    Ok(Some(reply))
}

impl ServerMessage {
    /// Runs the handler of this request on the payload under `reader`.
    pub fn process(
        &self,
        reader: &mut BufferReader,
        peer: PeerAddr,
        db: &mut Db,
        users: &mut ConnectedUsers,
    ) -> (r: Result<Option<Vec<u8>>, ServerError>)
        requires
            old(reader).wf(),
        ensures
            final(reader).data() == old(reader).data(),
            final(reader).wf(),
            handled(
                *self,
                old(reader).data(),
                old(reader).pos(),
                peer,
                old(users)@,
                final(users)@,
                old(db).log(),
                final(db).log(),
                final(reader).pos(),
                reply_view(r),
            ),
    {
        match self {
            ServerMessage::Login => login(reader, peer, db, users),
            ServerMessage::SetWaitPort => set_wait_port(reader, peer, db, users),
            ServerMessage::GetUserStatus => get_user_status(reader, peer, db, users),
            ServerMessage::SetStatus => set_status(reader, peer, db, users),
            ServerMessage::SharedFoldersFiles => shared_folders_files(reader, peer, db, users),
            ServerMessage::RoomList => room_list(reader, peer, db, users),
            ServerMessage::HaveNoParent => have_no_parent(reader, peer, db, users),
            ServerMessage::CheckPrivileges => check_privileges(reader, peer, db, users),
            ServerMessage::AcceptChildren => accept_children(reader, peer, db, users),
            ServerMessage::BranchLevel => branch_level(reader, peer, db, users),
            ServerMessage::BranchRoot => branch_root(reader, peer, db, users),
            ServerMessage::PrivateRoomToggle => private_room_toggle(reader, peer, db, users),
        }
    }
}

} // verus!
