//! Little-endian binary codec: a cursor over received bytes and an
//! append-only writer.
use vstd::bytes::*;
use vstd::prelude::*;
use vstd::utf8::{decode_utf8, encode_utf8, valid_utf8};

verus! {

/// Why handling a message, or a connection, failed.
#[derive(Debug, Clone, Copy, PartialEq, Eq, Structural)]
pub enum ServerError {
    /// A field runs past the end of the message.
    EndOfData,
    /// A string field holds bytes that are not UTF-8.
    InvalidUtf8,
    /// A status field holds a value outside the known statuses.
    InvalidEnumValue,
    /// The handler left bytes of the payload unread.
    PayloadNotFullyConsumed,
    /// The account store failed.
    StorageFailure,
    /// The connection's socket failed or was closed.
    TransportFailure,
}

/// The encoding of a `u32` length prefix followed by `bytes`.
pub open spec fn enc_prefixed(bytes: Seq<u8>) -> Seq<u8> {
    spec_u32_to_le_bytes(bytes.len() as u32) + bytes
}

/// The encoding of a boolean: one byte, 1 for true.
pub open spec fn enc_bool(b: bool) -> Seq<u8> {
    seq![if b { 1u8 } else { 0u8 }]
}

/// The encoding of a string: its UTF-8 bytes behind a length prefix.
pub open spec fn enc_str(s: Seq<char>) -> Seq<u8> {
    enc_prefixed(encode_utf8(s))
}

/// The `u32` stored little-endian at `pos`.
pub open spec fn u32_at(data: Seq<u8>, pos: int) -> u32 {
    spec_u32_from_le_bytes(data.subrange(pos, pos + 4))
}

/// The boolean stored as one byte at `pos`: any nonzero byte is true.
pub open spec fn bool_at(data: Seq<u8>, pos: int) -> bool {
    data[pos] != 0
}

/// Where the bytes of a length-prefixed string that starts at `pos` end.
pub open spec fn str_end(data: Seq<u8>, pos: int) -> int {
    pos + 4 + u32_at(data, pos)
}

/// The bytes of the length-prefixed string that starts at `pos`.
pub open spec fn str_bytes_at(data: Seq<u8>, pos: int) -> Seq<u8> {
    data.subrange(pos + 4, str_end(data, pos))
}

/// The characters of the length-prefixed string that starts at `pos`.
pub open spec fn str_at(data: Seq<u8>, pos: int) -> Seq<char> {
    decode_utf8(str_bytes_at(data, pos))
}

/// The shapes of field that a message carries.
pub enum FieldKind {
    U8,
    Bool,
    U16,
    U32,
    I32,
    U64,
    Str,
}

/// The width of a fixed-width field.
pub open spec fn fixed_width(k: FieldKind) -> int {
    match k {
        FieldKind::U8 | FieldKind::Bool => 1,
        FieldKind::U16 => 2,
        FieldKind::U32 | FieldKind::I32 => 4,
        FieldKind::U64 => 8,
        FieldKind::Str => 4,
    }
}

/// Reading one field of kind `k` at `pos`: where it ends, or why it cannot be read.
pub open spec fn field_end(data: Seq<u8>, pos: int, k: FieldKind) -> Result<int, ServerError> {
    if pos + fixed_width(k) > data.len() {
        Err(ServerError::EndOfData)
    } else if k is Str {
        if str_end(data, pos) > data.len() {
            Err(ServerError::EndOfData)
        } else if !valid_utf8(str_bytes_at(data, pos)) {
            Err(ServerError::InvalidUtf8)
        } else {
            Ok(str_end(data, pos))
        }
    } else {
        Ok(pos + fixed_width(k))
    }
}

/// Reading the fields `ks` one after another from `pos`: where the last
/// ends, or the first failure.
pub open spec fn fields_end(data: Seq<u8>, pos: int, ks: Seq<FieldKind>) -> Result<
    int,
    ServerError,
>
    decreases ks.len(),
{
    if ks.len() == 0 {
        Ok(pos)
    } else {
        match field_end(data, pos, ks[0]) {
            Ok(e) => fields_end(data, e, ks.drop_first()),
            Err(err) => Err(err),
        }
    }
}

/// A cursor over the bytes of one received message.
pub struct BufferReader<'a> {
    buffer: &'a [u8],
    position: usize,
}

impl<'a> BufferReader<'a> {
    /// The bytes being read.
    pub closed spec fn data(&self) -> Seq<u8> {
        self.buffer@
    }

    /// How many bytes have been consumed.
    pub closed spec fn pos(&self) -> int {
        self.position as int
    }

    /// The cursor lies within the bytes.
    pub open spec fn wf(&self) -> bool {
        0 <= self.pos() <= self.data().len()
    }

    /// The effect of a read of field kind `k`, as `field_end` gives it. A
    /// fixed-width read that fails leaves the cursor where it was.
    pub open spec fn read_effect<T>(
        &self,
        after: &Self,
        k: FieldKind,
        r: Result<T, ServerError>,
    ) -> bool {
        &&& after.data() == self.data()
        &&& after.wf()
        &&& r is Ok <==> field_end(self.data(), self.pos(), k) is Ok
        &&& r is Ok ==> after.pos() == field_end(self.data(), self.pos(), k)->Ok_0
        &&& r is Err ==> r->Err_0 == field_end(self.data(), self.pos(), k)->Err_0
        &&& (r is Err && !(k is Str)) ==> after.pos() == self.pos()
    }

    pub fn new(buffer: &'a [u8]) -> (r: Self)
        ensures
            r.data() == buffer@,
            r.pos() == 0,
            r.wf(),
    {
        BufferReader { buffer, position: 0 }
    }

    /// Takes the next `count` bytes, or fails with `EndOfData` and moves nothing.
    pub fn read_bytes(&mut self, count: usize) -> (r: Result<&'a [u8], ServerError>)
        requires
            old(self).wf(),
        ensures
            final(self).data() == old(self).data(),
            final(self).wf(),
            match r {
                Ok(b) => {
                    &&& old(self).pos() + count <= old(self).data().len()
                    &&& b@ == old(self).data().subrange(old(self).pos(), old(self).pos() + count)
                    &&& final(self).pos() == old(self).pos() + count
                },
                Err(e) => {
                    &&& old(self).pos() + count > old(self).data().len()
                    &&& e == ServerError::EndOfData
                    &&& final(self).pos() == old(self).pos()
                },
            },
    {
        if count > self.buffer.len() - self.position {
            return Err(ServerError::EndOfData);
        }
        let slice = vstd::slice::slice_subrange(self.buffer, self.position, self.position + count);
        self.position = self.position + count;
        Ok(slice)
    }

    pub fn read_byte(&mut self) -> (r: Result<u8, ServerError>)
        requires
            old(self).wf(),
        ensures
            old(self).read_effect(&*final(self), FieldKind::U8, r),
            r is Ok ==> r->Ok_0 == old(self).data()[old(self).pos()],
    {
        let bytes = self.read_bytes(1)?;
        Ok(bytes[0])
    }

    pub fn read_u8(&mut self) -> (r: Result<u8, ServerError>)
        requires
            old(self).wf(),
        ensures
            old(self).read_effect(&*final(self), FieldKind::U8, r),
            r is Ok ==> r->Ok_0 == old(self).data()[old(self).pos()],
    {
        self.read_byte()
    }

    /// Reads one byte; any nonzero value is true.
    pub fn read_bool(&mut self) -> (r: Result<bool, ServerError>)
        requires
            old(self).wf(),
        ensures
            old(self).read_effect(&*final(self), FieldKind::Bool, r),
            r is Ok ==> r->Ok_0 == bool_at(old(self).data(), old(self).pos()),
    {
        let b = self.read_u8()?;
        Ok(b != 0)
    }

    pub fn read_u16(&mut self) -> (r: Result<u16, ServerError>)
        requires
            old(self).wf(),
        ensures
            old(self).read_effect(&*final(self), FieldKind::U16, r),
            r is Ok ==> r->Ok_0 == spec_u16_from_le_bytes(
                old(self).data().subrange(old(self).pos(), old(self).pos() + 2),
            ),
    {
        let bytes = self.read_bytes(2)?;
        Ok(u16_from_le_bytes(bytes))
    }

    pub fn read_u32(&mut self) -> (r: Result<u32, ServerError>)
        requires
            old(self).wf(),
        ensures
            old(self).read_effect(&*final(self), FieldKind::U32, r),
            r is Ok ==> r->Ok_0 == u32_at(old(self).data(), old(self).pos()),
    {
        let bytes = self.read_bytes(4)?;
        Ok(u32_from_le_bytes(bytes))
    }

    /// Reads four bytes as a two's-complement `i32`.
    pub fn read_i32(&mut self) -> (r: Result<i32, ServerError>)
        requires
            old(self).wf(),
        ensures
            old(self).read_effect(&*final(self), FieldKind::I32, r),
            r is Ok ==> r->Ok_0 == u32_at(old(self).data(), old(self).pos()) as i32,
    {
        let v = self.read_u32()?;
        Ok(v as i32)
    }

    pub fn read_u64(&mut self) -> (r: Result<u64, ServerError>)
        requires
            old(self).wf(),
        ensures
            old(self).read_effect(&*final(self), FieldKind::U64, r),
            r is Ok ==> r->Ok_0 == spec_u64_from_le_bytes(
                old(self).data().subrange(old(self).pos(), old(self).pos() + 8),
            ),
    {
        let bytes = self.read_bytes(8)?;
        Ok(u64_from_le_bytes(bytes))
    }

    /// Reads a `u32` length, then that many bytes as UTF-8.
    pub fn read_string(&mut self) -> (r: Result<String, ServerError>)
        requires
            old(self).wf(),
        ensures
            old(self).read_effect(&*final(self), FieldKind::Str, r),
            r is Ok ==> r->Ok_0@ == str_at(old(self).data(), old(self).pos()),
    {
        let length = self.read_u32()?;
        let bytes = self.read_bytes(length as usize)?;
        match utf8_str(bytes) {
            Some(s) => {
                proof {
                    vstd::utf8::encode_utf8_decode_utf8(s@);
                }
                Ok(s.to_owned())
            },
            None => Err(ServerError::InvalidUtf8),
        }
    }

    /// True once every byte has been consumed.
    pub fn is_empty(&self) -> (r: bool)
        requires
            self.wf(),
        ensures
            r == (self.pos() == self.data().len()),
    {
        self.position == self.buffer.len()
    }
}

/// Relies on `std::str::from_utf8`: it succeeds exactly on valid UTF-8,
/// and the text it returns has those bytes as its encoding.
#[verifier::external_body]
fn utf8_str(bytes: &[u8]) -> (r: Option<&str>)
    ensures
        r is Some <==> valid_utf8(bytes@),
        r is Some ==> encode_utf8(r->Some_0@) == bytes@,
{
    std::str::from_utf8(bytes).ok()
}

/// A `u32` written by `write_u32` anywhere in a message is read back by
/// `read_u32` at the same place, four bytes long.
pub proof fn lemma_u32_round_trip(pre: Seq<u8>, v: u32, post: Seq<u8>)
    ensures
        field_end(pre + spec_u32_to_le_bytes(v) + post, (pre.len() as int), FieldKind::U32) == Ok::<
            int,
            ServerError,
        >((pre.len() as int) + 4),
        u32_at(pre + spec_u32_to_le_bytes(v) + post, (pre.len() as int)) == v,
{
    lemma_auto_spec_u32_to_from_le_bytes();
    let d = pre + spec_u32_to_le_bytes(v) + post;
    assert(d.subrange((pre.len() as int), (pre.len() as int) + 4) =~= spec_u32_to_le_bytes(v));
}

/// An `i32` written by `write_i32` is read back by `read_i32`.
pub proof fn lemma_i32_round_trip(pre: Seq<u8>, v: i32, post: Seq<u8>)
    ensures
        field_end(pre + spec_u32_to_le_bytes(v as u32) + post, (pre.len() as int), FieldKind::I32)
            == Ok::<int, ServerError>((pre.len() as int) + 4),
        u32_at(pre + spec_u32_to_le_bytes(v as u32) + post, (pre.len() as int)) as i32 == v,
{
    lemma_u32_round_trip(pre, v as u32, post);
    assert((v as u32) as i32 == v) by (bit_vector);
}

/// A `u16` written by `write_u16` is read back by `read_u16`.
pub proof fn lemma_u16_round_trip(pre: Seq<u8>, v: u16, post: Seq<u8>)
    ensures
        field_end(pre + spec_u16_to_le_bytes(v) + post, (pre.len() as int), FieldKind::U16) == Ok::<
            int,
            ServerError,
        >((pre.len() as int) + 2),
        spec_u16_from_le_bytes(
            (pre + spec_u16_to_le_bytes(v) + post).subrange((pre.len() as int), (pre.len() as int) + 2),
        ) == v,
{
    lemma_auto_spec_u16_to_from_le_bytes();
    let d = pre + spec_u16_to_le_bytes(v) + post;
    assert(d.subrange((pre.len() as int), (pre.len() as int) + 2) =~= spec_u16_to_le_bytes(v));
}

/// A `u64` written by `write_u64` is read back by `read_u64`.
pub proof fn lemma_u64_round_trip(pre: Seq<u8>, v: u64, post: Seq<u8>)
    ensures
        field_end(pre + spec_u64_to_le_bytes(v) + post, (pre.len() as int), FieldKind::U64) == Ok::<
            int,
            ServerError,
        >((pre.len() as int) + 8),
        spec_u64_from_le_bytes(
            (pre + spec_u64_to_le_bytes(v) + post).subrange((pre.len() as int), (pre.len() as int) + 8),
        ) == v,
{
    lemma_auto_spec_u64_to_from_le_bytes();
    let d = pre + spec_u64_to_le_bytes(v) + post;
    assert(d.subrange((pre.len() as int), (pre.len() as int) + 8) =~= spec_u64_to_le_bytes(v));
}

/// A byte written by `write_u8` is read back by `read_u8`.
pub proof fn lemma_u8_round_trip(pre: Seq<u8>, v: u8, post: Seq<u8>)
    ensures
        field_end(pre.push(v) + post, (pre.len() as int), FieldKind::U8) == Ok::<int, ServerError>(
            (pre.len() as int) + 1,
        ),
        (pre.push(v) + post)[(pre.len() as int)] == v,
{
}

/// A boolean written by `write_bool` is read back by `read_bool`.
pub proof fn lemma_bool_round_trip(pre: Seq<u8>, v: bool, post: Seq<u8>)
    ensures
        field_end(pre + enc_bool(v) + post, (pre.len() as int), FieldKind::Bool) == Ok::<
            int,
            ServerError,
        >((pre.len() as int) + 1),
        bool_at(pre + enc_bool(v) + post, (pre.len() as int)) == v,
{
    assert((pre + enc_bool(v) + post)[(pre.len() as int)] == enc_bool(v)[0]);
}

/// A string written by `write_string` is read back by `read_string`: the
/// prefix gives its byte length and the bytes decode to the same characters.
pub proof fn lemma_string_round_trip(pre: Seq<u8>, s: Seq<char>, post: Seq<u8>)
    requires
        encode_utf8(s).len() <= u32::MAX,
    ensures
        field_end(pre + enc_str(s) + post, (pre.len() as int), FieldKind::Str) == Ok::<
            int,
            ServerError,
        >((pre.len() as int) + 4 + (encode_utf8(s).len() as int)),
        str_at(pre + enc_str(s) + post, (pre.len() as int)) == s,
{
    lemma_auto_spec_u32_to_from_le_bytes();
    let b = encode_utf8(s);
    let d = pre + enc_str(s) + post;
    assert(d =~= pre + spec_u32_to_le_bytes(b.len() as u32) + (b + post));
    lemma_u32_round_trip(pre, b.len() as u32, b + post);
    assert(str_bytes_at(d, (pre.len() as int)) =~= b);
    vstd::utf8::encode_utf8_valid_utf8(s);
    vstd::utf8::encode_utf8_decode_utf8(s);
}

/// Bytes written by `write_byte_array` are read back by `read_u32` then
/// `read_bytes` of that length.
pub proof fn lemma_byte_array_round_trip(pre: Seq<u8>, b: Seq<u8>, post: Seq<u8>)
    requires
        b.len() <= u32::MAX,
    ensures
        u32_at(pre + enc_prefixed(b) + post, (pre.len() as int)) == b.len(),
        (pre + enc_prefixed(b) + post).subrange((pre.len() as int) + 4, (pre.len() as int) + 4 + (b.len() as int)) == b,
{
    lemma_auto_spec_u32_to_from_le_bytes();
    let d = pre + enc_prefixed(b) + post;
    assert(d =~= pre + spec_u32_to_le_bytes(b.len() as u32) + (b + post));
    lemma_u32_round_trip(pre, b.len() as u32, b + post);
    assert(d.subrange((pre.len() as int) + 4, (pre.len() as int) + 4 + (b.len() as int)) =~= b);
}

/// An append-only byte buffer with chainable writes.
pub struct BufferWriter {
    buffer: Vec<u8>,
}

impl View for BufferWriter {
    type V = Seq<u8>;

    closed spec fn view(&self) -> Seq<u8> {
        self.buffer@
    }
}

impl BufferWriter {
    pub fn new() -> (w: Self)
        ensures
            w@ == Seq::<u8>::empty(),
    {
        BufferWriter { buffer: Vec::new() }
    }

    fn append(&mut self, bytes: &[u8])
        ensures
            final(self)@ == old(self)@ + bytes@,
    {
        let ghost start = self.buffer@;
        let mut i: usize = 0;
        while i < bytes.len()
            invariant
                i <= bytes@.len(),
                self.buffer@ == start + bytes@.subrange(0, i as int),
            decreases bytes@.len() - i,
        {
            self.buffer.push(bytes[i]);
            i = i + 1;
            assert(self.buffer@ =~= start + bytes@.subrange(0, i as int));
        }
        assert(bytes@.subrange(0, i as int) =~= bytes@);
    }

    pub fn write_u8(&mut self, value: u8) -> (r: &mut Self)
        ensures
            (*r)@ == old(self)@.push(value),
            *final(self) == *final(r),
    {
        self.buffer.push(value);
        self
    }

    pub fn write_u16(&mut self, value: u16) -> (r: &mut Self)
        ensures
            (*r)@ == old(self)@ + spec_u16_to_le_bytes(value),
            *final(self) == *final(r),
    {
        let bytes = u16_to_le_bytes(value);
        self.append(bytes.as_slice());
        self
    }

    pub fn write_u32(&mut self, value: u32) -> (r: &mut Self)
        ensures
            (*r)@ == old(self)@ + spec_u32_to_le_bytes(value),
            *final(self) == *final(r),
    {
        let bytes = u32_to_le_bytes(value);
        self.append(bytes.as_slice());
        self
    }

    pub fn write_i32(&mut self, value: i32) -> (r: &mut Self)
        ensures
            (*r)@ == old(self)@ + spec_u32_to_le_bytes(value as u32),
            *final(self) == *final(r),
    {
        self.write_u32(value as u32)
    }

    pub fn write_u64(&mut self, value: u64) -> (r: &mut Self)
        ensures
            (*r)@ == old(self)@ + spec_u64_to_le_bytes(value),
            *final(self) == *final(r),
    {
        let bytes = u64_to_le_bytes(value);
        self.append(bytes.as_slice());
        self
    }

    pub fn write_bool(&mut self, value: bool) -> (r: &mut Self)
        ensures
            (*r)@ == old(self)@ + enc_bool(value),
            *final(self) == *final(r),
    {
        self.buffer.push(if value { 1u8 } else { 0u8 });
        assert(self.buffer@ =~= old(self)@ + enc_bool(value));
        self
    }

    /// Writes a string as its UTF-8 bytes behind a `u32` length prefix.
    pub fn write_string(&mut self, value: &str) -> (r: &mut Self)
        requires
            encode_utf8(value@).len() <= u32::MAX,
        ensures
            (*r)@ == old(self)@ + enc_str(value@),
            *final(self) == *final(r),
    {
        self.write_u32(value.len() as u32);
        self.append(value.as_bytes());
        assert(self.buffer@ =~= old(self)@ + enc_str(value@));
        self
    }

    /// Writes raw bytes behind a `u32` length prefix.
    pub fn write_byte_array(&mut self, bytes: &[u8]) -> (r: &mut Self)
        requires
            bytes@.len() <= u32::MAX,
        ensures
            (*r)@ == old(self)@ + enc_prefixed(bytes@),
            *final(self) == *final(r),
    {
        self.write_u32(bytes.len() as u32);
        self.append(bytes);
        assert(self.buffer@ =~= old(self)@ + enc_prefixed(bytes@));
        self
    }

    /// The bytes written so far.
    pub fn buffer(&self) -> (r: &[u8])
        ensures
            r@ == self@,
    {
        self.buffer.as_slice()
    }

    /// A copy of the bytes written so far.
    pub fn to_vec(&self) -> (r: Vec<u8>)
        ensures
            r@ == self@,
    {
        self.buffer.clone()
    }
}

} // verus!
