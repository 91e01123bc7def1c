//! The frame format spoken between the daemon and its greeters.
//!
//! A frame is an eight-byte header (the magic `1w`, a two-letter type tag and the
//! big-endian length of the body) followed by the body.
use vstd::prelude::*;
use vstd::utf8::{decode_utf8, encode_utf8, valid_utf8};
use bytes::BytesMut;
use crate::support::buffer::{
    bytes_contents, buf_len, buf_byte, buf_reserve, buf_put_i16, buf_put_u32, buf_extend,
    buf_split_to,
};
use crate::support::text::{str_byte_len, string_from_utf8};
use crate::support::wire::{i16_be, lemma_u32_be_value, u32_be};
pub use crate::common::error::IpcError;

verus! {

/// The first two bytes of every frame: `'1'` and `'w'`.
pub const MAGIC: i16 = 0x3177;

/// The size of a frame header in bytes.
pub const HEADER_SIZE: usize = 8;

/// The tag `CH`.
pub const TAG_CLIENT_HELLO: [u8; 2] = [0x43, 0x48];

/// The tag `SH`.
pub const TAG_SERVER_HELLO: [u8; 2] = [0x53, 0x48];

/// The tag `CB`.
pub const TAG_CLIENT_BYE: [u8; 2] = [0x43, 0x42];

/// The tag `RA`.
pub const TAG_REQUEST_AUTHENTICATION: [u8; 2] = [0x52, 0x41];

/// A message exchanged over the IPC socket.
#[derive(Debug, Clone)]
pub enum IpcMessage {
    ClientHello,
    ServerHello,
    ClientBye,
    /// A user name and a secret to check.
    RequestAuthentication(String, String),
}

/// A message as specifications see it: the strings by their characters.
pub enum MessageView {
    ClientHello,
    ServerHello,
    ClientBye,
    RequestAuthentication(Seq<char>, Seq<char>),
}

impl View for IpcMessage {
    type V = MessageView;

    open spec fn view(&self) -> MessageView {
        match self {
            IpcMessage::ClientHello => MessageView::ClientHello,
            IpcMessage::ServerHello => MessageView::ServerHello,
            IpcMessage::ClientBye => MessageView::ClientBye,
            IpcMessage::RequestAuthentication(user, secret) => MessageView::RequestAuthentication(
                user@,
                secret@,
            ),
        }
    }
}

/// Encoder and decoder of IPC frames.
#[derive(Debug)]
pub struct IpcMessageCodec;

/// What decoding at a position yields: nothing yet, or a message and the position after it.
pub type DecodeResult = Result<Option<(IpcMessage, usize)>, IpcError>;

/// What decoding yields, as specifications see it.
pub type FrameView = Result<Option<(MessageView, usize)>, IpcError>;

/// The view of a decoding result.
pub open spec fn decode_result_view(r: DecodeResult) -> FrameView {
    match r {
        Ok(Some((m, n))) => Ok(Some((m@, n))),
        Ok(None) => Ok(None),
        Err(e) => Err(e),
    }
}

/// The two-letter tag that names the type of `m` on the wire.
pub open spec fn message_tag(m: IpcMessage) -> Seq<u8> {
    match m {
        IpcMessage::ClientHello => seq![0x43u8, 0x48u8],
        IpcMessage::ServerHello => seq![0x53u8, 0x48u8],
        IpcMessage::ClientBye => seq![0x43u8, 0x42u8],
        IpcMessage::RequestAuthentication(_, _) => seq![0x52u8, 0x41u8],
    }
}

/// The number of bytes that the UTF-8 encoding of `s` takes.
pub open spec fn utf8_len(s: String) -> nat {
    encode_utf8(s@).len()
}

/// The body length that the header of `m` announces.
pub open spec fn payload_len(m: IpcMessage) -> nat {
    match m {
        IpcMessage::RequestAuthentication(user, secret) => utf8_len(user) + utf8_len(secret) + 8,
        _ => 0,
    }
}

/// The header of the frame of `m`.
pub open spec fn frame_header(m: IpcMessage) -> Seq<u8> {
    i16_be(MAGIC) + message_tag(m) + u32_be(payload_len(m) as u32)
}

/// The body of the frame of `m`: for an authentication request, each string preceded by
/// its length.
pub open spec fn frame_body(m: IpcMessage) -> Seq<u8> {
    match m {
        IpcMessage::RequestAuthentication(user, secret) => u32_be(utf8_len(user) as u32)
            + encode_utf8(user@) + u32_be(utf8_len(secret) as u32) + encode_utf8(secret@),
        _ => Seq::empty(),
    }
}

/// The bytes that encoding `m` appends.
pub open spec fn encode_frame(m: IpcMessage) -> Seq<u8> {
    frame_header(m) + frame_body(m)
}

/// Whether `s` holds the tag `a b` at `i`.
pub open spec fn tag_at(s: Seq<u8>, i: int, a: u8, b: u8) -> bool {
    s[i] == a && s[i + 1] == b
}

/// The big-endian number in the four bytes of `s` from `i`.
pub open spec fn be_u32_at(s: Seq<u8>, i: int) -> int {
    s[i] as int * 16777216 + s[i + 1] as int * 65536 + s[i + 2] as int * 256 + s[i + 3] as int
}

/// The user name and secret in the body of an authentication request: two strings, each
/// after its big-endian length, that fill the body exactly and are well-formed UTF-8.
pub open spec fn auth_body_view(body: Seq<u8>) -> Option<(Seq<char>, Seq<char>)> {
    if body.len() < 4 {
        None
    } else {
        let ul = be_u32_at(body, 0);
        if body.len() < 8 + ul {
            None
        } else {
            let sl = be_u32_at(body, 4 + ul);
            if body.len() != 8 + ul + sl {
                None
            } else {
                let ub = body.subrange(4, 4 + ul);
                let sb = body.subrange(8 + ul, body.len() as int);
                if valid_utf8(ub) && valid_utf8(sb) {
                    Some((decode_utf8(ub), decode_utf8(sb)))
                } else {
                    None
                }
            }
        }
    }
}

/// What decoding `s` at `idx` yields.
///
/// Nothing is there when `idx` is at or past the end; a buffer shorter than a header is an
/// error; otherwise the magic and the tag decide. A bodiless message takes its header. An
/// authentication request takes its header and the body whose length the header gives;
/// until all of it has arrived there is nothing yet.
pub open spec fn decode_at(s: Seq<u8>, idx: int) -> FrameView {
    if s.len() <= idx {
        Ok(None)
    } else if s.len() < HEADER_SIZE {
        Err(IpcError::HeaderTooShort)
    } else if !tag_at(s, idx, 0x31, 0x77) {
        Err(IpcError::WrongMagic)
    } else if tag_at(s, idx + 2, 0x43, 0x48) {
        Ok(Some((MessageView::ClientHello, (idx + HEADER_SIZE) as usize)))
    } else if tag_at(s, idx + 2, 0x53, 0x48) {
        Ok(Some((MessageView::ServerHello, (idx + HEADER_SIZE) as usize)))
    } else if tag_at(s, idx + 2, 0x43, 0x42) {
        Ok(Some((MessageView::ClientBye, (idx + HEADER_SIZE) as usize)))
    } else if tag_at(s, idx + 2, 0x52, 0x41) {
        if s.len() < idx + HEADER_SIZE {
            Ok(None)
        } else {
            let end = idx + HEADER_SIZE + be_u32_at(s, idx + 4);
            if s.len() < end {
                Ok(None)
            } else {
                match auth_body_view(s.subrange(idx + HEADER_SIZE, end)) {
                    Some((user, secret)) => Ok(
                        Some((MessageView::RequestAuthentication(user, secret), end as usize)),
                    ),
                    None => Err(IpcError::MalformedBody),
                }
            }
        }
    } else {
        Err(IpcError::UnknownMessageType)
    }
}

/// The inputs on which decoding at `idx` would read past the end of `s`.
pub open spec fn decode_reads_past_end(s: Seq<u8>, idx: int) -> bool {
    &&& idx < s.len()
    &&& s.len() >= HEADER_SIZE
    &&& (idx + 2 > s.len() || (tag_at(s, idx, 0x31, 0x77) && idx + 4 > s.len()))
}

/// What decoding a buffer from its start yields.
pub open spec fn decode_frame(s: Seq<u8>) -> FrameView {
    decode_at(s, 0)
}

impl IpcMessage {
    /// The two-letter tag of this message's type.
    pub fn message_type(&self) -> (t: &'static [u8; 2])
        ensures
            t@ == message_tag(*self),
    {
        match *self {
            IpcMessage::ClientHello => &TAG_CLIENT_HELLO,
            IpcMessage::ServerHello => &TAG_SERVER_HELLO,
            IpcMessage::ClientBye => &TAG_CLIENT_BYE,
            IpcMessage::RequestAuthentication(_, _) => &TAG_REQUEST_AUTHENTICATION,
        }
    }
}

impl IpcMessageCodec {
    /// Appends the frame of `msg` to `buf`.
    pub fn encode(&mut self, msg: IpcMessage, buf: &mut BytesMut) -> (r: Result<(), IpcError>)
        requires
            bytes_contents(*old(buf)).len() + encode_frame(msg).len() <= isize::MAX,
        ensures
            r is Ok,
            bytes_contents(*final(buf)) == bytes_contents(*old(buf)) + encode_frame(msg),
    {
        proof {
            lemma_frame_length(msg);
        }
        let len: usize = match &msg {
            IpcMessage::ClientHello => 0,
            IpcMessage::ServerHello => 0,
            IpcMessage::ClientBye => 0,
            IpcMessage::RequestAuthentication(user, secret) => user.as_str().len()
                + secret.as_str().len() + 8,
        };
        assert(len == payload_len(msg));

        buf_reserve(buf, HEADER_SIZE + len);
        buf_put_i16(buf, MAGIC);
        buf_extend(buf, msg.message_type().as_slice());
        buf_put_u32(buf, len as u32);
        assert(bytes_contents(*buf) == bytes_contents(*old(buf)) + frame_header(msg));

        match &msg {
            IpcMessage::RequestAuthentication(user, secret) => {
                let ghost before = bytes_contents(*buf);
                buf_put_u32(buf, user.as_str().len() as u32);
                buf_extend(buf, user.as_str().as_bytes());
                buf_put_u32(buf, secret.as_str().len() as u32);
                buf_extend(buf, secret.as_str().as_bytes());
                assert(bytes_contents(*buf) == before + frame_body(msg));
            },
            _ => {
                assert(frame_body(msg) == Seq::<u8>::empty());
            },
        };
        Ok(())
    }

    /// Appends the frame of `msg` to `buf` when the buffer can grow by that much (to at most
    /// `isize::MAX` bytes); otherwise hands `msg` back and leaves `buf` as it was.
    pub fn encode_checked(&mut self, msg: IpcMessage, buf: &mut BytesMut) -> (r: Result<(), IpcMessage>)
        ensures
            bytes_contents(*old(buf)).len() + encode_frame(msg).len() <= isize::MAX ==> {
                &&& r is Ok
                &&& bytes_contents(*final(buf)) == bytes_contents(*old(buf)) + encode_frame(msg)
            },
            bytes_contents(*old(buf)).len() + encode_frame(msg).len() > isize::MAX ==> {
                &&& r == Err::<(), IpcMessage>(msg)
                &&& bytes_contents(*final(buf)) == bytes_contents(*old(buf))
            },
    {
        proof {
            lemma_frame_length(msg);
        }
        let held: u128 = buf_len(buf) as u128;
        let frame: u128 = match &msg {
            IpcMessage::RequestAuthentication(user, secret) => {
                let u: usize = str_byte_len(user.as_str());
                let s: usize = str_byte_len(secret.as_str());
                HEADER_SIZE as u128 + u as u128 + s as u128 + 8
            },
            _ => HEADER_SIZE as u128,
        };
        assert(frame == encode_frame(msg).len());
        if held + frame <= isize::MAX as u128 {
            let _ = self.encode(msg, buf);
            Ok(())
        } else {
            Err(msg)
        }
    }

    /// Takes one frame off the front of `buf`.
    ///
    /// Yields `None` on an empty buffer or an incomplete authentication request, and an error
    /// where [`decode_frame`] gives one; in those cases `buf` is left as it was. Otherwise the
    /// decoded frame is removed from `buf`.
    pub fn decode(&mut self, buf: &mut BytesMut) -> (r: Result<Option<IpcMessage>, IpcError>)
        ensures
            match decode_frame(bytes_contents(*old(buf))) {
                Ok(Some((m, n))) => {
                    &&& r matches Ok(Some(got)) && got@ == m
                    &&& bytes_contents(*final(buf)) == bytes_contents(*old(buf)).skip(n as int)
                },
                Ok(None) => {
                    &&& r == Ok::<Option<IpcMessage>, IpcError>(None)
                    &&& bytes_contents(*final(buf)) == bytes_contents(*old(buf))
                },
                Err(e) => {
                    &&& r == Err::<Option<IpcMessage>, IpcError>(e)
                    &&& bytes_contents(*final(buf)) == bytes_contents(*old(buf))
                },
            },
            r matches Ok(Some(_)) ==> bytes_contents(*old(buf)).len() >= 2 && bytes_contents(
                *old(buf),
            ).subrange(0, 2) == i16_be(MAGIC),
            bytes_contents(*old(buf)).len() >= HEADER_SIZE && bytes_contents(*old(buf)).subrange(
                0,
                2,
            ) != i16_be(MAGIC) ==> r == Err::<Option<IpcMessage>, IpcError>(IpcError::WrongMagic)
                && bytes_contents(*final(buf)) == bytes_contents(*old(buf)),
    {
        proof {
            lemma_decode_requires_magic(bytes_contents(*buf));
        }
        match decode(buf, 0) {
            Ok(None) => Ok(None),
            Ok(Some((item, pos))) => {
                let _ = buf_split_to(buf, pos);
                Ok(Some(item))
            },
            Err(e) => Err(e),
        }
    }
}

/// Decodes the frame that starts at `idx` in `buf`, without consuming it.
fn decode(buf: &BytesMut, idx: usize) -> (r: DecodeResult)
    requires
        !decode_reads_past_end(bytes_contents(*buf), idx as int),
        idx + HEADER_SIZE <= usize::MAX,
    ensures
        decode_result_view(r) == decode_at(bytes_contents(*buf), idx as int),
{
    let length: usize = buf_len(buf);
    if length <= idx {
        return Ok(None);
    }
    if length < HEADER_SIZE {
        return Err(IpcError::HeaderTooShort);
    }
    let magic0: u8 = buf_byte(buf, idx);
    let magic1: u8 = buf_byte(buf, idx + 1);
    if magic0 != 0x31 || magic1 != 0x77 {
        return Err(IpcError::WrongMagic);
    }
    let type0: u8 = buf_byte(buf, idx + 2);
    let type1: u8 = buf_byte(buf, idx + 3);
    if type0 == 0x43 && type1 == 0x48 {
        Ok(Some((IpcMessage::ClientHello, idx + HEADER_SIZE)))
    } else if type0 == 0x53 && type1 == 0x48 {
        Ok(Some((IpcMessage::ServerHello, idx + HEADER_SIZE)))
    } else if type0 == 0x43 && type1 == 0x42 {
        Ok(Some((IpcMessage::ClientBye, idx + HEADER_SIZE)))
    } else if type0 == 0x52 && type1 == 0x41 {
        if length < idx + HEADER_SIZE {
            return Ok(None);
        }
        let body_len: u32 = read_u32_be(buf, idx + 4);
        if (length as u128) < (idx as u128) + (HEADER_SIZE as u128) + (body_len as u128) {
            return Ok(None);
        }
        let start: usize = idx + HEADER_SIZE;
        let end: usize = start + body_len as usize;
        match decode_auth_body(buf, start, end) {
            Some((user, secret)) => Ok(Some((IpcMessage::RequestAuthentication(user, secret), end))),
            None => Err(IpcError::MalformedBody),
        }
    } else {
        Err(IpcError::UnknownMessageType)
    }
}

/// Reads the big-endian number in the four bytes of `buf` from `i`.
fn read_u32_be(buf: &BytesMut, i: usize) -> (v: u32)
    requires
        i + 4 <= bytes_contents(*buf).len(),
        i + 4 <= usize::MAX,
    ensures
        v == be_u32_at(bytes_contents(*buf), i as int),
{
    let b0: u32 = buf_byte(buf, i) as u32;
    let b1: u32 = buf_byte(buf, i + 1) as u32;
    let b2: u32 = buf_byte(buf, i + 2) as u32;
    let b3: u32 = buf_byte(buf, i + 3) as u32;
    b0 * 16777216 + b1 * 65536 + b2 * 256 + b3
}

/// Copies the bytes of `buf` from `start` up to `end`.
fn copy_range(buf: &BytesMut, start: usize, end: usize) -> (v: Vec<u8>)
    requires
        start <= end <= bytes_contents(*buf).len(),
    ensures
        v@ == bytes_contents(*buf).subrange(start as int, end as int),
{
    let mut v: Vec<u8> = Vec::new();
    let mut i: usize = start;
    while i < end
        invariant
            start <= i <= end,
            end <= bytes_contents(*buf).len(),
            v@ == bytes_contents(*buf).subrange(start as int, i as int),
        decreases end - i,
    {
        let b: u8 = buf_byte(buf, i);
        v.push(b);
        i = i + 1;
        assert(v@ =~= bytes_contents(*buf).subrange(start as int, i as int));
    }
    v
}

/// Reads the user name and secret from the body of an authentication request, which lies in
/// `buf` from `start` up to `end`.
fn decode_auth_body(buf: &BytesMut, start: usize, end: usize) -> (r: Option<(String, String)>)
    requires
        start <= end <= bytes_contents(*buf).len(),
    ensures
        match auth_body_view(bytes_contents(*buf).subrange(start as int, end as int)) {
            Some((user, secret)) => r matches Some((u, s)) && u@ == user && s@ == secret,
            None => r is None,
        },
{
    let ghost s = bytes_contents(*buf);
    let ghost body = s.subrange(start as int, end as int);
    let n: usize = end - start;
    if n < 4 {
        return None;
    }
    let user_len: u32 = read_u32_be(buf, start);
    assert(user_len == be_u32_at(body, 0));
    if (n as u128) < 8 + (user_len as u128) {
        return None;
    }
    let user_end: usize = start + 4 + user_len as usize;
    let secret_len: u32 = read_u32_be(buf, user_end);
    assert(secret_len == be_u32_at(body, 4 + user_len));
    if (n as u128) != 8 + (user_len as u128) + (secret_len as u128) {
        return None;
    }
    let user_bytes = copy_range(buf, start + 4, user_end);
    let secret_bytes = copy_range(buf, user_end + 4, end);
    assert(user_bytes@ =~= body.subrange(4, 4 + user_len));
    assert(secret_bytes@ =~= body.subrange(8 + user_len, body.len() as int));
    let user = match string_from_utf8(user_bytes) {
        Some(u) => u,
        None => return None,
    };
    let secret = match string_from_utf8(secret_bytes) {
        Some(p) => p,
        None => return None,
    };
    Some((user, secret))
}

/// The magic number is written as the bytes `'1'` and `'w'`.
pub proof fn lemma_magic_bytes()
    ensures
        i16_be(MAGIC) == seq![0x31u8, 0x77u8],
{
    assert(i16_be(MAGIC) =~= seq![0x31u8, 0x77u8]);
}

/// Every frame is a header of `HEADER_SIZE` bytes followed by as many body bytes as the
/// header announces.
pub proof fn lemma_frame_length(m: IpcMessage)
    ensures
        frame_header(m).len() == HEADER_SIZE,
        frame_body(m).len() == payload_len(m),
        encode_frame(m).len() == HEADER_SIZE + payload_len(m),
{
}

/// Every frame starts with the magic bytes `1w`, followed by the type tag of its message.
pub proof fn lemma_frame_header(m: IpcMessage)
    ensures
        encode_frame(m)[0] == 0x31u8,
        encode_frame(m)[1] == 0x77u8,
        encode_frame(m).subrange(2, 4) == message_tag(m),
{
    lemma_magic_bytes();
    assert(encode_frame(m).subrange(2, 4) =~= message_tag(m));
}

/// Two messages share a type tag exactly when they are of the same kind.
pub proof fn lemma_message_tags_distinct(m1: IpcMessage, m2: IpcMessage)
    ensures
        message_tag(m1) == message_tag(m2) <==> {
            ||| m1 is ClientHello && m2 is ClientHello
            ||| m1 is ServerHello && m2 is ServerHello
            ||| m1 is ClientBye && m2 is ClientBye
            ||| m1 is RequestAuthentication && m2 is RequestAuthentication
        },
{
    if message_tag(m1) == message_tag(m2) {
        assert(message_tag(m1)[0] == message_tag(m2)[0]);
        assert(message_tag(m1)[1] == message_tag(m2)[1]);
    }
}

/// Whether the header of `m` can announce its body length: it has to fit the four-byte
/// length field.
pub open spec fn frame_fits_length_field(m: IpcMessage) -> bool {
    payload_len(m) <= u32::MAX
}

/// The number in a big-endian four-byte field is read back as written.
proof fn lemma_be_field(s: Seq<u8>, i: int, v: u32)
    requires
        0 <= i,
        i + 4 <= s.len(),
        s.subrange(i, i + 4) == u32_be(v),
    ensures
        be_u32_at(s, i) == v as int,
{
    assert(s[i] == u32_be(v)[0] && s[i + 1] == u32_be(v)[1]);
    assert(s[i + 2] == u32_be(v)[2] && s[i + 3] == u32_be(v)[3]);
    lemma_u32_be_value(v);
}

/// The body that encoding an authentication request writes is read back as its user name
/// and secret.
proof fn lemma_auth_body_roundtrip(user: String, secret: String)
    requires
        utf8_len(user) + utf8_len(secret) + 8 <= u32::MAX,
    ensures
        auth_body_view(frame_body(IpcMessage::RequestAuthentication(user, secret)))
            == Some((user@, secret@)),
{
    broadcast use vstd::utf8::encode_utf8_valid_utf8, vstd::utf8::encode_utf8_decode_utf8;

    let m = IpcMessage::RequestAuthentication(user, secret);
    let body = frame_body(m);
    let ub = encode_utf8(user@);
    let sb = encode_utf8(secret@);
    let ul: int = ub.len() as int;
    let sl: int = sb.len() as int;
    assert(body.len() == 8 + ul + sl);
    assert(body.subrange(0, 4) =~= u32_be(ul as u32));
    lemma_be_field(body, 0, ul as u32);
    assert(body.subrange(4 + ul, 8 + ul) =~= u32_be(sl as u32));
    lemma_be_field(body, 4 + ul, sl as u32);
    assert(body.subrange(4, 4 + ul) =~= ub);
    assert(body.subrange(8 + ul, body.len() as int) =~= sb);
}

/// Decoding what encoding wrote gives the message back and consumes exactly its frame,
/// whatever follows it. For an authentication request the body must fit the header's
/// four-byte length field.
pub proof fn lemma_encode_decode_roundtrip(m: IpcMessage, rest: Seq<u8>)
    requires
        frame_fits_length_field(m),
    ensures
        decode_frame(encode_frame(m) + rest) == Ok::<Option<(MessageView, usize)>, IpcError>(
            Some((m@, (HEADER_SIZE + payload_len(m)) as usize)),
        ),
        (encode_frame(m) + rest).skip(HEADER_SIZE + payload_len(m)) == rest,
{
    lemma_magic_bytes();
    lemma_frame_length(m);
    let s = encode_frame(m) + rest;
    let n = HEADER_SIZE + payload_len(m);
    assert(s[0] == 0x31u8 && s[1] == 0x77u8);
    assert(s[2] == message_tag(m)[0] && s[3] == message_tag(m)[1]);
    assert(s.skip(n as int) =~= rest);
    if let IpcMessage::RequestAuthentication(user, secret) = m {
        assert(s.subrange(4, 8) =~= u32_be(payload_len(m) as u32));
        lemma_be_field(s, 4, payload_len(m) as u32);
        assert(s.subrange(HEADER_SIZE as int, n as int) =~= frame_body(m));
        lemma_auth_body_roundtrip(user, secret);
    }
}

/// A decoded frame lies within the buffer, and decoding does not look past it: the same
/// bytes followed by anything else decode the same way. (A buffer holds at most
/// `usize::MAX` bytes.)
pub proof fn lemma_decode_no_lookahead(s: Seq<u8>, t: Seq<u8>)
    requires
        s.len() <= usize::MAX,
    ensures
        decode_frame(s) matches Ok(Some((m, n))) ==> {
            &&& HEADER_SIZE <= n <= s.len()
            &&& decode_frame(s.take(n as int) + t) == decode_frame(s)
        },
{
    if let Ok(Some((m, n))) = decode_frame(s) {
        assert(s.len() >= HEADER_SIZE);
        assert(HEADER_SIZE <= n <= s.len());
        let u = s.take(n as int) + t;
        assert(forall|i: int| 0 <= i < n ==> u[i] == s[i]);
        assert(u[0] == s[0] && u[1] == s[1] && u[2] == s[2] && u[3] == s[3]);
        if tag_at(s, 2, 0x52, 0x41) {
            assert(u[4] == s[4] && u[5] == s[5] && u[6] == s[6] && u[7] == s[7]);
            let end = HEADER_SIZE + be_u32_at(s, 4);
            assert(end <= n);
            assert(u.subrange(HEADER_SIZE as int, end) =~= s.subrange(HEADER_SIZE as int, end));
        }
    }
}

/// Decoding yields a message only from a buffer that starts with the two bytes every frame
/// starts with (the magic `1w`); a buffer of a full header that starts otherwise is refused
/// as `WrongMagic`.
pub proof fn lemma_decode_requires_magic(s: Seq<u8>)
    ensures
        decode_frame(s) matches Ok(Some(_)) ==> s.len() >= 2 && s.subrange(0, 2) == i16_be(
            MAGIC,
        ),
        decode_frame(s) matches Ok(Some(_)) ==> forall|m: IpcMessage|
            #[trigger] encode_frame(m).subrange(0, 2) == s.subrange(0, 2),
        s.len() >= HEADER_SIZE && s.subrange(0, 2) != i16_be(MAGIC) ==> decode_frame(s)
            == Err::<Option<(MessageView, usize)>, IpcError>(IpcError::WrongMagic),
{
    lemma_magic_bytes();
    if s.len() >= 2 {
        if s[0] == 0x31u8 && s[1] == 0x77u8 {
            assert(s.subrange(0, 2) =~= i16_be(MAGIC));
        } else {
            assert(s.subrange(0, 2)[0] == s[0] && s.subrange(0, 2)[1] == s[1]);
        }
    }
    assert forall|m: IpcMessage| s.len() >= 2 && s[0] == 0x31u8 && s[1] == 0x77u8 implies
        #[trigger] encode_frame(m).subrange(0, 2) == s.subrange(0, 2) by {
        lemma_frame_header(m);
        assert(encode_frame(m).subrange(0, 2) =~= s.subrange(0, 2));
    }
}

} // verus!
