//! LMP messages and their binary frames.
//!
//! A frame is the four magic bytes `LUMI`, the protocol version, the packet
//! type, the stream id, the length of the JSON header and the length of the
//! payload (each a 32-bit big-endian integer), then the header and the
//! payload. Reading a frame is done in steps by a [`FrameReader`]: each step
//! asks for a number of bytes, checks them, and says what comes next.
use super::error::LmpError;
use std::collections::HashMap;
use vstd::prelude::*;
use vstd::utf8::encode_utf8;

verus! {

/// The protocol version that frames carry.
pub const PROTOCOL_VERSION: u8 = 1;

/// The largest JSON header a frame may announce: 10 MiB.
pub const MAX_HEADER_LEN: u32 = 10 * 1024 * 1024;

/// The largest payload a frame may announce: 100 MiB.
pub const MAX_PAYLOAD_LEN: u32 = 100 * 1024 * 1024;

/// The kind of an LMP packet.
#[derive(Debug, Clone, Copy, PartialEq, Eq, Structural)]
pub enum PacketType {
    Request,
    Response,
    Ping,
    Pong,
    Error,
}

/// The byte that stands for a packet type on the wire.
pub open spec fn packet_code(t: PacketType) -> u8 {
    match t {
        PacketType::Request => 1,
        PacketType::Response => 2,
        PacketType::Ping => 3,
        PacketType::Pong => 4,
        PacketType::Error => 5,
    }
}

/// The packet type that a byte stands for, if any.
pub open spec fn packet_of_code(b: u8) -> Option<PacketType> {
    if b == 1 {
        Some(PacketType::Request)
    } else if b == 2 {
        Some(PacketType::Response)
    } else if b == 3 {
        Some(PacketType::Ping)
    } else if b == 4 {
        Some(PacketType::Pong)
    } else if b == 5 {
        Some(PacketType::Error)
    } else {
        None
    }
}

impl PacketType {
    /// The packet type that `val` stands for on the wire.
    pub fn from_u8(val: u8) -> (r: Option<PacketType>)
        ensures
            r == packet_of_code(val),
    {
        match val {
            1 => Some(PacketType::Request),
            2 => Some(PacketType::Response),
            3 => Some(PacketType::Ping),
            4 => Some(PacketType::Pong),
            5 => Some(PacketType::Error),
            _ => None,
        }
    }

    /// The byte that stands for this packet type on the wire.
    pub fn to_u8(&self) -> (r: u8)
        ensures
            r == packet_code(*self),
    {
        match self {
            PacketType::Request => 1,
            PacketType::Response => 2,
            PacketType::Ping => 3,
            PacketType::Pong => 4,
            PacketType::Error => 5,
        }
    }
}

/// Every packet type is read back from its own byte.
pub proof fn law_packet_code_roundtrip(t: PacketType)
    ensures
        packet_of_code(packet_code(t)) == Some(t),
{
}

/// The metadata of an LMP message.
#[derive(Debug, Clone)]
pub struct LmpHeader {
    pub uri: String,
    pub method: String,
    pub status_code: u16,
    pub status_message: String,
    pub content_type: String,
    pub metadata: HashMap<String, String>,
}

impl Default for LmpHeader {
    /// A `GET` header for no URI, with status 200 `OK`, content type
    /// `text/lumiml` and no metadata.
    fn default() -> (r: Self)
        ensures
            r.uri@ == Seq::<char>::empty(),
            r.method@ == "GET"@,
            r.status_code == 200,
            r.status_message@ == "OK"@,
            r.content_type@ == "text/lumiml"@,
            r.metadata@ == Map::<String, String>::empty(),
    {
        LmpHeader {
            uri: String::new(),
            method: String::from_str("GET"),
            status_code: 200,
            status_message: String::from_str("OK"),
            content_type: String::from_str("text/lumiml"),
            metadata: HashMap::new(),
        }
    }
}

/// An LMP message: a packet type, the stream it belongs to, its header and
/// its payload.
#[derive(Debug, Clone)]
pub struct LmpMessage {
    pub packet_type: PacketType,
    pub stream_id: u32,
    pub header: LmpHeader,
    pub payload: Vec<u8>,
}

impl LmpMessage {
    /// A `GET` request for `uri` on the given stream, with no payload.
    pub fn new_request(uri: &str, stream_id: u32) -> (m: LmpMessage)
        ensures
            m.packet_type == PacketType::Request,
            m.stream_id == stream_id,
            m.header.uri@ == uri@,
            m.header.method@ == "GET"@,
            m.header.status_code == 200,
            m.header.status_message@ == "OK"@,
            m.header.content_type@ == "text/lumiml"@,
            m.header.metadata@ == Map::<String, String>::empty(),
            m.payload@ == Seq::<u8>::empty(),
    {
        let mut header = LmpHeader::default();
        header.uri = String::from_str(uri);
        header.method = String::from_str("GET");
        LmpMessage { packet_type: PacketType::Request, stream_id, header, payload: Vec::new() }
    }

    /// A successful response on the given stream, carrying `payload` of the
    /// given content type.
    pub fn new_response(stream_id: u32, content_type: &str, payload: Vec<u8>) -> (m: LmpMessage)
        ensures
            m.packet_type == PacketType::Response,
            m.stream_id == stream_id,
            m.header.uri@ == Seq::<char>::empty(),
            m.header.method@ == "GET"@,
            m.header.status_code == 200,
            m.header.status_message@ == "OK"@,
            m.header.content_type@ == content_type@,
            m.header.metadata@ == Map::<String, String>::empty(),
            m.payload@ == payload@,
    {
        let mut header = LmpHeader::default();
        header.status_code = 200;
        header.status_message = String::from_str("OK");
        header.content_type = String::from_str(content_type);
        LmpMessage { packet_type: PacketType::Response, stream_id, header, payload }
    }

    /// An error on the given stream: the status code and message in the
    /// header, and the message again, in UTF-8, as a plain-text payload.
    pub fn new_error(stream_id: u32, status_code: u16, message: &str) -> (m: LmpMessage)
        ensures
            m.packet_type == PacketType::Error,
            m.stream_id == stream_id,
            m.header.uri@ == Seq::<char>::empty(),
            m.header.method@ == "GET"@,
            m.header.status_code == status_code,
            m.header.status_message@ == message@,
            m.header.content_type@ == "text/plain"@,
            m.header.metadata@ == Map::<String, String>::empty(),
            m.payload@ == encode_utf8(message@),
    {
        let mut header = LmpHeader::default();
        header.status_code = status_code;
        header.status_message = String::from_str(message);
        header.content_type = String::from_str("text/plain");
        let payload = vstd::slice::slice_to_vec(message.as_bytes());
        LmpMessage { packet_type: PacketType::Error, stream_id, header, payload }
    }
}


// ---------------------------------------------------------------------
// Frames.
// ---------------------------------------------------------------------
/// The four bytes of `x`, most significant first.
pub open spec fn be32(x: u32) -> Seq<u8> {
    seq![(x >> 24u32) as u8, ((x >> 16u32) & 0xff) as u8, ((x >> 8u32) & 0xff) as u8, (x & 0xff) as u8]
}

/// The number that four bytes write, most significant first.
pub open spec fn from_be32(b: Seq<u8>) -> u32 {
    ((b[0] as u32) << 24u32) | ((b[1] as u32) << 16u32) | ((b[2] as u32) << 8u32) | (b[3] as u32)
}

/// The magic bytes `LUMI` that start every frame.
pub open spec fn magic() -> Seq<u8> {
    seq![0x4cu8, 0x55u8, 0x4du8, 0x49u8]
}

/// The frame of a message with the given packet type, stream id, JSON
/// header and payload. Each length is written in 32 bits.
pub open spec fn frame_bytes(pt: PacketType, stream_id: u32, header: Seq<u8>, payload: Seq<u8>) -> Seq<u8> {
    magic() + seq![PROTOCOL_VERSION, packet_code(pt)] + be32(stream_id) + be32(header.len() as u32)
        + be32(payload.len() as u32) + header + payload
}

/// Reading back the big-endian bytes of a number gives the number.
pub proof fn lemma_be32_roundtrip(x: u32)
    ensures
        from_be32(be32(x)) == x,
{
    let b0 = (x >> 24u32) as u8;
    let b1 = ((x >> 16u32) & 0xff) as u8;
    let b2 = ((x >> 8u32) & 0xff) as u8;
    let b3 = (x & 0xff) as u8;
    assert(((b0 as u32) << 24u32) | ((b1 as u32) << 16u32) | ((b2 as u32) << 8u32) | (b3 as u32)
        == x) by (bit_vector)
        requires
            b0 == (x >> 24u32) as u8,
            b1 == ((x >> 16u32) & 0xff) as u8,
            b2 == ((x >> 8u32) & 0xff) as u8,
            b3 == (x & 0xff) as u8,
    ;
}

fn push_be32(out: &mut Vec<u8>, x: u32)
    ensures
        final(out)@ == old(out)@ + be32(x),
{
    out.push((x >> 24u32) as u8);
    out.push(((x >> 16u32) & 0xff) as u8);
    out.push(((x >> 8u32) & 0xff) as u8);
    out.push((x & 0xff) as u8);
    assert(final(out)@ =~= old(out)@ + be32(x));
}

fn push_all(out: &mut Vec<u8>, bytes: &[u8])
    ensures
        final(out)@ == old(out)@ + bytes@,
{
    let mut i: usize = 0;
    while i < bytes.len()
        invariant
            i <= bytes@.len(),
            out@ == old(out)@ + bytes@.take(i as int),
        decreases bytes.len() - i,
    {
        out.push(bytes[i]);
        i = i + 1;
        assert(out@ =~= old(out)@ + bytes@.take(i as int));
    }
    assert(bytes@.take(i as int) =~= bytes@);
}

fn read_be32(b: &[u8]) -> (r: u32)
    requires
        b@.len() == 4,
    ensures
        r == from_be32(b@),
{
    ((b[0] as u32) << 24u32) | ((b[1] as u32) << 16u32) | ((b[2] as u32) << 8u32) | (b[3] as u32)
}

impl LmpMessage {
    /// The frame of this message, with `header_json` as its encoded header.
    /// Lengths are written in 32 bits: a longer header or payload has its
    /// length cut to the low 32 bits, as the wire format holds no more.
    pub fn encode_frame(&self, header_json: &[u8]) -> (r: Vec<u8>)
        ensures
            r@ == frame_bytes(self.packet_type, self.stream_id, header_json@, self.payload@),
    {
        let mut out: Vec<u8> = Vec::new();
        out.push(0x4c);
        out.push(0x55);
        out.push(0x4d);
        out.push(0x49);
        out.push(PROTOCOL_VERSION);
        out.push(self.packet_type.to_u8());
        push_be32(&mut out, self.stream_id);
        push_be32(&mut out, header_json.len() as u32);
        push_be32(&mut out, self.payload.len() as u32);
        push_all(&mut out, header_json);
        push_all(&mut out, self.payload.as_slice());
        assert(out@ =~= frame_bytes(self.packet_type, self.stream_id, header_json@, self.payload@));
        out
    }
}

/// What a frame reader reads next.
#[derive(Debug, Clone, Copy, PartialEq, Eq, Structural)]
pub enum FrameStage {
    Magic,
    VersionType,
    StreamId,
    HeaderLen,
    PayloadLen,
    Header,
    Payload,
    Done,
}

/// What a step of reading has reached.
#[derive(Debug, Clone, Copy, PartialEq, Eq, Structural)]
pub enum FrameEvent {
    /// More bytes are needed.
    Continue,
    /// The header bytes are all read; the payload comes next.
    HeaderReady,
    /// The frame is complete.
    Complete,
}

/// Why a frame was rejected.
pub enum FrameFault {
    BadMagic,
    BadVersion(u8),
    BadPacketType,
    TooLarge(u32),
}

/// What a frame reader has read so far.
pub struct ReaderState {
    pub stage: FrameStage,
    pub packet_type: PacketType,
    pub stream_id: u32,
    pub header_len: u32,
    pub payload_len: u32,
    pub header: Seq<u8>,
    pub payload: Seq<u8>,
}

/// A reader that has read nothing.
pub open spec fn reader_start() -> ReaderState {
    ReaderState {
        stage: FrameStage::Magic,
        packet_type: PacketType::Request,
        stream_id: 0,
        header_len: 0,
        payload_len: 0,
        header: Seq::empty(),
        payload: Seq::empty(),
    }
}

/// How many bytes the next step reads.
pub open spec fn needed(st: ReaderState) -> nat {
    match st.stage {
        FrameStage::Magic => 4,
        FrameStage::VersionType => 2,
        FrameStage::StreamId => 4,
        FrameStage::HeaderLen => 4,
        FrameStage::PayloadLen => 4,
        FrameStage::Header => st.header_len as nat,
        FrameStage::Payload => st.payload_len as nat,
        FrameStage::Done => 0,
    }
}

pub open spec fn stage_index(s: FrameStage) -> int {
    match s {
        FrameStage::Magic => 0,
        FrameStage::VersionType => 1,
        FrameStage::StreamId => 2,
        FrameStage::HeaderLen => 3,
        FrameStage::PayloadLen => 4,
        FrameStage::Header => 5,
        FrameStage::Payload => 6,
        FrameStage::Done => 7,
    }
}

/// One step of reading a frame, given the bytes that the step asked for.
/// The magic bytes, the version and the packet type are checked as soon as
/// they are read; the two lengths are checked against the limits before
/// any of the header is read. A finished reader stays finished.
pub open spec fn step(st: ReaderState, chunk: Seq<u8>) -> Result<(ReaderState, FrameEvent), FrameFault> {
    match st.stage {
        FrameStage::Magic => if chunk == magic() {
            Ok((ReaderState { stage: FrameStage::VersionType, ..st }, FrameEvent::Continue))
        } else {
            Err(FrameFault::BadMagic)
        },
        FrameStage::VersionType => if chunk[0] != PROTOCOL_VERSION {
            Err(FrameFault::BadVersion(chunk[0]))
        } else {
            match packet_of_code(chunk[1]) {
                None => Err(FrameFault::BadPacketType),
                Some(pt) => Ok(
                    (
                        ReaderState { stage: FrameStage::StreamId, packet_type: pt, ..st },
                        FrameEvent::Continue,
                    ),
                ),
            }
        },
        FrameStage::StreamId => Ok(
            (
                ReaderState { stage: FrameStage::HeaderLen, stream_id: from_be32(chunk), ..st },
                FrameEvent::Continue,
            ),
        ),
        FrameStage::HeaderLen => Ok(
            (
                ReaderState { stage: FrameStage::PayloadLen, header_len: from_be32(chunk), ..st },
                FrameEvent::Continue,
            ),
        ),
        FrameStage::PayloadLen => {
            let plen = from_be32(chunk);
            if st.header_len > MAX_HEADER_LEN || plen > MAX_PAYLOAD_LEN {
                Err(FrameFault::TooLarge(plen))
            } else {
                Ok(
                    (
                        ReaderState { stage: FrameStage::Header, payload_len: plen, ..st },
                        FrameEvent::Continue,
                    ),
                )
            }
        },
        FrameStage::Header => Ok(
            (ReaderState { stage: FrameStage::Payload, header: chunk, ..st }, FrameEvent::HeaderReady),
        ),
        FrameStage::Payload => Ok(
            (ReaderState { stage: FrameStage::Done, payload: chunk, ..st }, FrameEvent::Complete),
        ),
        FrameStage::Done => Ok((st, FrameEvent::Complete)),
    }
}

/// Why reading a whole frame from a byte sequence failed.
pub enum RunFault {
    Fault(FrameFault),
    ShortInput,
}

/// Reading a frame from the start of `bytes`, step by step: the state at
/// the end and the bytes that follow the frame.
pub open spec fn run(st: ReaderState, bytes: Seq<u8>) -> Result<(ReaderState, Seq<u8>), RunFault>
    decreases bytes.len(), 7 - stage_index(st.stage),
{
    if st.stage == FrameStage::Done {
        Ok((st, bytes))
    } else if bytes.len() < needed(st) {
        Err(RunFault::ShortInput)
    } else {
        match step(st, bytes.take(needed(st) as int)) {
            Err(f) => Err(RunFault::Fault(f)),
            Ok((next, _)) => run(next, bytes.skip(needed(st) as int)),
        }
    }
}

/// The error that a rejected frame is reported with.
pub open spec fn fault_error(f: FrameFault, e: LmpError) -> bool {
    match f {
        FrameFault::BadMagic => e is InvalidMagic,
        FrameFault::BadVersion(v) => e == LmpError::UnsupportedVersion(v),
        FrameFault::BadPacketType => e matches LmpError::Serialization(m) && m@ == "Invalid packet type"@,
        FrameFault::TooLarge(p) => e == LmpError::PayloadTooLarge(p as usize),
    }
}

/// The stream ids of one connection. Each request on a connection takes a
/// stream id that no earlier request on it took: ids are handed out in
/// increasing order from 1.
pub struct StreamIds {
    next: u32,
}

impl View for StreamIds {
    type V = int;

    /// The id that the next request takes.
    closed spec fn view(&self) -> int {
        self.next as int
    }
}

impl StreamIds {
    /// The ids of a new connection: the first request takes id 1.
    pub fn new() -> (r: StreamIds)
        ensures
            r@ == 1,
    {
        StreamIds { next: 1 }
    }

    /// The id for the next request, and the counter moved past it; `None`
    /// once every id above the earlier ones has been taken.
    pub fn issue(&mut self) -> (id: Option<u32>)
        ensures
            match id {
                Some(i) => i == old(self)@ && final(self)@ == old(self)@ + 1,
                None => old(self)@ == u32::MAX && final(self)@ == old(self)@,
            },
            0 < final(self)@ <= u32::MAX,
    {
        proof {
            use_type_invariant(&*self);
        }
        if self.next == u32::MAX {
            None
        } else {
            let id = self.next;
            self.next = self.next + 1;
            Some(id)
        }
    }

    #[verifier::type_invariant]
    spec fn counter_positive(&self) -> bool {
        self.next > 0
    }
}

/// Two ids that one connection's counter hands out, one after the other
/// with any number of ids between, are different: the later one is
/// greater, because the counter moves past each id it hands out and never
/// moves back.
pub proof fn law_stream_ids_distinct(before: int, first: u32, after: int, later: int, second: u32)
    requires
        first == before,
        after == before + 1,
        later >= after,
        second == later,
    ensures
        first < second,
{
}

/// Reads one frame in steps: [`FrameReader::bytes_needed`] says how many
/// bytes to read next and [`FrameReader::feed`] takes them.
pub struct FrameReader {
    stage: FrameStage,
    packet_type: PacketType,
    stream_id: u32,
    header_len: u32,
    payload_len: u32,
    header: Vec<u8>,
    payload: Vec<u8>,
}

impl View for FrameReader {
    type V = ReaderState;

    closed spec fn view(&self) -> ReaderState {
        ReaderState {
            stage: self.stage,
            packet_type: self.packet_type,
            stream_id: self.stream_id,
            header_len: self.header_len,
            payload_len: self.payload_len,
            header: self.header@,
            payload: self.payload@,
        }
    }
}

impl FrameReader {
    /// A reader that has read nothing.
    pub fn new() -> (r: FrameReader)
        ensures
            r@ == reader_start(),
    {
        FrameReader {
            stage: FrameStage::Magic,
            packet_type: PacketType::Request,
            stream_id: 0,
            header_len: 0,
            payload_len: 0,
            header: Vec::new(),
            payload: Vec::new(),
        }
    }

    /// How many bytes the next step reads.
    pub fn bytes_needed(&self) -> (n: usize)
        ensures
            n == needed(self@),
    {
        match self.stage {
            FrameStage::Magic => 4,
            FrameStage::VersionType => 2,
            FrameStage::StreamId => 4,
            FrameStage::HeaderLen => 4,
            FrameStage::PayloadLen => 4,
            FrameStage::Header => self.header_len as usize,
            FrameStage::Payload => self.payload_len as usize,
            FrameStage::Done => 0,
        }
    }

    /// Whether the whole frame has been read.
    pub fn is_complete(&self) -> (b: bool)
        ensures
            b == (self@.stage == FrameStage::Done),
    {
        self.stage == FrameStage::Done
    }

    /// The header bytes read so far.
    pub fn header_bytes(&self) -> (h: &[u8])
        ensures
            h@ == self@.header,
    {
        self.header.as_slice()
    }

    /// Takes the bytes of the next step, which must be as many as
    /// `bytes_needed` says: the reader moves on, or the frame is rejected.
    pub fn feed(&mut self, chunk: &[u8]) -> (r: Result<FrameEvent, LmpError>)
        requires
            chunk@.len() == needed(old(self)@),
        ensures
            match step(old(self)@, chunk@) {
                Ok((st, ev)) => r == Ok::<FrameEvent, LmpError>(ev) && final(self)@ == st,
                Err(f) => r matches Err(e) && fault_error(f, e),
            },
    {
        match self.stage {
            FrameStage::Magic => {
                if chunk[0] == 0x4c && chunk[1] == 0x55 && chunk[2] == 0x4d && chunk[3] == 0x49 {
                    assert(chunk@ =~= magic());
                    self.stage = FrameStage::VersionType;
                    Ok(FrameEvent::Continue)
                } else {
                    proof {
                        if chunk@ == magic() {
                            assert(chunk@[0] == 0x4c);
                        }
                    }
                    Err(LmpError::InvalidMagic)
                }
            },
            FrameStage::VersionType => {
                if chunk[0] != PROTOCOL_VERSION {
                    return Err(LmpError::UnsupportedVersion(chunk[0]));
                }
                match PacketType::from_u8(chunk[1]) {
                    None => Err(LmpError::Serialization(String::from_str("Invalid packet type"))),
                    Some(pt) => {
                        self.packet_type = pt;
                        self.stage = FrameStage::StreamId;
                        Ok(FrameEvent::Continue)
                    },
                }
            },
            FrameStage::StreamId => {
                self.stream_id = read_be32(chunk);
                self.stage = FrameStage::HeaderLen;
                Ok(FrameEvent::Continue)
            },
            FrameStage::HeaderLen => {
                self.header_len = read_be32(chunk);
                self.stage = FrameStage::PayloadLen;
                Ok(FrameEvent::Continue)
            },
            FrameStage::PayloadLen => {
                let plen = read_be32(chunk);
                if self.header_len > MAX_HEADER_LEN || plen > MAX_PAYLOAD_LEN {
                    return Err(LmpError::PayloadTooLarge(plen as usize));
                }
                self.payload_len = plen;
                self.stage = FrameStage::Header;
                Ok(FrameEvent::Continue)
            },
            FrameStage::Header => {
                self.header = vstd::slice::slice_to_vec(chunk);
                self.stage = FrameStage::Payload;
                Ok(FrameEvent::HeaderReady)
            },
            FrameStage::Payload => {
                self.payload = vstd::slice::slice_to_vec(chunk);
                self.stage = FrameStage::Done;
                Ok(FrameEvent::Complete)
            },
            FrameStage::Done => Ok(FrameEvent::Complete),
        }
    }

    /// The message that a complete frame carries, with `header` decoded
    /// from the frame's header bytes.
    pub fn into_message(self, header: LmpHeader) -> (m: LmpMessage)
        requires
            self@.stage == FrameStage::Done,
        ensures
            m.packet_type == self@.packet_type,
            m.stream_id == self@.stream_id,
            m.header == header,
            m.payload@ == self@.payload,
    {
        LmpMessage {
            packet_type: self.packet_type,
            stream_id: self.stream_id,
            header,
            payload: self.payload,
        }
    }
}

/// A step of reading consumes exactly the bytes it asked for.
pub proof fn lemma_run_step(st: ReaderState, chunk: Seq<u8>, tail: Seq<u8>)
    requires
        st.stage != FrameStage::Done,
        chunk.len() == needed(st),
        step(st, chunk) is Ok,
    ensures
        run(st, chunk + tail) == run(step(st, chunk)->Ok_0.0, tail),
{
    assert((chunk + tail).take(chunk.len() as int) =~= chunk);
    assert((chunk + tail).skip(chunk.len() as int) =~= tail);
}

/// Reading back the frame of a message gives back its packet type, stream
/// id, header bytes and payload, and leaves the bytes that follow the frame
/// unread, when the header and the payload are within the limits.
pub proof fn law_frame_roundtrip(
    pt: PacketType,
    stream_id: u32,
    header: Seq<u8>,
    payload: Seq<u8>,
    rest: Seq<u8>,
)
    requires
        header.len() <= MAX_HEADER_LEN,
        payload.len() <= MAX_PAYLOAD_LEN,
    ensures
        run(reader_start(), frame_bytes(pt, stream_id, header, payload) + rest) == Ok::<
            (ReaderState, Seq<u8>),
            RunFault,
        >(
            (
                ReaderState {
                    stage: FrameStage::Done,
                    packet_type: pt,
                    stream_id,
                    header_len: header.len() as u32,
                    payload_len: payload.len() as u32,
                    header,
                    payload,
                },
                rest,
            ),
        ),
{
    let hl = header.len() as u32;
    let pl = payload.len() as u32;
    let vt = seq![PROTOCOL_VERSION, packet_code(pt)];
    let t6 = payload + rest;
    let t5 = header + t6;
    let t4 = be32(pl) + t5;
    let t3 = be32(hl) + t4;
    let t2 = be32(stream_id) + t3;
    let t1 = vt + t2;
    assert(frame_bytes(pt, stream_id, header, payload) + rest =~= magic() + t1);
    let s0 = reader_start();
    lemma_run_step(s0, magic(), t1);
    let s1 = ReaderState { stage: FrameStage::VersionType, ..s0 };
    law_packet_code_roundtrip(pt);
    lemma_run_step(s1, vt, t2);
    let s2 = ReaderState { stage: FrameStage::StreamId, packet_type: pt, ..s1 };
    lemma_be32_roundtrip(stream_id);
    lemma_run_step(s2, be32(stream_id), t3);
    let s3 = ReaderState { stage: FrameStage::HeaderLen, stream_id, ..s2 };
    lemma_be32_roundtrip(hl);
    lemma_run_step(s3, be32(hl), t4);
    let s4 = ReaderState { stage: FrameStage::PayloadLen, header_len: hl, ..s3 };
    lemma_be32_roundtrip(pl);
    lemma_run_step(s4, be32(pl), t5);
    let s5 = ReaderState { stage: FrameStage::Header, payload_len: pl, ..s4 };
    lemma_run_step(s5, header, t6);
    let s6 = ReaderState { stage: FrameStage::Payload, header, ..s5 };
    lemma_run_step(s6, payload, rest);
}

/// The frame that a reader finished: its packet type, stream id, header
/// and payload.
pub open spec fn finished(pt: PacketType, stream_id: u32, header: Seq<u8>, payload: Seq<u8>) -> ReaderState {
    ReaderState {
        stage: FrameStage::Done,
        packet_type: pt,
        stream_id,
        header_len: header.len() as u32,
        payload_len: payload.len() as u32,
        header,
        payload,
    }
}

/// Two frames written one after the other are read back one after the
/// other: the first read gives the first message and leaves exactly the
/// second frame and what follows it; the second read gives the second
/// message and leaves what follows.
pub proof fn law_two_frames(
    pt1: PacketType,
    id1: u32,
    header1: Seq<u8>,
    payload1: Seq<u8>,
    pt2: PacketType,
    id2: u32,
    header2: Seq<u8>,
    payload2: Seq<u8>,
    rest: Seq<u8>,
)
    requires
        header1.len() <= MAX_HEADER_LEN,
        payload1.len() <= MAX_PAYLOAD_LEN,
        header2.len() <= MAX_HEADER_LEN,
        payload2.len() <= MAX_PAYLOAD_LEN,
    ensures
        ({
            let second = frame_bytes(pt2, id2, header2, payload2) + rest;
            &&& run(reader_start(), frame_bytes(pt1, id1, header1, payload1) + second) == Ok::<
                (ReaderState, Seq<u8>),
                RunFault,
            >((finished(pt1, id1, header1, payload1), second))
            &&& run(reader_start(), second) == Ok::<(ReaderState, Seq<u8>), RunFault>(
                (finished(pt2, id2, header2, payload2), rest),
            )
        }),
{
    let second = frame_bytes(pt2, id2, header2, payload2) + rest;
    law_frame_roundtrip(pt1, id1, header1, payload1, second);
    law_frame_roundtrip(pt2, id2, header2, payload2, rest);
}

/// When reading `y` finishes a frame and leaves `rest`, reading any start
/// of `y` that ends inside the frame stops for want of bytes.
proof fn lemma_run_prefix_short(st: ReaderState, y: Seq<u8>, x: Seq<u8>, rest: Seq<u8>, done: ReaderState)
    requires
        run(st, y) == Ok::<(ReaderState, Seq<u8>), RunFault>((done, rest)),
        x.len() + rest.len() < y.len(),
        x == y.take(x.len() as int),
    ensures
        run(st, x) == Err::<(ReaderState, Seq<u8>), RunFault>(RunFault::ShortInput),
    decreases y.len(), 7 - stage_index(st.stage),
{
    if st.stage != FrameStage::Done {
        let n = needed(st) as int;
        if x.len() >= n {
            assert(x.take(n) =~= y.take(n));
            let next = step(st, y.take(n))->Ok_0.0;
            assert(x.skip(n) =~= y.skip(n).take(x.len() - n));
            lemma_run_prefix_short(next, y.skip(n), x.skip(n), rest, done);
        }
    }
}

/// Reading any proper start of a frame within the limits, the empty one
/// included, stops for want of bytes and reports no fault.
pub proof fn law_frame_prefix_short(
    pt: PacketType,
    stream_id: u32,
    header: Seq<u8>,
    payload: Seq<u8>,
    k: int,
)
    requires
        header.len() <= MAX_HEADER_LEN,
        payload.len() <= MAX_PAYLOAD_LEN,
        0 <= k < frame_bytes(pt, stream_id, header, payload).len(),
    ensures
        run(reader_start(), frame_bytes(pt, stream_id, header, payload).take(k)) == Err::<
            (ReaderState, Seq<u8>),
            RunFault,
        >(RunFault::ShortInput),
{
    let f = frame_bytes(pt, stream_id, header, payload);
    law_frame_roundtrip(pt, stream_id, header, payload, Seq::empty());
    assert(f + Seq::<u8>::empty() =~= f);
    lemma_run_prefix_short(
        reader_start(),
        f,
        f.take(k),
        Seq::empty(),
        finished(pt, stream_id, header, payload),
    );
}

/// A frame that does not start with the magic bytes is rejected as soon
/// as its first four bytes are read.
pub proof fn law_bad_magic_rejected(bytes: Seq<u8>)
    requires
        bytes.len() >= 4,
        bytes.take(4) != magic(),
    ensures
        run(reader_start(), bytes) matches Err(RunFault::Fault(FrameFault::BadMagic)),
{
}

/// A frame of another protocol version is rejected, with that version, as
/// soon as its version byte is read.
pub proof fn law_bad_version_rejected(version: u8, code: u8, rest: Seq<u8>)
    requires
        version != PROTOCOL_VERSION,
    ensures
        run(reader_start(), magic() + seq![version, code] + rest) == Err::<
            (ReaderState, Seq<u8>),
            RunFault,
        >(RunFault::Fault(FrameFault::BadVersion(version))),
{
    let bytes = magic() + seq![version, code] + rest;
    assert(bytes.take(4) =~= magic());
    let s1 = ReaderState { stage: FrameStage::VersionType, ..reader_start() };
    assert(bytes.skip(4).take(2) =~= seq![version, code]);
    assert(run(s1, bytes.skip(4)) == Err::<(ReaderState, Seq<u8>), RunFault>(
        RunFault::Fault(FrameFault::BadVersion(version)),
    ));
}

/// A frame whose packet type byte names no packet type is rejected as soon
/// as that byte is read.
pub proof fn law_bad_packet_type_rejected(code: u8, rest: Seq<u8>)
    requires
        packet_of_code(code) is None,
    ensures
        run(reader_start(), magic() + seq![PROTOCOL_VERSION, code] + rest) == Err::<
            (ReaderState, Seq<u8>),
            RunFault,
        >(RunFault::Fault(FrameFault::BadPacketType)),
{
    let bytes = magic() + seq![PROTOCOL_VERSION, code] + rest;
    assert(bytes.take(4) =~= magic());
    let s1 = ReaderState { stage: FrameStage::VersionType, ..reader_start() };
    assert(bytes.skip(4).take(2) =~= seq![PROTOCOL_VERSION, code]);
    assert(run(s1, bytes.skip(4)) == Err::<(ReaderState, Seq<u8>), RunFault>(
        RunFault::Fault(FrameFault::BadPacketType),
    ));
}

/// A frame that announces a header or payload over the limits is rejected
/// once its lengths are read, before any of its header is read.
pub proof fn law_oversized_rejected(pt: PacketType, stream_id: u32, header_len: u32, payload_len: u32)
    requires
        header_len > MAX_HEADER_LEN || payload_len > MAX_PAYLOAD_LEN,
    ensures
        run(
            reader_start(),
            magic() + seq![PROTOCOL_VERSION, packet_code(pt)] + be32(stream_id) + be32(header_len)
                + be32(payload_len),
        ) == Err::<(ReaderState, Seq<u8>), RunFault>(
            RunFault::Fault(FrameFault::TooLarge(payload_len)),
        ),
{
    let f0 = magic() + seq![PROTOCOL_VERSION, packet_code(pt)] + be32(stream_id) + be32(header_len)
        + be32(payload_len);
    let s0 = reader_start();
    assert(f0.take(4) =~= magic());
    let f1 = f0.skip(4);
    assert(f1 =~= seq![PROTOCOL_VERSION, packet_code(pt)] + be32(stream_id) + be32(header_len)
        + be32(payload_len));
    let s1 = ReaderState { stage: FrameStage::VersionType, ..s0 };
    assert(run(s0, f0) == run(s1, f1));
    assert(f1.take(2) =~= seq![PROTOCOL_VERSION, packet_code(pt)]);
    law_packet_code_roundtrip(pt);
    let f2 = f1.skip(2);
    assert(f2 =~= be32(stream_id) + be32(header_len) + be32(payload_len));
    let s2 = ReaderState { stage: FrameStage::StreamId, packet_type: pt, ..s1 };
    assert(run(s1, f1) == run(s2, f2));
    lemma_be32_roundtrip(stream_id);
    assert(f2.take(4) =~= be32(stream_id));
    let f3 = f2.skip(4);
    assert(f3 =~= be32(header_len) + be32(payload_len));
    let s3 = ReaderState { stage: FrameStage::HeaderLen, stream_id, ..s2 };
    assert(run(s2, f2) == run(s3, f3));
    lemma_be32_roundtrip(header_len);
    assert(f3.take(4) =~= be32(header_len));
    let f4 = f3.skip(4);
    assert(f4 =~= be32(payload_len));
    let s4 = ReaderState { stage: FrameStage::PayloadLen, header_len, ..s3 };
    assert(run(s3, f3) == run(s4, f4));
    lemma_be32_roundtrip(payload_len);
    assert(f4.take(4) =~= be32(payload_len));
}

} // verus!
