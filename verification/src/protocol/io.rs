//! Framing: every message travels as a little-endian `u32` that holds the
//! length of the payload, followed by the payload.

use core::marker::PhantomData;
use vstd::prelude::*;

verus! {

/// Number of bytes of the length prefix.
pub const HEADER_LEN: usize = 4;

/// The four bytes of `n`, least significant first.
pub open spec fn spec_le_bytes(n: u32) -> Seq<u8> {
    seq![
        (n % 256) as u8,
        ((n / 256) % 256) as u8,
        ((n / 65536) % 256) as u8,
        (n / 16777216) as u8,
    ]
}

/// The number whose bytes, least significant first, are the first four of
/// `bytes`.
pub open spec fn spec_from_le_bytes(bytes: Seq<u8>) -> u32
    recommends
        bytes.len() >= 4,
{
    (bytes[0] + bytes[1] * 256 + bytes[2] * 65536 + bytes[3] * 16777216) as u32
}

/// Reading back the bytes of a number gives the number.
pub proof fn lemma_le_bytes_roundtrip(n: u32)
    ensures
        spec_le_bytes(n).len() == 4,
        spec_from_le_bytes(spec_le_bytes(n)) == n,
{
}

/// A payload as it travels: its length, then the payload itself.
pub open spec fn spec_encode_frame(payload: Seq<u8>) -> Seq<u8>
    recommends
        payload.len() <= u32::MAX,
{
    spec_le_bytes(payload.len() as u32) + payload
}

/// The four bytes of `n`, least significant first.
pub fn le_bytes(n: u32) -> (bytes: [u8; 4])
    ensures
        bytes@ == spec_le_bytes(n),
{
    let bytes = [(n % 256) as u8, ((n / 256) % 256) as u8, ((n / 65536) % 256) as u8, (n
        / 16777216) as u8];
    bytes
}

/// The number that the first four bytes of `bytes` spell, least significant
/// first.
pub fn from_le_bytes(bytes: &[u8]) -> (n: u32)
    requires
        bytes@.len() >= 4,
    ensures
        n == spec_from_le_bytes(bytes@),
{
    (bytes[0] as u32) + (bytes[1] as u32) * 256 + (bytes[2] as u32) * 65536 + (bytes[3] as u32)
        * 16777216
}

/// Frames a payload for writing: the result is written to the peer in one
/// call.
pub fn encode_frame(payload: &[u8]) -> (frame: Vec<u8>)
    requires
        payload@.len() <= u32::MAX,
    ensures
        frame@ == spec_encode_frame(payload@),
{
    let header = le_bytes(payload.len() as u32);
    let mut frame: Vec<u8> = Vec::with_capacity(HEADER_LEN);
    frame.push(header[0]);
    frame.push(header[1]);
    frame.push(header[2]);
    frame.push(header[3]);
    let mut i: usize = 0;
    while i < payload.len()
        invariant
            i <= payload.len(),
            frame@ == spec_le_bytes(payload@.len() as u32) + payload@.take(i as int),
        decreases payload.len() - i,
    {
        frame.push(payload[i]);
        i = i + 1;
    }
    frame
}

/// Where the reader stands between two reads.
#[derive(Debug, Clone, Copy, PartialEq, Eq, Structural)]
pub enum ReadState {
    /// Reading the length prefix.
    Start,
    /// Reading a payload of the given length.
    Size(u32),
}

/// What a read meant for the stream of messages.
#[derive(Debug, Clone, PartialEq, Eq)]
pub enum Progress {
    /// The bytes were kept; the message is not complete yet.
    NeedMore,
    /// A message is complete: this is its payload.
    Frame(Vec<u8>),
    /// The peer closed the connection between two messages.
    End,
    /// The peer closed the connection in the middle of a message.
    UnexpectedEof,
}

/// `Progress` with the payload as a sequence of bytes.
pub enum ProgressView {
    NeedMore,
    Frame(Seq<u8>),
    End,
    UnexpectedEof,
}

impl View for Progress {
    type V = ProgressView;

    open spec fn view(&self) -> ProgressView {
        match self {
            Progress::NeedMore => ProgressView::NeedMore,
            Progress::Frame(payload) => ProgressView::Frame(payload@),
            Progress::End => ProgressView::End,
            Progress::UnexpectedEof => ProgressView::UnexpectedEof,
        }
    }
}

/// What the reader has of the message that is arriving.
pub struct ReaderView {
    pub state: ReadState,
    /// The bytes of the length prefix (in `Start`) or of the payload (in
    /// `Size`) that have arrived.
    pub pending: Seq<u8>,
}

impl ReaderView {
    /// The reader before the first byte of a message.
    pub open spec fn initial() -> ReaderView {
        ReaderView { state: ReadState::Start, pending: Seq::empty() }
    }

    /// Number of bytes that the part being read has in all.
    pub open spec fn target(self) -> int {
        match self.state {
            ReadState::Start => 4,
            ReadState::Size(n) => n as int,
        }
    }

    /// The reader always lacks at least one byte of the part being read.
    pub open spec fn wf(self) -> bool {
        self.pending.len() < self.target()
    }

    /// Number of bytes that the part being read still lacks.
    pub open spec fn wanted(self) -> int {
        self.target() - self.pending.len()
    }

    /// The reader after a read that gave `bytes`, and what the read meant.
    ///
    /// A read that gives nothing is the end of the stream if no byte of a
    /// message has arrived, and an unexpected end otherwise. Bytes are kept
    /// until the part being read is complete. A complete length prefix gives
    /// the length of the payload to read next; an empty payload is complete
    /// at once. A complete payload is handed out and the reader starts over.
    pub open spec fn feed(self, bytes: Seq<u8>) -> (ReaderView, ProgressView) {
        let have = self.pending + bytes;
        if bytes.len() == 0 {
            if self.state == ReadState::Start && self.pending.len() == 0 {
                (self, ProgressView::End)
            } else {
                (self, ProgressView::UnexpectedEof)
            }
        } else if have.len() < self.target() {
            (ReaderView { state: self.state, pending: have }, ProgressView::NeedMore)
        } else {
            match self.state {
                ReadState::Start => if spec_from_le_bytes(have) == 0 {
                    (ReaderView::initial(), ProgressView::Frame(Seq::empty()))
                } else {
                    (
                        ReaderView {
                            state: ReadState::Size(spec_from_le_bytes(have)),
                            pending: Seq::empty(),
                        },
                        ProgressView::NeedMore,
                    )
                },
                ReadState::Size(_) => (ReaderView::initial(), ProgressView::Frame(have)),
            }
        }
    }
}

/// Reading a message in two pieces is reading it in one: if the first piece
/// does not complete the part being read, the reader is where it would be had
/// both pieces come together.
pub proof fn lemma_feed_in_pieces(reader: ReaderView, first: Seq<u8>, second: Seq<u8>)
    requires
        reader.wf(),
        first.len() > 0,
        second.len() > 0,
        first.len() + second.len() <= reader.wanted(),
    ensures
        reader.feed(first).1 == ProgressView::NeedMore,
        reader.feed(first).0.wf(),
        reader.feed(first).0.feed(second) == reader.feed(first + second),
{
    assert(reader.pending + first + second =~= reader.pending + (first + second));
}

/// A framed payload that arrives as its length prefix and then its payload
/// is handed out as it was framed, and the reader is ready for the next
/// message.
pub proof fn lemma_frame_roundtrip(payload: Seq<u8>)
    requires
        payload.len() <= u32::MAX,
    ensures
        ({
            let header = spec_le_bytes(payload.len() as u32);
            let after_header = ReaderView::initial().feed(header);
            if payload.len() == 0 {
                after_header == (ReaderView::initial(), ProgressView::Frame(payload))
            } else {
                &&& after_header.1 == ProgressView::NeedMore
                &&& after_header.0.wf()
                &&& after_header.0.wanted() == payload.len()
                &&& after_header.0.feed(payload) == (
                    ReaderView::initial(),
                    ProgressView::Frame(payload),
                )
            }
        }),
{
    let header = spec_le_bytes(payload.len() as u32);
    lemma_le_bytes_roundtrip(payload.len() as u32);
}

/// The reading half of the framing: it keeps what has arrived of a message
/// across reads, so that no byte is lost when a read gives less than was
/// asked for.
#[derive(Debug)]
pub struct FrameReader {
    buf: Vec<u8>,
    read_state: ReadState,
}

impl View for FrameReader {
    type V = ReaderView;

    closed spec fn view(&self) -> ReaderView {
        ReaderView { state: self.read_state, pending: self.buf@ }
    }
}

impl FrameReader {
    /// A reader before the first byte of a message.
    pub fn new() -> (reader: FrameReader)
        ensures
            reader@ == ReaderView::initial(),
            reader@.wf(),
    {
        FrameReader { buf: Vec::with_capacity(HEADER_LEN), read_state: ReadState::Start }
    }

    /// Number of bytes to ask of the next read: what the part being read
    /// still lacks.
    pub fn wanted(&self) -> (n: usize)
        requires
            self@.wf(),
        ensures
            n == self@.wanted(),
            n > 0,
    {
        match self.read_state {
            ReadState::Start => HEADER_LEN - self.buf.len(),
            ReadState::Size(size) => size as usize - self.buf.len(),
        }
    }

    /// Takes in the bytes that a read gave; an empty slice stands for a read
    /// that reached the end of the stream.
    pub fn feed(&mut self, bytes: &[u8]) -> (progress: Progress)
        requires
            old(self)@.wf(),
            bytes@.len() <= old(self)@.wanted(),
        ensures
            final(self)@.wf(),
            (final(self)@, progress@) == old(self)@.feed(bytes@),
    {
        if bytes.len() == 0 {
            return match self.read_state {
                ReadState::Start => if self.buf.len() == 0 {
                    Progress::End
                } else {
                    Progress::UnexpectedEof
                },
                ReadState::Size(_) => Progress::UnexpectedEof,
            };
        }
        let ghost before = self.buf@;
        let mut i: usize = 0;
        while i < bytes.len()
            invariant
                i <= bytes.len(),
                self.buf@ == before + bytes@.take(i as int),
                self.read_state == old(self).read_state,
            decreases bytes.len() - i,
        {
            self.buf.push(bytes[i]);
            i = i + 1;
        }
        proof {
            assert(bytes@.take(i as int) =~= bytes@);
        }
        match self.read_state {
            ReadState::Start => {
                if self.buf.len() < HEADER_LEN {
                    return Progress::NeedMore;
                }
                let message_size = from_le_bytes(self.buf.as_slice());
                self.buf.clear();
                if message_size == 0 {
                    self.read_state = ReadState::Start;
                    Progress::Frame(Vec::new())
                } else {
                    self.read_state = ReadState::Size(message_size);
                    Progress::NeedMore
                }
            },
            ReadState::Size(message_size) => {
                if self.buf.len() < message_size as usize {
                    return Progress::NeedMore;
                }
                self.read_state = ReadState::Start;
                let mut payload: Vec<u8> = Vec::with_capacity(HEADER_LEN);
                core::mem::swap(&mut payload, &mut self.buf);
                Progress::Frame(payload)
            },
        }
    }

    /// What a connection reset means for the stream of messages: between two
    /// messages it is the ordinary way for a peer to close, so the stream
    /// ends; in the middle of a message it is an error. The reader stays as
    /// it is.
    pub fn connection_reset(&self) -> (ends_cleanly: bool)
        ensures
            ends_cleanly == (self@.state == ReadState::Start),
    {
        match self.read_state {
            ReadState::Start => true,
            ReadState::Size(_) => false,
        }
    }
}

/// A connection that carries framed messages: items of type `ReadItem` come
/// in, items of type `WriteItem` go out.
pub struct Stream<T, ReadItem, WriteItem> {
    inner: T,
    reader: FrameReader,
    _items: PhantomData<(ReadItem, WriteItem)>,
}

impl<T, ReadItem, WriteItem> Stream<T, ReadItem, WriteItem> {
    /// The connection.
    pub closed spec fn spec_inner(&self) -> T {
        self.inner
    }

    /// The reading half of the framing.
    pub closed spec fn spec_reader(&self) -> FrameReader {
        self.reader
    }

    /// Wraps a connection; the reader starts before the first byte of a
    /// message.
    pub fn new(inner: T) -> (stream: Self)
        ensures
            stream.spec_inner() == inner,
            stream.spec_reader()@ == ReaderView::initial(),
    {
        Stream { inner, reader: FrameReader::new(), _items: PhantomData }
    }

    /// The connection and the reader, to read from the one into the other.
    pub fn parts_mut(&mut self) -> (parts: (&mut T, &mut FrameReader))
        ensures
            *parts.0 == old(self).spec_inner(),
            *parts.1 == old(self).spec_reader(),
            final(self).spec_inner() == *final(parts.0),
            final(self).spec_reader() == *final(parts.1),
    {
        (&mut self.inner, &mut self.reader)
    }
}

} // verus!
