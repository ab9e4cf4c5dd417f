//! Streaming frame decoder.
//!
//! A frame on the wire is `0xFE | type | length | payload | 0xFF`. Bytes are
//! consumed one at a time; the decoder's state carries over between chunks,
//! and any violation of the frame grammar silently resynchronises on the next
//! start byte.
use vstd::prelude::*;

verus! {

/// First byte of every frame.
pub const DATA_BEGIN_BYTE: u8 = 0xFE;

/// Last byte of every frame.
pub const DATA_END_BYTE: u8 = 0xFF;

/// Kind of message carried by a notification frame.
#[derive(Clone, Copy, Debug, PartialEq, Eq, Structural)]
pub enum HomeLightMessageType {
    /// Wire code `0x01`: name, power and colour of the light.
    DeviceInfo,
    /// Wire code `0x02`: always exactly three payload bytes.
    DeviceColor,
}

/// The message type that a wire code stands for, if any.
pub open spec fn message_type_of(code: u8) -> Option<HomeLightMessageType> {
    if code == 0x01 {
        Some(HomeLightMessageType::DeviceInfo)
    } else if code == 0x02 {
        Some(HomeLightMessageType::DeviceColor)
    } else {
        None
    }
}

/// Whether a frame of the given type may carry `length` payload bytes.
pub open spec fn length_is_valid(message_type: HomeLightMessageType, length: u8) -> bool {
    message_type == HomeLightMessageType::DeviceColor ==> length == 3
}

impl HomeLightMessageType {
    /// Decodes a wire code.
    pub fn from_code(code: u8) -> (r: Option<HomeLightMessageType>)
        ensures
            r == message_type_of(code),
    {
        if code == 0x01 {
            Some(HomeLightMessageType::DeviceInfo)
        } else if code == 0x02 {
            Some(HomeLightMessageType::DeviceColor)
        } else {
            None
        }
    }
}

/// A message recovered from one well-terminated frame.
#[derive(Clone, Debug)]
pub struct HomeLightMessage {
    pub message_type: HomeLightMessageType,
    pub data: Vec<u8>,
}

/// Abstract value of a message: its type and its payload.
pub struct MessageModel {
    pub message_type: HomeLightMessageType,
    pub data: Seq<u8>,
}

impl View for HomeLightMessage {
    type V = MessageModel;

    open spec fn view(&self) -> MessageModel {
        MessageModel { message_type: self.message_type, data: self.data@ }
    }
}

/// The phase of the frame grammar that the decoder is in.
#[derive(Debug)]
pub enum DecoderState {
    /// Discarding bytes until a start byte arrives.
    Unsynchronized,
    /// A start byte was seen; the next byte is the message type.
    AwaitingType,
    /// The next byte is the payload length.
    AwaitingLength { message_type: HomeLightMessageType },
    /// Collecting payload bytes; with none remaining, the next byte must be
    /// the end byte.
    Accumulating { message_type: HomeLightMessageType, length: u8, remaining: u8, buffer: Vec<u8> },
}

/// Abstract value of a decoder state, with the payload buffer as a sequence.
pub enum DecoderPhase {
    Unsynchronized,
    AwaitingType,
    AwaitingLength { message_type: HomeLightMessageType },
    Accumulating { message_type: HomeLightMessageType, length: u8, remaining: u8, buffer: Seq<u8> },
}

impl View for DecoderState {
    type V = DecoderPhase;

    open spec fn view(&self) -> DecoderPhase {
        match self {
            DecoderState::Unsynchronized => DecoderPhase::Unsynchronized,
            DecoderState::AwaitingType => DecoderPhase::AwaitingType,
            DecoderState::AwaitingLength { message_type } => DecoderPhase::AwaitingLength {
                message_type: *message_type,
            },
            DecoderState::Accumulating { message_type, length, remaining, buffer } =>
                DecoderPhase::Accumulating {
                message_type: *message_type,
                length: *length,
                remaining: *remaining,
                buffer: buffer@,
            },
        }
    }
}

impl DecoderPhase {
    /// The buffer never holds more than the announced length: what is
    /// collected plus what remains is exactly the announced length.
    pub open spec fn wf(self) -> bool {
        match self {
            DecoderPhase::Accumulating { length, remaining, buffer, .. } => {
                buffer.len() + remaining == length
            },
            _ => true,
        }
    }
}

/// One byte of input: the next phase, and the message completed by this byte
/// if there is one.
pub open spec fn step(p: DecoderPhase, b: u8) -> (DecoderPhase, Option<MessageModel>) {
    match p {
        DecoderPhase::Unsynchronized => if b == DATA_BEGIN_BYTE {
            (DecoderPhase::AwaitingType, None)
        } else {
            (DecoderPhase::Unsynchronized, None)
        },
        DecoderPhase::AwaitingType => match message_type_of(b) {
            Some(t) => (DecoderPhase::AwaitingLength { message_type: t }, None),
            None => (DecoderPhase::Unsynchronized, None),
        },
        DecoderPhase::AwaitingLength { message_type } => if length_is_valid(message_type, b) {
            (
                DecoderPhase::Accumulating {
                    message_type,
                    length: b,
                    remaining: b,
                    buffer: Seq::empty(),
                },
                None,
            )
        } else {
            (DecoderPhase::Unsynchronized, None)
        },
        DecoderPhase::Accumulating { message_type, length, remaining, buffer } => if remaining > 0 {
            (
                DecoderPhase::Accumulating {
                    message_type,
                    length,
                    remaining: (remaining - 1) as u8,
                    buffer: buffer.push(b),
                },
                None,
            )
        } else if b == DATA_END_BYTE {
            (
                DecoderPhase::Unsynchronized,
                Some(MessageModel { message_type, data: buffer }),
            )
        } else {
            (DecoderPhase::Unsynchronized, None)
        },
    }
}

/// Feeds `bytes` in order from phase `p`: the phase reached and the messages
/// emitted on the way, oldest first.
pub open spec fn run(p: DecoderPhase, bytes: Seq<u8>) -> (DecoderPhase, Seq<MessageModel>)
    decreases bytes.len(),
{
    if bytes.len() == 0 {
        (p, Seq::empty())
    } else {
        let prev = run(p, bytes.drop_last());
        let (q, m) = step(prev.0, bytes.last());
        (
            q,
            match m {
                Some(msg) => prev.1.push(msg),
                None => prev.1,
            },
        )
    }
}

/// The views of a list of messages.
pub open spec fn messages_view(v: Seq<HomeLightMessage>) -> Seq<MessageModel> {
    v.map_values(|m: HomeLightMessage| m@)
}

/// Resumable decoder of the notification byte stream.
#[derive(Debug)]
pub struct HomeLightDecoder {
    pub state: DecoderState,
}

impl HomeLightDecoder {
    pub open spec fn wf(&self) -> bool {
        self.state@.wf()
    }

    /// A decoder waiting for the start of a frame.
    pub fn new() -> (r: HomeLightDecoder)
        ensures
            r.state@ == DecoderPhase::Unsynchronized,
            r.wf(),
    {
        HomeLightDecoder { state: DecoderState::Unsynchronized }
    }

    /// Drops any partial frame and waits for the next start byte.
    pub fn reset_message_state(&mut self)
        ensures
            final(self).state@ == DecoderPhase::Unsynchronized,
    {
        self.state = DecoderState::Unsynchronized;
    }

    /// Whether a frame of `message_type` may announce `length` payload bytes.
    pub fn data_length_is_valid_for_type(&self, length: u8, message_type: HomeLightMessageType) -> (r:
        bool)
        ensures
            r == length_is_valid(message_type, length),
    {
        match message_type {
            HomeLightMessageType::DeviceColor => length == 3,
            _ => true,
        }
    }

    /// Consumes one byte; returns the message that this byte completes, if any.
    pub fn consume_byte(&mut self, byte: u8) -> (r: Option<HomeLightMessage>)
        requires
            old(self).wf(),
        ensures
            final(self).wf(),
            final(self).state@ == step(old(self).state@, byte).0,
            r matches Some(m) ==> step(old(self).state@, byte).1 == Some(m@),
            r is None ==> step(old(self).state@, byte).1 is None,
    {
        let mut state = DecoderState::Unsynchronized;
        std::mem::swap(&mut state, &mut self.state);
        match state {
            DecoderState::Unsynchronized => {
                if byte == DATA_BEGIN_BYTE {
                    self.state = DecoderState::AwaitingType;
                }
                None
            },
            DecoderState::AwaitingType => {
                if let Some(message_type) = HomeLightMessageType::from_code(byte) {
                    self.state = DecoderState::AwaitingLength { message_type };
                }
                None
            },
            DecoderState::AwaitingLength { message_type } => {
                if self.data_length_is_valid_for_type(byte, message_type) {
                    self.state = DecoderState::Accumulating {
                        message_type,
                        length: byte,
                        remaining: byte,
                        buffer: Vec::new(),
                    };
                }
                None
            },
            DecoderState::Accumulating { message_type, length, remaining, mut buffer } => {
                if remaining > 0 {
                    buffer.push(byte);
                    self.state = DecoderState::Accumulating {
                        message_type,
                        length,
                        remaining: remaining - 1,
                        buffer,
                    };
                    None
                } else if byte == DATA_END_BYTE {
                    Some(HomeLightMessage { message_type, data: buffer })
                } else {
                    None
                }
            },
        }
    }

    /// Consumes a chunk of the byte stream, in order, and returns the messages
    /// that it completes, oldest first. A partial frame at the end of the
    /// chunk is kept for the next call.
    pub fn consume_data_packet(&mut self, data_packet: &[u8]) -> (r: Vec<HomeLightMessage>)
        requires
            old(self).wf(),
        ensures
            final(self).wf(),
            final(self).state@ == run(old(self).state@, data_packet@).0,
            messages_view(r@) == run(old(self).state@, data_packet@).1,
    {
        let mut messages: Vec<HomeLightMessage> = Vec::new();
        let mut i: usize = 0;
        while i < data_packet.len()
            invariant
                i <= data_packet@.len(),
                self.wf(),
                self.state@ == run(old(self).state@, data_packet@.take(i as int)).0,
                messages_view(messages@) == run(old(self).state@, data_packet@.take(i as int)).1,
            decreases data_packet@.len() - i,
        {
            let ghost before = messages@;
            proof {
                assert(data_packet@.take(i + 1).drop_last() == data_packet@.take(i as int));
                assert(data_packet@.take(i + 1).last() == data_packet@[i as int]);
            }
            if let Some(m) = self.consume_byte(data_packet[i]) {
                messages.push(m);
                assert(messages_view(messages@) == messages_view(before).push(m@));
            }
            i = i + 1;
        }
        assert(data_packet@.take(i as int) == data_packet@);
        messages
    }
}

/// Feeds each chunk in turn, starting from phase `p`.
pub open spec fn run_chunks(p: DecoderPhase, chunks: Seq<Seq<u8>>) -> (
    DecoderPhase,
    Seq<MessageModel>,
)
    decreases chunks.len(),
{
    if chunks.len() == 0 {
        (p, Seq::empty())
    } else {
        let prev = run_chunks(p, chunks.drop_last());
        let last = run(prev.0, chunks.last());
        (last.0, prev.1 + last.1)
    }
}

/// Feeding `a` and then `b` reaches the same phase, and emits the same
/// messages, as feeding `a + b` at once.
pub proof fn lemma_run_split(p: DecoderPhase, a: Seq<u8>, b: Seq<u8>)
    ensures
        run(p, a + b) == ({
            let first = run(p, a);
            let second = run(first.0, b);
            (second.0, first.1 + second.1)
        }),
    decreases b.len(),
{
    if b.len() == 0 {
        assert(a + b == a);
        assert(run(p, a).1 + Seq::<MessageModel>::empty() == run(p, a).1);
    } else {
        lemma_run_split(p, a, b.drop_last());
        assert((a + b).drop_last() == a + b.drop_last());
        assert((a + b).last() == b.last());
        let first = run(p, a);
        let mid = run(first.0, b.drop_last());
        let (q, m) = step(mid.0, b.last());
        match m {
            Some(msg) => {
                assert(first.1 + mid.1.push(msg) == (first.1 + mid.1).push(msg));
            },
            None => {},
        }
    }
}

/// Resumability: however the byte stream is cut into chunks, feeding the
/// chunks one after another gives the same final phase and the same messages
/// as feeding the whole stream at once. Feeding one byte at a time is the
/// case where every chunk holds a single byte.
pub proof fn lemma_chunking_is_invisible(p: DecoderPhase, chunks: Seq<Seq<u8>>)
    ensures
        run_chunks(p, chunks) == run(p, chunks.flatten()),
    decreases chunks.len(),
{
    if chunks.len() == 0 {
        assert(chunks.flatten() == Seq::<u8>::empty());
    } else {
        lemma_chunking_is_invisible(p, chunks.drop_last());
        chunks.drop_last().lemma_flatten_and_flatten_alt_are_equivalent();
        chunks.lemma_flatten_and_flatten_alt_are_equivalent();
        assert(chunks.flatten() == chunks.drop_last().flatten() + chunks.last());
        lemma_run_split(p, chunks.drop_last().flatten(), chunks.last());
    }
}

/// Payload bytes fill the buffer of an accumulating phase and emit nothing.
proof fn lemma_accumulate(
    message_type: HomeLightMessageType,
    length: u8,
    buffer: Seq<u8>,
    payload: Seq<u8>,
)
    requires
        buffer.len() + payload.len() <= length,
    ensures
        run(
            DecoderPhase::Accumulating {
                message_type,
                length,
                remaining: (length - buffer.len()) as u8,
                buffer,
            },
            payload,
        ) == (
            DecoderPhase::Accumulating {
                message_type,
                length,
                remaining: (length - buffer.len() - payload.len()) as u8,
                buffer: buffer + payload,
            },
            Seq::<MessageModel>::empty(),
        ),
    decreases payload.len(),
{
    if payload.len() == 0 {
        assert(buffer + payload == buffer);
    } else {
        lemma_accumulate(message_type, length, buffer, payload.drop_last());
        assert(buffer + payload.drop_last() + seq![payload.last()] == buffer + payload);
        assert((buffer + payload.drop_last()).push(payload.last()) == buffer + payload);
    }
}

/// The bytes of one frame: start byte, type code, length, payload, and the
/// byte found where the end byte belongs.
pub open spec fn frame_bytes(code: u8, payload: Seq<u8>, terminator: u8) -> Seq<u8> {
    seq![DATA_BEGIN_BYTE, code, payload.len() as u8] + payload + seq![terminator]
}

/// A well-formed frame read from the unsynchronised phase leaves the decoder
/// unsynchronised; it emits its message when the terminator is the end
/// byte, and nothing at all otherwise.
pub proof fn lemma_frame_outcome(code: u8, payload: Seq<u8>, terminator: u8)
    requires
        message_type_of(code) is Some,
        payload.len() <= 255,
        length_is_valid(message_type_of(code).unwrap(), payload.len() as u8),
    ensures
        run(DecoderPhase::Unsynchronized, frame_bytes(code, payload, terminator)) == (
            DecoderPhase::Unsynchronized,
            if terminator == DATA_END_BYTE {
                seq![MessageModel { message_type: message_type_of(code).unwrap(), data: payload }]
            } else {
                Seq::<MessageModel>::empty()
            },
        ),
{
    let t = message_type_of(code).unwrap();
    let len = payload.len() as u8;
    let header = seq![DATA_BEGIN_BYTE, code, len];
    assert(header.drop_last().drop_last().drop_last() == Seq::<u8>::empty());
    assert(header.drop_last().drop_last() == seq![DATA_BEGIN_BYTE]);
    assert(header.drop_last() == seq![DATA_BEGIN_BYTE, code]);
    reveal_with_fuel(run, 4);
    let acc = DecoderPhase::Accumulating {
        message_type: t,
        length: len,
        remaining: len,
        buffer: Seq::empty(),
    };
    assert(run(DecoderPhase::Unsynchronized, header) == (acc, Seq::<MessageModel>::empty()));
    lemma_accumulate(t, len, Seq::empty(), payload);
    assert(Seq::<u8>::empty() + payload == payload);
    lemma_run_split(DecoderPhase::Unsynchronized, header, payload);
    let filled = DecoderPhase::Accumulating {
        message_type: t,
        length: len,
        remaining: 0,
        buffer: payload,
    };
    assert(run(DecoderPhase::Unsynchronized, header + payload) == (
        filled,
        Seq::<MessageModel>::empty(),
    ));
    lemma_run_split(DecoderPhase::Unsynchronized, header + payload, seq![terminator]);
    assert(seq![terminator].drop_last() == Seq::<u8>::empty());
    if terminator == DATA_END_BYTE {
        assert(Seq::<MessageModel>::empty().push(MessageModel { message_type: t, data: payload })
            == seq![MessageModel { message_type: t, data: payload }]);
    }
}

/// A frame whose terminator is not the end byte is dropped without a
/// message, and the decoder is back to waiting for a start byte.
pub proof fn lemma_bad_terminator_resets(code: u8, payload: Seq<u8>, terminator: u8)
    requires
        message_type_of(code) is Some,
        payload.len() <= 255,
        length_is_valid(message_type_of(code).unwrap(), payload.len() as u8),
        terminator != DATA_END_BYTE,
    ensures
        run(DecoderPhase::Unsynchronized, frame_bytes(code, payload, terminator)) == (
            DecoderPhase::Unsynchronized,
            Seq::<MessageModel>::empty(),
        ),
{
    lemma_frame_outcome(code, payload, terminator);
}

/// A colour frame that announces any length but three is rejected at the
/// length byte: the decoder goes straight back to the unsynchronised phase
/// and never collects a payload byte.
pub proof fn lemma_color_length_checked(length: u8)
    requires
        length != 3,
    ensures
        step(
            DecoderPhase::AwaitingLength { message_type: HomeLightMessageType::DeviceColor },
            length,
        ) == (DecoderPhase::Unsynchronized, Option::<MessageModel>::None),
        run(DecoderPhase::Unsynchronized, seq![DATA_BEGIN_BYTE, 0x02u8, length]) == (
            DecoderPhase::Unsynchronized,
            Seq::<MessageModel>::empty(),
        ),
{
    let bytes = seq![DATA_BEGIN_BYTE, 0x02u8, length];
    assert(bytes.drop_last().drop_last().drop_last() == Seq::<u8>::empty());
    assert(bytes.drop_last().drop_last() == seq![DATA_BEGIN_BYTE]);
    assert(bytes.drop_last() == seq![DATA_BEGIN_BYTE, 0x02u8]);
    reveal_with_fuel(run, 4);
}

} // verus!
