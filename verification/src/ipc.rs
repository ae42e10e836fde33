//! The control-plane wire protocol: length-prefixed JSON over a per-worker
//! TCP channel.
//!
//! Each direction sends a four-byte little-endian length and then exactly
//! that many bytes of UTF-8 JSON; both directions refuse messages above one
//! mebibyte. The sockets and threads are the embedding program's business;
//! the framing, the message encodings and every protocol decision are made
//! here.
use crate::codec::{chars_to_string, push_dec_u128, push_json_string, push_lit, sp_lit};
use vstd::prelude::*;
use vstd::string::StringSliceAdditionalSpecFns;
use vstd::string::StrSliceExecFns;

verus! {

/// The type frame sizes are carried in.
pub type MessageSize = u32;

/// The largest incoming message accepted, in bytes.
pub const INCOMING_MESSAGE_SIZE_LIMIT: MessageSize = 1048576;

/// The largest outgoing message sent, in bytes.
pub const OUTGOING_MESSAGE_SIZE_LIMIT: MessageSize = 1048576;

/// The exit code a worker ends with on a termination request.
pub const TERMINATION_REQUEST_EXIT_CODE: i32 = 100;

/// Failure of one control-plane exchange; every case is scoped to its one
/// connection.
#[derive(Debug)]
pub enum Error {
    /// The four size bytes of an incoming message could not be read.
    IncomingMessageSizeNotRead(String),
    /// The incoming message declares more bytes than the limit.
    IncomingMessageTooLarge(MessageSize),
    /// The declared bytes of an incoming message could not be read.
    IncomingMessageContentNotRead(String),
    /// The incoming bytes are not a recognized message.
    IncomingMessageNotDeserialized(String),
    /// An outgoing message could not be rendered.
    OutgoingMessageNotSerialized(String),
    /// The outgoing message is larger than the limit.
    OutgoingMessageTooLarge(usize),
    /// The size bytes of an outgoing message could not be sent.
    OutgoingMessageSizeNotSent(String),
    /// The content of an outgoing message could not be sent.
    OutgoingMessageContentNotSent(String),
}

/// A message a peer may send to a worker.
#[derive(Debug, Clone, Copy, PartialEq, Eq, Structural)]
pub enum IncomingMessage {
    /// Asks who the worker is.
    WhoAreYou,
    /// Asks the worker process to exit at once.
    TerminationRequest,
}

/// A message a worker sends back.
#[derive(Debug, Clone)]
pub enum OutgoingMessage {
    /// The worker's recorded name and operating-system process id.
    WhoAreYouResponse { name: String, pid: u32 },
}

/// The mathematical value of an outgoing message.
pub enum OutgoingMessageView {
    WhoAreYouResponse { name: Seq<char>, pid: u32 },
}

impl View for OutgoingMessage {
    type V = OutgoingMessageView;

    open spec fn view(&self) -> OutgoingMessageView {
        match self {
            OutgoingMessage::WhoAreYouResponse { name, pid } => {
                OutgoingMessageView::WhoAreYouResponse { name: name@, pid: *pid }
            },
        }
    }
}

// ---------------------------------------------------------------------------
// Framing
// ---------------------------------------------------------------------------
/// The four little-endian bytes of a frame size.
pub open spec fn le4(n: u32) -> Seq<u8> {
    seq![
        (n % 256) as u8,
        ((n / 256) % 256) as u8,
        ((n / 65536) % 256) as u8,
        ((n / 16777216) % 256) as u8,
    ]
}

/// The size the four little-endian bytes carry.
pub open spec fn le4_value(b: Seq<u8>) -> int
    recommends
        b.len() == 4,
{
    b[0] + b[1] * 256 + b[2] * 65536 + b[3] * 16777216
}

/// The two directions of the size encoding cancel.
pub proof fn lemma_le4_round_trip(n: u32, b: Seq<u8>)
    requires
        b.len() == 4,
    ensures
        le4_value(le4(n)) == n,
        le4(le4_value(b) as u32) == b,
{
    assert(le4_value(le4(n)) == n) by {
        assert(n % 256 + ((n / 256) % 256) * 256 + ((n / 65536) % 256) * 65536 + ((n / 16777216)
            % 256) * 16777216 == n) by (bit_vector);
    }
    let b0 = b[0];
    let b1 = b[1];
    let b2 = b[2];
    let b3 = b[3];
    let v = le4_value(b);
    assert(v == b0 + b1 * 256 + b2 * 65536 + b3 * 16777216);
    assert(0 <= v < 0x100000000);
    let w = v as u32;
    assert(w == (b0 as u32) + (b1 as u32) * 256 + (b2 as u32) * 65536 + (b3 as u32) * 16777216);
    assert(((b0 as u32) + (b1 as u32) * 256 + (b2 as u32) * 65536 + (b3 as u32) * 16777216) % 256
        == b0 as u32) by (bit_vector);
    assert((((b0 as u32) + (b1 as u32) * 256 + (b2 as u32) * 65536 + (b3 as u32) * 16777216) / 256)
        % 256 == b1 as u32) by (bit_vector);
    assert((((b0 as u32) + (b1 as u32) * 256 + (b2 as u32) * 65536 + (b3 as u32) * 16777216)
        / 65536) % 256 == b2 as u32) by (bit_vector);
    assert((((b0 as u32) + (b1 as u32) * 256 + (b2 as u32) * 65536 + (b3 as u32) * 16777216)
        / 16777216) % 256 == b3 as u32) by (bit_vector);
    assert(le4(w) =~= b);
}

/// The four little-endian size bytes of `n`.
pub fn size_to_le_bytes(n: u32) -> (r: Vec<u8>)
    ensures
        r@ == le4(n),
{
    let mut r: Vec<u8> = Vec::new();
    r.push((n % 256) as u8);
    r.push(((n / 256) % 256) as u8);
    r.push(((n / 65536) % 256) as u8);
    r.push(((n / 16777216) % 256) as u8);
    assert(r@ =~= le4(n));
    r
}

/// The declared size of an incoming frame, from its four header bytes;
/// refused, and the connection to be torn down, where it exceeds the limit.
pub fn read_frame_size(header: &Vec<u8>) -> (r: Result<u32, Error>)
    requires
        header@.len() == 4,
    ensures
        match r {
            Ok(n) => n as int == le4_value(header@) && n <= INCOMING_MESSAGE_SIZE_LIMIT,
            Err(e) => (e matches Error::IncomingMessageTooLarge(n) && n as int == le4_value(
                header@,
            )) && le4_value(header@) > INCOMING_MESSAGE_SIZE_LIMIT as int,
        },
{
    let n: u32 = (header[0] as u32) + (header[1] as u32) * 256 + (header[2] as u32) * 65536 + (
    header[3] as u32) * 16777216;
    if n > INCOMING_MESSAGE_SIZE_LIMIT {
        Err(Error::IncomingMessageTooLarge(n))
    } else {
        Ok(n)
    }
}

/// A whole outgoing frame: the four size bytes and then the UTF-8 bytes of
/// the rendered message; refused where the message exceeds the limit.
pub fn frame_message(payload: &str) -> (r: Result<Vec<u8>, Error>)
    ensures
        match r {
            Ok(frame) => payload.len() <= OUTGOING_MESSAGE_SIZE_LIMIT && frame@ == le4(
                payload.len() as u32,
            ) + payload.spec_bytes(),
            Err(e) => (e matches Error::OutgoingMessageTooLarge(n) && n == payload.len())
                && payload.len() > OUTGOING_MESSAGE_SIZE_LIMIT,
        },
{
    let size = payload.len();
    if size > 1048576 {
        return Err(Error::OutgoingMessageTooLarge(size));
    }
    let mut frame = size_to_le_bytes(size as u32);
    let mut content = payload.as_bytes_vec();
    frame.append(&mut content);
    Ok(frame)
}

// ---------------------------------------------------------------------------
// Messages
// ---------------------------------------------------------------------------
/// The canonical rendering of an outgoing message.
pub open spec fn json_of_outgoing(m: OutgoingMessageView) -> Seq<char> {
    match m {
        OutgoingMessageView::WhoAreYouResponse { name, pid } => {
            "{\"type\":\"who_are_you_response\",\"name\":"@ + crate::codec::json_string(name)
                + ",\"pid\":"@ + crate::codec::dec_nat(pid as nat) + "}"@
        },
    }
}

impl OutgoingMessage {
    /// Renders this message as its canonical JSON text; the embedding
    /// program frames and sends the bytes.
    pub fn render(&self) -> (r: String)
        ensures
            r@ == json_of_outgoing(self@),
    {
        match self {
            OutgoingMessage::WhoAreYouResponse { name, pid } => {
                let mut out: Vec<char> = Vec::new();
                push_lit(&mut out, "{\"type\":\"who_are_you_response\",\"name\":");
                push_json_string(&mut out, name.as_str());
                push_lit(&mut out, ",\"pid\":");
                push_dec_u128(&mut out, *pid as u128);
                push_lit(&mut out, "}");
                assert(out@ =~= json_of_outgoing(self@));
                chars_to_string(&out)
            },
        }
    }
}

/// What an incoming text means: one of the two recognized messages, where
/// the text is exactly its canonical form.
pub open spec fn sp_incoming(s: Seq<char>) -> Option<IncomingMessage> {
    if s == "{\"type\":\"who_are_you\"}"@ {
        Some(IncomingMessage::WhoAreYou)
    } else if s == "{\"type\":\"termination_request\"}"@ {
        Some(IncomingMessage::TerminationRequest)
    } else {
        None
    }
}

impl IncomingMessage {
    /// Reads one incoming message from the text of a frame's payload; any
    /// text that is not a recognized message fails, and the caller drops
    /// the connection.
    pub fn parse(text: &str) -> (r: Result<IncomingMessage, Error>)
        ensures
            match r {
                Ok(m) => sp_incoming(text@) == Some(m),
                Err(e) => sp_incoming(text@) is None && e matches
                    Error::IncomingMessageNotDeserialized(_),
            },
    {
        let chars = crate::codec::string_to_chars(text);
        let n = chars.len();
        if let Some(j) = crate::codec::expect_lit(&chars, 0, "{\"type\":\"who_are_you\"}") {
            if j == n {
                proof {
                    assert(chars@.subrange(0, n as int) =~= chars@);
                }
                return Ok(IncomingMessage::WhoAreYou);
            }
        }
        if let Some(j) = crate::codec::expect_lit(&chars, 0, "{\"type\":\"termination_request\"}") {
            if j == n {
                proof {
                    assert(chars@.subrange(0, n as int) =~= chars@);
                    reveal_strlit("{\"type\":\"who_are_you\"}");
                    reveal_strlit("{\"type\":\"termination_request\"}");
                }
                return Ok(IncomingMessage::TerminationRequest);
            }
        }
        proof {
            reveal_strlit("{\"type\":\"who_are_you\"}");
            reveal_strlit("{\"type\":\"termination_request\"}");
            if text@ == "{\"type\":\"who_are_you\"}"@ {
                assert(chars@.subrange(0, chars@.len() as int) =~= chars@);
                assert(sp_lit(chars@, 0, "{\"type\":\"who_are_you\"}"@) is Some);
            }
            if text@ == "{\"type\":\"termination_request\"}"@ {
                assert(chars@.subrange(0, chars@.len() as int) =~= chars@);
                assert(sp_lit(chars@, 0, "{\"type\":\"termination_request\"}"@) is Some);
            }
        }
        Err(
            Error::IncomingMessageNotDeserialized(
                "the bytes are not a recognized control-plane message".to_owned(),
            ),
        )
    }
}

/// What the worker does with one incoming message.
#[derive(Debug)]
pub enum MessageAction {
    /// Send this response back on the same connection.
    Respond(OutgoingMessage),
    /// Exit the whole worker process with this code, at once.
    Terminate(i32),
}

/// The decision for one incoming message: an identity question gets the
/// worker's recorded name and process id back; a termination request ends
/// the process with the documented exit code.
pub fn handle_message(message: &IncomingMessage, worker_name: &str, pid: u32) -> (r: MessageAction)
    ensures
        message == IncomingMessage::WhoAreYou ==> (r matches MessageAction::Respond(m) && m@
            == (OutgoingMessageView::WhoAreYouResponse { name: worker_name@, pid })),
        message == IncomingMessage::TerminationRequest ==> r == MessageAction::Terminate(
            TERMINATION_REQUEST_EXIT_CODE,
        ),
{
    match message {
        IncomingMessage::WhoAreYou => MessageAction::Respond(
            OutgoingMessage::WhoAreYouResponse { name: worker_name.to_owned(), pid },
        ),
        IncomingMessage::TerminationRequest => MessageAction::Terminate(
            TERMINATION_REQUEST_EXIT_CODE,
        ),
    }
}

} // verus!
