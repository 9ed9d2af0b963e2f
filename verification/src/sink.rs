//! The sink's per-connection logic: the fixed-capacity connection buffer, the
//! lossy decoding of whatever was read, and the decision taken for each
//! accept-loop event. The sockets themselves stay outside; this module states
//! what the sink does with the bytes a single bounded read can yield.

use crate::config::{spec_ack, BUFFER_CAPACITY};
use vstd::prelude::*;

verus! {

/// The bytes the sink processes out of a payload sent as one write: the whole
/// payload when it fits the buffer, else only the first `BUFFER_CAPACITY`
/// bytes — the remainder is never read on that connection.
pub open spec fn spec_received(payload: Seq<u8>) -> Seq<u8> {
    if payload.len() <= BUFFER_CAPACITY {
        payload
    } else {
        payload.take(BUFFER_CAPACITY as int)
    }
}

/// A payload that fits the buffer is processed whole: nothing is dropped and
/// the fixed acknowledgment is what the sink then writes back.
pub proof fn lemma_echo_acknowledge(payload: Seq<u8>)
    requires
        payload.len() <= BUFFER_CAPACITY,
    ensures
        spec_received(payload) == payload,
        spec_ack() == "Data received\n"@,
{
}

/// A payload longer than the buffer is truncated to exactly the first
/// `BUFFER_CAPACITY` bytes; the rest is silently dropped, with no error.
pub proof fn lemma_long_payload_truncated(payload: Seq<u8>)
    requires
        payload.len() > BUFFER_CAPACITY,
    ensures
        spec_received(payload) == payload.take(BUFFER_CAPACITY as int),
        spec_received(payload).len() == BUFFER_CAPACITY,
        forall|i: int|
            0 <= i < BUFFER_CAPACITY ==> spec_received(payload)[i] == payload[i],
{
}

/// The fixed-capacity byte buffer the sink owns for one accepted connection.
/// It never holds more than `BUFFER_CAPACITY` bytes.
pub struct ConnectionBuffer {
    data: Vec<u8>,
}

impl View for ConnectionBuffer {
    type V = Seq<u8>;

    closed spec fn view(&self) -> Seq<u8> {
        self.data@
    }
}

impl ConnectionBuffer {
    /// The buffer's invariant: its contents fit the fixed capacity.
    pub open spec fn wf(&self) -> bool {
        self@.len() <= BUFFER_CAPACITY
    }

    /// Fills a fresh buffer from one payload, as a single bounded read does:
    /// it copies the payload up to the buffer capacity and drops the rest.
    pub fn from_payload(payload: &Vec<u8>) -> (buf: ConnectionBuffer)
        ensures
            buf@ == spec_received(payload@),
            buf.wf(),
    {
        let n = if payload.len() <= BUFFER_CAPACITY {
            payload.len()
        } else {
            BUFFER_CAPACITY
        };
        let mut data: Vec<u8> = Vec::new();
        let mut i: usize = 0;
        while i < n
            invariant
                i <= n,
                n <= payload@.len(),
                n == spec_received(payload@).len(),
                data@ =~= payload@.take(i as int),
            decreases n - i,
        {
            data.push(payload[i]);
            i += 1;
        }
        proof {
            assert(data@ =~= spec_received(payload@));
        }
        ConnectionBuffer { data }
    }

    /// How many bytes the buffer holds.
    pub fn len(&self) -> (n: usize)
        ensures
            n == self@.len(),
    {
        self.data.len()
    }

    /// Decodes the buffered bytes as text, replacing invalid sequences.
    pub fn decode(&self) -> (t: String)
        ensures
            t@ == lossy_decode(self@),
    {
        utf8_lossy(&self.data)
    }
}

/// The characters that lossy UTF-8 decoding yields for a byte sequence.
pub uninterp spec fn lossy_decode(bytes: Seq<u8>) -> Seq<char>;

/// Relies on String::from_utf8_lossy: the decoding depends on the bytes
/// alone; an empty input decodes to an empty string, and bytes that are all
/// ASCII are valid UTF-8, which decodes unchanged, character for byte.
#[verifier::external_body]
fn utf8_lossy(bytes: &Vec<u8>) -> (s: String)
    ensures
        s@ == lossy_decode(bytes@),
        bytes@.len() == 0 ==> s@.len() == 0,
        (forall|i: int| 0 <= i < bytes@.len() ==> bytes@[i] < 0x80) ==> s@ == Seq::new(
            bytes@.len(),
            |i: int| bytes@[i] as char,
        ),
{
    String::from_utf8_lossy(bytes.as_slice()).into_owned()
}

/// One event of the sink's accept loop, as the operating system reports it.
pub enum SinkEvent {
    /// Accepting the next connection failed.
    AcceptFailed,
    /// A connection was accepted but the read on it failed.
    ReadFailed,
    /// A connection was accepted and one bounded read filled this buffer.
    Received(ConnectionBuffer),
    /// Writing the acknowledgment back failed.
    AckWriteFailed,
}

/// What the sink does next after one event.
pub enum SinkAction {
    /// Log the failure to standard error, abandon the connection, and go on
    /// accepting; no reply is written.
    Abandon,
    /// Log the decoded text to standard output, write the fixed
    /// acknowledgment back, and go on accepting.
    Respond { log_text: String, reply: &'static str },
}

/// Decides the sink's next action for one accept-loop event. Every failure is
/// local to its connection — the loop always continues — and a successful
/// read, of however few bytes, is logged and acknowledged with the fixed
/// reply.
pub fn sink_step(event: SinkEvent) -> (a: SinkAction)
    ensures
        match event {
            SinkEvent::AcceptFailed => a is Abandon,
            SinkEvent::ReadFailed => a is Abandon,
            SinkEvent::AckWriteFailed => a is Abandon,
            SinkEvent::Received(buf) => a matches SinkAction::Respond { log_text, reply }
                && log_text@ == lossy_decode(buf@) && reply@ == spec_ack(),
        },
{
    match event {
        SinkEvent::AcceptFailed => SinkAction::Abandon,
        SinkEvent::ReadFailed => SinkAction::Abandon,
        SinkEvent::AckWriteFailed => SinkAction::Abandon,
        SinkEvent::Received(buf) => SinkAction::Respond {
            log_text: buf.decode(),
            reply: crate::config::acknowledgment(),
        },
    }
}

} // verus!
