use vstd::prelude::*;

use crate::text::{decode_utf8_lossy, lemma_trim_shortens, trim, trim_spec, utf8_lossy};

verus! {

/// What the host writes to a serial port to ask whether the key is behind it.
pub const GREETING: &'static str = "Whaaat";

/// What the key answers to the greeting.
pub const GREETING_REPLY: &'static str = "Fuck YOU";

/// The greeting as the key sees it on the wire.
pub open spec fn greeting_bytes() -> Seq<u8> {
    seq![0x57u8, 0x68u8, 0x61u8, 0x61u8, 0x61u8, 0x74u8]
}

/// The key's answer as it puts it on the wire.
pub open spec fn reply_bytes() -> Seq<u8> {
    seq![0x46u8, 0x75u8, 0x63u8, 0x6bu8, 0x20u8, 0x59u8, 0x4fu8, 0x55u8]
}

/// What the key answers to one packet read from the host: the reply to the
/// greeting, nothing to anything else.
pub open spec fn packet_answer(packet: Seq<u8>) -> Option<Seq<u8>> {
    if packet == greeting_bytes() {
        Some(reply_bytes())
    } else {
        None
    }
}

/// The key's side of the handshake: answers a packet read from the host.
pub fn answer_packet(packet: &[u8]) -> (r: Option<Vec<u8>>)
    ensures
        match r {
            Some(v) => packet_answer(packet@) == Some(v@),
            None => packet_answer(packet@) is None,
        },
{
    let greeting: [u8; 6] = [0x57, 0x68, 0x61, 0x61, 0x61, 0x74];
    let matches = packet.len() == 6 && packet[0] == greeting[0] && packet[1] == greeting[1]
        && packet[2] == greeting[2] && packet[3] == greeting[3] && packet[4] == greeting[4]
        && packet[5] == greeting[5];
    if matches {
        assert(packet@ =~= greeting_bytes());
        let reply: Vec<u8> = vec![0x46, 0x75, 0x63, 0x6b, 0x20, 0x59, 0x4f, 0x55];
        assert(reply@ =~= reply_bytes());
        Some(reply)
    } else {
        assert(packet@ != greeting_bytes()) by {
            if packet@ == greeting_bytes() {
                assert(packet@[0] == greeting_bytes()[0]);
                assert(packet@[5] == greeting_bytes()[5]);
                assert(packet@[1] == greeting_bytes()[1]);
                assert(packet@[2] == greeting_bytes()[2]);
                assert(packet@[3] == greeting_bytes()[3]);
                assert(packet@[4] == greeting_bytes()[4]);
            }
        }
        None
    }
}

/// Why the key's serial endpoint stopped working.
#[derive(PartialEq, Eq, Structural, Clone, Copy, Debug)]
pub enum EndpointError {
    /// The packet did not fit the buffer.
    BufferOverflow,
    /// The endpoint is disabled: the host went away.
    Disabled,
}

/// The host disconnected from the key's serial endpoint.
#[derive(PartialEq, Eq, Structural, Clone, Copy, Debug)]
pub struct Disconnected;

impl Disconnected {
    /// A disabled endpoint means the host disconnected. (An overflowing
    /// buffer is a fault of the key itself and is not handled here.)
    pub fn from_endpoint_error(error: EndpointError) -> (r: Disconnected)
        requires
            error == EndpointError::Disabled,
        ensures
            r == Disconnected,
    {
        Disconnected
    }
}

/// What happened on the key's serial endpoint.
pub enum EchoEvent {
    /// A packet arrived from the host.
    Packet(Vec<u8>),
    /// The last answer went out.
    Sent,
    /// Reading or writing failed.
    Failed(EndpointError),
}

/// What the key does next on its serial endpoint.
pub enum EchoAction {
    /// Write these bytes to the host.
    Send(Vec<u8>),
    /// Wait for the next packet.
    Listen,
    /// Stop serving this connection.
    Stop(Disconnected),
}

/// The key's serial loop, one event at a time: the greeting is answered,
/// any other packet ignored, and a disabled endpoint ends the session.
pub fn echo_step(event: EchoEvent) -> (a: EchoAction)
    requires
        !(event matches EchoEvent::Failed(EndpointError::BufferOverflow)),
    ensures
        match event {
            EchoEvent::Packet(p) => match a {
                EchoAction::Send(reply) => packet_answer(p@) == Some(reply@),
                EchoAction::Listen => packet_answer(p@) is None,
                EchoAction::Stop(_) => false,
            },
            EchoEvent::Sent => a is Listen,
            EchoEvent::Failed(_) => a is Stop,
        },
{
    match event {
        EchoEvent::Packet(packet) => match answer_packet(packet.as_slice()) {
            Some(reply) => EchoAction::Send(reply),
            None => EchoAction::Listen,
        },
        EchoEvent::Sent => EchoAction::Listen,
        EchoEvent::Failed(error) => EchoAction::Stop(Disconnected::from_endpoint_error(error)),
    }
}

/// What the host makes of the bytes read back from a port: their lossy
/// UTF-8 decoding with surrounding white space removed.
pub open spec fn reply_text_spec(bytes: Seq<u8>) -> Seq<char> {
    trim_spec(utf8_lossy(bytes))
}

/// Decodes the bytes read back from a port into the text the host compares.
pub fn reply_text(bytes: &[u8]) -> (s: String)
    ensures
        s@ == reply_text_spec(bytes@),
        vstd::utf8::valid_utf8(bytes@) ==> s@ == trim_spec(vstd::utf8::decode_utf8(bytes@)),
        s@.len() <= bytes@.len(),
{
    let decoded = decode_utf8_lossy(bytes);
    proof {
        lemma_trim_shortens(decoded@);
    }
    trim(decoded.as_str())
}

/// Whether the decoded text is the key's answer.
pub fn is_key_reply(text: &str) -> (b: bool)
    ensures
        b == (text@ == GREETING_REPLY@),
{
    let expected = GREETING_REPLY.to_owned();
    let got = text.to_owned();
    got == expected
}

/// The handshake works: the host's greeting, as it goes on the wire, is what
/// the key listens for; the key answers it; and the host, decoding that
/// answer, recognises the key.
pub proof fn lemma_handshake_recognises_key()
    ensures
        vstd::utf8::encode_utf8(GREETING@) == greeting_bytes(),
        packet_answer(vstd::utf8::encode_utf8(GREETING@)) == Some(reply_bytes()),
        vstd::utf8::valid_utf8(reply_bytes()),
        trim_spec(vstd::utf8::decode_utf8(reply_bytes())) == GREETING_REPLY@,
{
    reveal_strlit("Whaaat");
    reveal_strlit("Fuck YOU");
    let g = GREETING@;
    let r = GREETING_REPLY@;
    assert(vstd::utf8::is_ascii_chars(g));
    assert(vstd::utf8::is_ascii_chars(r));
    vstd::utf8::is_ascii_chars_encode_utf8(g);
    vstd::utf8::is_ascii_chars_encode_utf8(r);
    assert(vstd::utf8::encode_utf8(g) =~= greeting_bytes());
    assert(vstd::utf8::encode_utf8(r) =~= reply_bytes());
    vstd::utf8::encode_utf8_valid_utf8(r);
    vstd::utf8::encode_utf8_decode_utf8(r);
    assert(trim_spec(r) == r) by {
        assert(crate::text::trim_start_spec(r) == r);
        assert(crate::text::trim_end_spec(r) == r);
    }
}

} // verus!
