//! The Vanilla mod-message echo: the client sends one request on the echo
//! channel per session, the server answers each request with a response
//! carrying the same payload, and the client logs responses that carry the
//! example payload. Channel and message ids are the numbers the runtime
//! registered the echo channel and its message types under.

use vstd::prelude::*;

verus! {

pub const MODMSG_CHANNEL_ECHO_KEY: &'static str = "freven.vanilla:mod.echo";

pub const MODMSG_REQUEST_KEY: &'static str = "freven.vanilla:echo.request";

pub const MODMSG_RESPONSE_KEY: &'static str = "freven.vanilla:echo.response";

pub const PLAYER_NAMEPLATE_COMPONENT_KEY: &'static str = "freven.vanilla:player_nameplate_text";

/// The example payload, `hello from vanilla client`, as bytes.
pub open spec fn example_payload() -> Seq<u8> {
    seq![
        104u8, 101u8, 108u8, 108u8, 111u8, 32u8, 102u8, 114u8, 111u8, 109u8, 32u8, 118u8, 97u8,
        110u8, 105u8, 108u8, 108u8, 97u8, 32u8, 99u8, 108u8, 105u8, 101u8, 110u8, 116u8,
    ]
}

/// The payload the client sends: `hello from vanilla client`.
pub fn modmsg_example_payload() -> (payload: Vec<u8>)
    ensures
        payload@ == example_payload(),
{
    let payload: Vec<u8> = vec![
        104u8, 101u8, 108u8, 108u8, 111u8, 32u8, 102u8, 114u8, 111u8, 109u8, 32u8, 118u8, 97u8,
        110u8, 105u8, 108u8, 108u8, 97u8, 32u8, 99u8, 108u8, 105u8, 101u8, 110u8, 116u8,
    ];
    assert(payload@ =~= example_payload());
    payload
}

/// The runtime ids the echo channel and its two message types were
/// registered under.
#[derive(Debug, Clone, Copy, PartialEq, Eq, Structural)]
pub struct VanillaEchoIds {
    pub channel_id: u32,
    pub request_id: u32,
    pub response_id: u32,
}

/// A message as it arrives on either side.
#[derive(Debug, Clone, PartialEq, Eq)]
pub struct InboundMessage {
    pub channel_id: u32,
    pub message_id: u32,
    pub seq: Option<u32>,
    pub payload: Vec<u8>,
}

/// The answer the server sends back on the same channel and scope.
#[derive(Debug, Clone, PartialEq, Eq)]
pub struct EchoReply {
    pub channel_id: u32,
    pub message_id: u32,
    pub seq: Option<u32>,
    pub payload: Vec<u8>,
}

/// Whether a message is an echo response with the example payload, which
/// the client logs.
pub fn is_echo_response(ids: VanillaEchoIds, msg: &InboundMessage) -> (is_response: bool)
    ensures
        is_response == (msg.channel_id == ids.channel_id && msg.message_id == ids.response_id
            && msg.payload@ == example_payload()),
{
    if msg.channel_id != ids.channel_id || msg.message_id != ids.response_id {
        return false;
    }
    let expected = modmsg_example_payload();
    if msg.payload.len() != expected.len() {
        return false;
    }
    let mut i: usize = 0;
    while i < expected.len()
        invariant
            0 <= i <= expected@.len(),
            expected@.len() == msg.payload@.len(),
            expected@ == example_payload(),
            forall|j: int| 0 <= j < i ==> msg.payload@[j] == expected@[j],
        decreases expected.len() - i,
    {
        if msg.payload[i] != expected[i] {
            return false;
        }
        i = i + 1;
    }
    assert(msg.payload@ =~= expected@);
    true
}

/// The server's answer to a message: an echo request is answered with a
/// response carrying the same channel, sequence number and payload; any
/// other message is not answered.
pub fn echo_reply(ids: VanillaEchoIds, msg: &InboundMessage) -> (reply: Option<EchoReply>)
    ensures
        match reply {
            Some(r) => msg.channel_id == ids.channel_id && msg.message_id == ids.request_id
                && r.channel_id == msg.channel_id && r.message_id == ids.response_id && r.seq
                == msg.seq && r.payload@ == msg.payload@,
            None => !(msg.channel_id == ids.channel_id && msg.message_id == ids.request_id),
        },
{
    if msg.channel_id != ids.channel_id || msg.message_id != ids.request_id {
        return None;
    }
    Some(
        EchoReply {
            channel_id: msg.channel_id,
            message_id: ids.response_id,
            seq: msg.seq,
            payload: copy_bytes(&msg.payload),
        },
    )
}

fn copy_bytes(bytes: &Vec<u8>) -> (copy: Vec<u8>)
    ensures
        copy@ == bytes@,
{
    let mut copy: Vec<u8> = Vec::new();
    let mut i: usize = 0;
    while i < bytes.len()
        invariant
            0 <= i <= bytes@.len(),
            copy@ == bytes@.take(i as int),
        decreases bytes.len() - i,
    {
        copy.push(bytes[i]);
        proof {
            assert(bytes@.take(i + 1) =~= bytes@.take(i as int).push(bytes@[i as int]));
        }
        i = i + 1;
    }
    assert(bytes@.take(bytes@.len() as int) =~= bytes@);
    copy
}

} // verus!
