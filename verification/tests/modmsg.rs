use freven_vanilla::modmsg::{
    echo_reply, is_echo_response, modmsg_example_payload, InboundMessage, VanillaEchoIds,
};

const IDS: VanillaEchoIds = VanillaEchoIds { channel_id: 4, request_id: 7, response_id: 8 };

fn msg(channel_id: u32, message_id: u32, payload: &[u8]) -> InboundMessage {
    InboundMessage { channel_id, message_id, seq: Some(12), payload: payload.to_vec() }
}

#[test]
fn example_payload_is_the_greeting() {
    assert_eq!(modmsg_example_payload(), b"hello from vanilla client".to_vec());
}

#[test]
fn client_logs_only_responses_with_the_example_payload() {
    assert!(is_echo_response(IDS, &msg(4, 8, b"hello from vanilla client")));
    assert!(!is_echo_response(IDS, &msg(4, 8, b"hello from vanilla")));
    assert!(!is_echo_response(IDS, &msg(4, 7, b"hello from vanilla client")));
    assert!(!is_echo_response(IDS, &msg(5, 8, b"hello from vanilla client")));
}

#[test]
fn server_answers_requests_with_the_same_payload() {
    let reply = echo_reply(IDS, &msg(4, 7, b"ping")).expect("request is answered");
    assert_eq!(reply.channel_id, 4);
    assert_eq!(reply.message_id, 8);
    assert_eq!(reply.seq, Some(12));
    assert_eq!(reply.payload, b"ping".to_vec());
    assert!(echo_reply(IDS, &msg(4, 8, b"ping")).is_none());
    assert!(echo_reply(IDS, &msg(3, 7, b"ping")).is_none());
}
