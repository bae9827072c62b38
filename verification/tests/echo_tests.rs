use ttrpc_benchmark::codec::{
    decode_message, encode_message, serve_echo_frame, DecodeError, MESSAGE_FIELD_TAG,
};
use ttrpc_benchmark::echo::{echo_response, EchoRequest};
use ttrpc_benchmark::message::{benchmark_message, warmup_message};

#[test]
fn echo_identity() {
    let req = EchoRequest {
        message: String::from("hello over the wire"),
    };
    let resp = echo_response(&req);
    assert_eq!(resp.message, "hello over the wire");
}

#[test]
fn echo_identity_empty() {
    let req = EchoRequest {
        message: String::new(),
    };
    assert_eq!(echo_response(&req).message, "");
}

#[test]
fn warmup_and_benchmark_payloads() {
    assert_eq!(warmup_message(), "warmup");
    assert_eq!(benchmark_message(0), "benchmark message 0");
    assert_eq!(benchmark_message(7), "benchmark message 7");
    assert_eq!(benchmark_message(123), "benchmark message 123");
    assert_eq!(benchmark_message(999), "benchmark message 999");
    assert_eq!(benchmark_message(98765), "benchmark message 98765");
}

#[test]
fn wire_round_trip() {
    let text: Vec<u8> = b"benchmark message 41".to_vec();
    let frame = encode_message(&text);
    assert_eq!(frame[0], MESSAGE_FIELD_TAG);
    assert_eq!(frame[1] as usize, text.len());
    assert_eq!(decode_message(&frame), Ok(text));
}

#[test]
fn wire_round_trip_empty() {
    let text: Vec<u8> = Vec::new();
    let frame = encode_message(&text);
    assert!(frame.is_empty());
    assert_eq!(decode_message(&frame), Ok(Vec::new()));
}

#[test]
fn wire_echo_identity() {
    let frame = encode_message(&b"warmup".to_vec());
    let reply = serve_echo_frame(&frame).expect("well-framed request must be answered");
    assert_eq!(reply, frame);
}

#[test]
fn wire_rejects_malformed() {
    // wrong tag
    assert_eq!(
        decode_message(&vec![0x12, 1, b'a']),
        Err(DecodeError::Malformed)
    );
    // length does not match the data
    assert_eq!(
        decode_message(&vec![MESSAGE_FIELD_TAG, 3, b'a']),
        Err(DecodeError::Malformed)
    );
    // explicit zero length is not a frame the encoder produces
    assert_eq!(
        decode_message(&vec![MESSAGE_FIELD_TAG, 0]),
        Err(DecodeError::Malformed)
    );
    assert_eq!(
        serve_echo_frame(&vec![MESSAGE_FIELD_TAG]),
        Err(DecodeError::Malformed)
    );
}
