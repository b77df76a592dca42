use abci::codec::{decode, encode, CodecError, Decoded, FrameBuffer, MAX_FRAME_LEN};
use prost::Message;
use tendermint_proto::v0_34::abci::{request::Value, Request, RequestFlush, RequestInfo};

fn payload_of(decoded: Decoded) -> Vec<u8> {
    match decoded {
        Decoded::Frame { payload, .. } => payload,
        other => panic!("expected a frame, got {:?}", other),
    }
}

#[test]
fn check_decoding() {
    let mut buf = FrameBuffer::new();
    buf.extend(&[
        30, 26, 13, 10, 7, 118, 48, 46, 51, 52, 46, 51, 16, 11, 24, 8, 4, 18, 0,
    ]);

    let request = buf.next_frame();
    assert!(request.is_ok());
    let request = Request::decode(payload_of(request.unwrap()).as_slice()).unwrap();
    assert_eq!(
        request,
        Request {
            value: Some(Value::Info(RequestInfo {
                version: "v0.34.3".to_string(),
                block_version: 11,
                p2p_version: 8
            }))
        }
    );

    let request = buf.next_frame();
    assert!(request.is_ok());
    let request = Request::decode(payload_of(request.unwrap()).as_slice()).unwrap();
    assert_eq!(
        request,
        Request {
            value: Some(Value::Flush(RequestFlush {}))
        }
    );

    let request = buf.next_frame();
    assert!(request.is_ok());
    assert_eq!(request.unwrap(), Decoded::Incomplete);

    assert_eq!(0, buf.len());
}

#[test]
fn check_encoding() {
    let request = Request {
        value: Some(Value::Flush(RequestFlush {})),
    };
    let bytes = encode(&request.encode_to_vec()).unwrap();
    assert_eq!(vec![4, 18, 0], bytes);

    let request = Request {
        value: Some(Value::Info(RequestInfo {
            version: "v0.34.3".to_string(),
            block_version: 11,
            p2p_version: 8,
        })),
    };
    let bytes = encode(&request.encode_to_vec()).unwrap();
    assert_eq!(
        vec![30, 26, 13, 10, 7, 118, 48, 46, 51, 52, 46, 51, 16, 11, 24, 8],
        bytes
    );
}

#[test]
fn frame_round_trip_keeps_payload_and_bytes() {
    let payload: Vec<u8> = (0..300u32).map(|i| (i % 251) as u8).collect();
    let frame = encode(&payload).unwrap();
    // 300 has the zigzag image 600 = 0b100_1011000: two base-128 groups
    assert_eq!(&frame[..2], &[0xd8, 0x04]);
    assert_eq!(frame.len(), 302);
    let decoded = decode(&frame).unwrap();
    assert_eq!(
        decoded,
        Decoded::Frame {
            consumed: 302,
            payload: payload.clone()
        }
    );
    assert_eq!(encode(&payload_of(decoded)).unwrap(), frame);
}

#[test]
fn frame_followed_by_other_bytes_consumes_only_itself() {
    let mut bytes = encode(&[7, 8, 9]).unwrap();
    bytes.extend_from_slice(&[6, 1, 2]);
    assert_eq!(
        decode(&bytes).unwrap(),
        Decoded::Frame {
            consumed: 4,
            payload: vec![7, 8, 9]
        }
    );
}

#[test]
fn empty_frame_is_no_message() {
    assert_eq!(encode(&[]).unwrap(), vec![0]);
    assert_eq!(decode(&[0, 4, 18, 0]).unwrap(), Decoded::Empty { consumed: 1 });
    let mut buf = FrameBuffer::new();
    buf.extend(&[0, 4, 18, 0]);
    assert_eq!(buf.next_frame().unwrap(), Decoded::Empty { consumed: 1 });
    assert_eq!(buf.len(), 3);
    assert_eq!(
        buf.next_frame().unwrap(),
        Decoded::Frame {
            consumed: 3,
            payload: vec![18, 0]
        }
    );
    assert_eq!(buf.len(), 0);
}

#[test]
fn empty_buffer_needs_more_bytes() {
    assert_eq!(decode(&[]).unwrap(), Decoded::Incomplete);
}

#[test]
fn frame_split_across_reads_resumes() {
    let payload: Vec<u8> = vec![1; 200];
    let frame = encode(&payload).unwrap();
    let mut buf = FrameBuffer::new();
    // the first chunk ends inside the length prefix
    buf.extend(&frame[..1]);
    assert_eq!(buf.next_frame().unwrap(), Decoded::Incomplete);
    assert_eq!(buf.len(), 1);
    // the second chunk ends inside the payload
    buf.extend(&frame[1..50]);
    assert_eq!(buf.next_frame().unwrap(), Decoded::Incomplete);
    assert_eq!(buf.len(), 50);
    buf.extend(&frame[50..]);
    assert_eq!(payload_of(buf.next_frame().unwrap()), payload);
    assert_eq!(buf.len(), 0);
}

#[test]
fn negative_length_is_refused() {
    // zigzag image 1 stands for -1
    assert_eq!(decode(&[1, 0, 0]), Err(CodecError::NegativeLength));
    let mut buf = FrameBuffer::new();
    buf.extend(&[3]);
    assert_eq!(buf.next_frame(), Err(CodecError::NegativeLength));
    assert_eq!(buf.len(), 1);
}

#[test]
fn length_above_limit_is_refused() {
    let too_long = (MAX_FRAME_LEN as u64 + 1) * 2;
    let mut prefix = Vec::new();
    let mut n = too_long;
    while n >= 0x80 {
        prefix.push((n as u8) | 0x80);
        n >>= 7;
    }
    prefix.push(n as u8);
    assert_eq!(decode(&prefix), Err(CodecError::FrameTooLarge));
}

#[test]
fn length_at_limit_waits_for_payload() {
    let at_limit = (MAX_FRAME_LEN as u64) * 2;
    let mut prefix = Vec::new();
    let mut n = at_limit;
    while n >= 0x80 {
        prefix.push((n as u8) | 0x80);
        n >>= 7;
    }
    prefix.push(n as u8);
    assert_eq!(decode(&prefix), Ok(Decoded::Incomplete));
}

#[test]
fn overlong_length_is_malformed() {
    assert_eq!(decode(&[0x80; 10]), Err(CodecError::MalformedLength));
    assert_eq!(decode(&[0x80; 9]), Ok(Decoded::Incomplete));
}

#[test]
fn non_minimal_length_decodes_to_a_shorter_encoding() {
    // a length of 1 written in two bytes
    let bytes = [0x82, 0x00, 42];
    let decoded = decode(&bytes).unwrap();
    assert_eq!(
        decoded,
        Decoded::Frame {
            consumed: 3,
            payload: vec![42]
        }
    );
    assert_eq!(encode(&payload_of(decoded)).unwrap(), vec![2, 42]);
}
