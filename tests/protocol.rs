use rplidar_drv::{Message, RplidarHostProtocol, RposError};

fn encode(protocol: &mut RplidarHostProtocol, msg: &Message) -> Result<Vec<u8>, RposError> {
    let encoded_bytes = protocol.estimate_encoded_size(msg)?;
    let mut buf = vec![0; encoded_bytes];
    let encoded_bytes = protocol.encode(msg, &mut buf[0..encoded_bytes])?;
    buf.truncate(encoded_bytes);
    Ok(buf)
}

fn answer_frame(cmd: u8, payload: &[u8], flags: u32) -> Vec<u8> {
    let word = (payload.len() as u32) | (flags << 30);
    let mut v = vec![0xA5, 0x5A];
    v.extend_from_slice(&word.to_le_bytes());
    v.push(cmd);
    v.extend_from_slice(payload);
    v
}

#[test]
fn protocol_encode() {
    let mut protocol = RplidarHostProtocol::new();

    assert_eq!(
        encode(&mut protocol, &Message::new(0x25)).unwrap().as_slice(),
        [0xA5, 0x25]
    );

    assert_eq!(
        encode(&mut protocol, &Message::with_data(0x82, &[0; 5]))
            .unwrap()
            .as_slice(),
        [0xA5, 0x82, 0x05, 0, 0, 0, 0, 0, 0x22]
    );
}

#[test]
fn encode_checksum_covers_header_and_payload() {
    let mut protocol = RplidarHostProtocol::new();
    let bytes = protocol
        .encode_to_vec(&Message::with_data(0xF0, &[0x58, 0x02]))
        .unwrap();
    // 0xA5 ^ 0xF0 ^ 0x02 ^ 0x58 ^ 0x02
    assert_eq!(bytes, vec![0xA5, 0xF0, 0x02, 0x58, 0x02, 0x0D]);
}

#[test]
fn encode_rejects_large_payload() {
    let mut protocol = RplidarHostProtocol::new();
    let msg = Message::with_data(0x84, &[1u8; 256]);
    assert!(matches!(
        protocol.encode_to_vec(&msg),
        Err(RposError::OperationFail { .. })
    ));
    let mut buf = [0u8; 300];
    assert!(matches!(
        protocol.encode(&msg, &mut buf),
        Err(RposError::OperationFail { .. })
    ));
}

#[test]
fn encode_reports_small_buffer() {
    let mut protocol = RplidarHostProtocol::new();
    let mut buf = [7u8; 4];
    let r = protocol.encode(&Message::with_data(0x82, &[0; 5]), &mut buf);
    assert!(matches!(r, Err(RposError::BufferTooSmall)));
    assert_eq!(buf, [7u8; 4]);
}

#[test]
fn decode_single_answer() {
    let mut protocol = RplidarHostProtocol::new();
    let bytes = answer_frame(0x06, &[0, 0x34, 0x12], 0);
    let (consumed, msg) = protocol.decode(&bytes).unwrap();
    assert_eq!(consumed, bytes.len());
    assert_eq!(msg, Some(Message::with_data(0x06, &[0, 0x34, 0x12])));
}

#[test]
fn decode_empty_answer() {
    let mut protocol = RplidarHostProtocol::new();
    let bytes = answer_frame(0x25, &[], 0);
    let (consumed, msg) = protocol.decode(&bytes).unwrap();
    assert_eq!(consumed, 7);
    assert_eq!(msg, Some(Message::new(0x25)));
}

#[test]
fn decode_skips_garbage_before_sync() {
    let mut protocol = RplidarHostProtocol::new();
    let mut bytes = vec![0x00, 0xA5, 0x11];
    bytes.extend(answer_frame(0x04, &[9, 8], 0));
    let (consumed, msg) = protocol.decode(&bytes).unwrap();
    assert_eq!(consumed, bytes.len());
    assert_eq!(msg, Some(Message::with_data(0x04, &[9, 8])));
}

#[test]
fn decode_partial_input_in_pieces() {
    let mut protocol = RplidarHostProtocol::new();
    let bytes = answer_frame(0x20, &[1, 2, 3, 4], 0);
    let (c1, m1) = protocol.decode(&bytes[0..4]).unwrap();
    assert_eq!((c1, m1), (4, None));
    let (c2, m2) = protocol.decode(&bytes[4..9]).unwrap();
    assert_eq!((c2, m2), (5, None));
    let (c3, m3) = protocol.decode(&bytes[9..]).unwrap();
    assert_eq!(c3, 2);
    assert_eq!(m3, Some(Message::with_data(0x20, &[1, 2, 3, 4])));
}

#[test]
fn decode_looping_answer_repeats_payloads() {
    let mut protocol = RplidarHostProtocol::new();
    let mut bytes = answer_frame(0x81, &[1, 2], 1);
    bytes.extend_from_slice(&[3, 4]);
    let (c1, m1) = protocol.decode(&bytes).unwrap();
    assert_eq!(c1, 9);
    assert_eq!(m1, Some(Message::with_data(0x81, &[1, 2])));
    let (c2, m2) = protocol.decode(&bytes[c1..]).unwrap();
    assert_eq!(c2, 2);
    assert_eq!(m2, Some(Message::with_data(0x81, &[3, 4])));
}

#[test]
fn decode_looping_answer_without_size_is_an_error() {
    let mut protocol = RplidarHostProtocol::new();
    let bytes = answer_frame(0x81, &[], 1);
    assert!(matches!(
        protocol.decode(&bytes),
        Err(RposError::ProtocolError { .. })
    ));
    protocol.reset_decoder();
    let good = answer_frame(0x81, &[5], 0);
    assert_eq!(
        protocol.decode(&good).unwrap(),
        (8, Some(Message::with_data(0x81, &[5])))
    );
}
