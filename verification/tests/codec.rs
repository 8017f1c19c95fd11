use airdrop::message::{AirdropMessage, FormatError, MESSAGE_LEN};

fn sample() -> AirdropMessage {
    let mut account = [0u8; 32];
    for (i, b) in account.iter_mut().enumerate() {
        *b = i as u8 + 1;
    }
    let mut nft = [0u8; 20];
    for (i, b) in nft.iter_mut().enumerate() {
        *b = 0xA0 + i as u8;
    }
    AirdropMessage { account, nft, id: 0x1234 }
}

#[test]
fn encode_lays_fields_out_in_order() {
    let m = sample();
    let bytes = m.encode();
    assert_eq!(bytes.len(), 54);
    assert_eq!(MESSAGE_LEN, 54);
    assert_eq!(&bytes[0..32], &m.account[..]);
    assert_eq!(&bytes[32..52], &m.nft[..]);
    assert_eq!(bytes[52], 0x12);
    assert_eq!(bytes[53], 0x34);
}

#[test]
fn identifier_is_big_endian_on_the_wire() {
    let m = AirdropMessage { account: [0; 32], nft: [0; 20], id: 7 };
    let bytes = m.encode();
    assert_eq!(&bytes[52..54], &[0u8, 7u8][..]);
    assert_eq!(&bytes[52..54], &7u16.to_be_bytes()[..]);

    let mut raw = vec![0u8; 54];
    raw[52] = 0x01;
    raw[53] = 0x02;
    let decoded = AirdropMessage::decode(&raw).unwrap();
    assert_eq!(decoded.id, 258);
    assert_eq!(decoded.id, u16::from_be_bytes([0x01, 0x02]));
}

#[test]
fn decode_inverts_encode() {
    let m = sample();
    assert_eq!(AirdropMessage::decode(&m.encode()), Ok(m));
    for id in [0u16, 1, 255, 256, 257, 0x7FFF, 0x8000, 0xFFFE, 0xFFFF] {
        let m = AirdropMessage { account: [id as u8; 32], nft: [(id >> 8) as u8; 20], id };
        assert_eq!(AirdropMessage::decode(&m.encode()), Ok(m));
    }
}

#[test]
fn encode_inverts_decode() {
    let mut raw = Vec::new();
    for i in 0..54u8 {
        raw.push(i.wrapping_mul(37).wrapping_add(11));
    }
    let m = AirdropMessage::decode(&raw).unwrap();
    assert_eq!(m.encode(), raw);
    assert_eq!(&m.account[..], &raw[0..32]);
    assert_eq!(&m.nft[..], &raw[32..52]);
    assert_eq!(m.id, (raw[52] as u16) * 256 + raw[53] as u16);
}

#[test]
fn every_short_buffer_is_truncated() {
    let full = sample().encode();
    for len in 0..54 {
        assert_eq!(AirdropMessage::decode(&full[..len]), Err(FormatError::Truncated));
        assert_eq!(AirdropMessage::deserialize_reader(&full[..len]), Err(FormatError::Truncated));
    }
}

#[test]
fn trailing_bytes_are_refused_by_decode() {
    let mut bytes = sample().encode();
    bytes.push(0);
    assert_eq!(AirdropMessage::decode(&bytes), Err(FormatError::TrailingBytes));
}

#[test]
fn reader_takes_the_head_of_a_stream() {
    let m = sample();
    let mut bytes = m.encode();
    bytes.extend_from_slice(&[9, 9, 9]);
    assert_eq!(AirdropMessage::deserialize_reader(&bytes), Ok(m));
    assert_eq!(AirdropMessage::deserialize_reader(&m.encode()), Ok(m));
}

#[test]
fn serialize_appends_to_the_writer() {
    let m = sample();
    let mut writer = vec![0xEEu8, 0xFF];
    m.serialize(&mut writer);
    assert_eq!(writer.len(), 56);
    assert_eq!(&writer[..2], &[0xEEu8, 0xFF][..]);
    assert_eq!(&writer[2..], &m.encode()[..]);
}
