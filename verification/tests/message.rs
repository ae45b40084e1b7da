use gossip_probe::message::classify;
use gossip_probe::message::payload_of;
use gossip_probe::message::read_channel_announcement;
use gossip_probe::message::read_frame_type;
use gossip_probe::message::read_node_announcement;
use gossip_probe::message::same_key;
use gossip_probe::message::split_frame;
use gossip_probe::message::AnnouncementInfo;
use gossip_probe::message::ChannelAnnouncement;
use gossip_probe::message::MessageKind;
use gossip_probe::message::NodeAnnouncement;
use gossip_probe::message::NodeId;
use gossip_probe::message::CHANNEL_ANNOUNCEMENT;
use gossip_probe::message::CHANNEL_SIGNATURES_LEN;
use gossip_probe::message::MAX_MESSAGE_LEN;
use gossip_probe::message::NODE_ANNOUNCEMENT;
use gossip_probe::message::NODE_SIGNATURES_LEN;

fn public_m(byte: u8) -> [u8; 33] {
    let key = secp256k1::SecretKey::from_slice(&[byte; 32]).unwrap();
    secp256k1::PublicKey::from_secret_key(&secp256k1::Secp256k1::new(), &key).serialize()
}

fn node_payload_m(features: &[u8], timestamp: u32) -> Vec<u8> {
    let mut payload = (features.len() as u16).to_be_bytes().to_vec();
    payload.extend_from_slice(features);
    payload.extend_from_slice(&timestamp.to_be_bytes());
    payload.extend_from_slice(&public_m(1));
    payload.extend_from_slice(&[1, 2, 3]);
    payload.extend_from_slice(&[b'a'; 32]);
    payload.extend_from_slice(&[0u8, 0u8]);
    payload
}

#[test]
fn the_message_types_are_those_of_the_protocol() {
    assert_eq!(CHANNEL_ANNOUNCEMENT, 256);
    assert_eq!(NODE_ANNOUNCEMENT, 257);
    assert_eq!(NODE_SIGNATURES_LEN, 64);
    assert_eq!(CHANNEL_SIGNATURES_LEN, 256);
    assert_eq!(MAX_MESSAGE_LEN, 65535);
}

#[test]
fn the_type_is_read_most_significant_byte_first() {
    assert_eq!(read_frame_type(&[0x01, 0x01]), Some(257));
    assert_eq!(read_frame_type(&[0x01, 0x00, 0xff]), Some(256));
    assert_eq!(read_frame_type(&[0x00, 0x12]), Some(18));
    assert_eq!(read_frame_type(&[0xff, 0xfe]), Some(0xfffe));
    assert_eq!(read_frame_type(&[0x01]), None);
    assert_eq!(read_frame_type(&[]), None);
}

#[test]
fn frames_are_told_apart_by_their_type() {
    assert_eq!(classify(&[1, 1, 9, 9]), Some(MessageKind::NodeAnnouncement));
    assert_eq!(classify(&[1, 0]), Some(MessageKind::ChannelAnnouncement));
    assert_eq!(classify(&[1, 2, 5]), Some(MessageKind::Other(258)));
    assert_eq!(classify(&[0, 16]), Some(MessageKind::Other(16)));
    assert_eq!(classify(&[0, 1]), Some(MessageKind::Other(1)));
    assert_eq!(classify(&[7]), None);
    assert_eq!(classify(&[]), None);
}

#[test]
fn the_body_follows_the_type() {
    assert_eq!(split_frame(&[1, 1, 9, 8, 7]), Some((MessageKind::NodeAnnouncement, &[9u8, 8, 7][..])));
    assert_eq!(split_frame(&[1, 0]), Some((MessageKind::ChannelAnnouncement, &[][..])));
    assert_eq!(split_frame(&[0, 17, 5]), Some((MessageKind::Other(17), &[5u8][..])));
    assert_eq!(split_frame(&[1]), None);
    assert_eq!(split_frame(&[]), None);
}

#[test]
fn the_payload_follows_the_signatures() {
    let wire: Vec<u8> = (0..100u8).collect();
    assert_eq!(payload_of(&wire, 64), Some(&wire[64..]));
    assert_eq!(payload_of(&wire, 100), Some(&[] as &[u8]));
    assert_eq!(payload_of(&wire, 0), Some(&wire[..]));
    assert_eq!(payload_of(&wire, 101), None);
    assert_eq!(payload_of(&[], 64), None);
}

#[test]
fn a_node_announcement_is_read_field_by_field() {
    let mut wire = vec![0xeeu8; 64];
    wire.extend_from_slice(&node_payload_m(&[0x02, 0x80], 0x0102_0304));
    let decoded = read_node_announcement(&wire);
    assert_eq!(
        decoded,
        Some(NodeAnnouncement {
            node_id: NodeId::new(public_m(1)),
            info: AnnouncementInfo {
                timestamp: 0x0102_0304,
                rgb: [1, 2, 3],
                alias: [b'a'; 32],
                features: vec![0, 2, 0x02, 0x80],
                addresses: vec![],
            },
        })
    );
}

#[test]
fn a_node_announcement_that_is_cut_short_is_not_read() {
    let mut wire = vec![0xeeu8; 64];
    wire.extend_from_slice(&node_payload_m(&[], 5));
    assert!(read_node_announcement(&wire).is_some());
    for len in [0usize, 10, 63, 64, 70, wire.len() - 1] {
        assert_eq!(read_node_announcement(&wire[..len]), None);
    }
}

#[test]
fn a_channel_announcement_is_read_field_by_field() {
    let mut wire = vec![0xeeu8; 256];
    wire.extend_from_slice(&[0, 0]);
    wire.extend_from_slice(&[0x42; 32]);
    wire.extend_from_slice(&0x0102_0304_0506_0708u64.to_be_bytes());
    for byte in 1..=4u8 {
        wire.extend_from_slice(&public_m(byte));
    }
    assert_eq!(
        read_channel_announcement(&wire),
        Some(ChannelAnnouncement {
            chain_hash: [0x42; 32],
            short_channel_id: 0x0102_0304_0506_0708,
            node_id_1: NodeId::new(public_m(1)),
            node_id_2: NodeId::new(public_m(2)),
            bitcoin_key_1: public_m(3),
            bitcoin_key_2: public_m(4),
        })
    );
    assert_eq!(read_channel_announcement(&wire[..wire.len() - 1]), None);
    assert_eq!(read_channel_announcement(&wire[..255]), None);
    assert_eq!(read_channel_announcement(&[]), None);
}

#[test]
fn keys_are_the_same_when_their_bytes_are() {
    let mut key = [5u8; 33];
    assert!(same_key(&key, &[5u8; 33]));
    key[32] = 6;
    assert!(!same_key(&key, &[5u8; 33]));
    key[32] = 5;
    key[0] = 6;
    assert!(!same_key(&key, &[5u8; 33]));
    assert!(same_key(&public_m(1), &public_m(1)));
    assert!(!same_key(&public_m(1), &public_m(2)));
}

#[test]
fn the_addresses_are_read_as_they_are_encoded() {
    let mut wire = vec![0xeeu8; 64];
    wire.extend_from_slice(&[0, 0]);
    wire.extend_from_slice(&7u32.to_be_bytes());
    wire.extend_from_slice(&public_m(1));
    wire.extend_from_slice(&[1, 2, 3]);
    wire.extend_from_slice(&[b'a'; 32]);
    let first = vec![1u8, 127, 0, 0, 1, 0x26, 0x07];
    let mut second = vec![2u8];
    second.extend_from_slice(&[0xfe; 16]);
    second.extend_from_slice(&[0, 80]);
    wire.extend_from_slice(&((first.len() + second.len()) as u16).to_be_bytes());
    wire.extend_from_slice(&first);
    wire.extend_from_slice(&second);
    let decoded = read_node_announcement(&wire).unwrap();
    assert_eq!(decoded.info.addresses, vec![first, second]);
    assert_eq!(decoded.info.timestamp, 7);
}

#[test]
fn what_is_longer_than_a_message_can_be_is_not_read() {
    let mut node = vec![0xeeu8; 64];
    node.extend_from_slice(&node_payload_m(&[], 5));
    node.resize(65535, 0);
    assert!(read_node_announcement(&node).is_some());
    node.push(0);
    assert_eq!(read_node_announcement(&node), None);
    node.resize(100_000, 0);
    assert_eq!(read_node_announcement(&node), None);

    let mut channel = vec![0xeeu8; 256];
    channel.extend_from_slice(&[0, 0]);
    channel.extend_from_slice(&[0x42; 32]);
    channel.extend_from_slice(&9u64.to_be_bytes());
    for byte in 1..=4u8 {
        channel.extend_from_slice(&public_m(byte));
    }
    channel.resize(65535, 0);
    assert!(read_channel_announcement(&channel).is_some());
    channel.push(0);
    assert_eq!(read_channel_announcement(&channel), None);
}

#[test]
fn an_address_list_that_counts_past_its_16_bits_is_not_read() {
    let mut wire = vec![0xeeu8; 64];
    wire.extend_from_slice(&[0, 0]);
    wire.extend_from_slice(&7u32.to_be_bytes());
    wire.extend_from_slice(&public_m(1));
    wire.extend_from_slice(&[1, 2, 3]);
    wire.extend_from_slice(&[b'a'; 32]);
    wire.extend_from_slice(&[0xff, 0xff]);
    for _ in 0..9363 {
        wire.extend_from_slice(&[1u8, 10, 0, 0, 1, 0x26, 0x07]);
    }
    assert_eq!(wire.len(), 65681);
    assert_eq!(read_node_announcement(&wire), None);
}
