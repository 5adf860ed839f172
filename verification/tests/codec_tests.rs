use netharness::channels::ChannelKind;
use netharness::codec::decode_c2s;
use netharness::codec::decode_s2c;
use netharness::codec::encode_c2s;
use netharness::codec::encode_s2c;
use netharness::messages::c2s_channel;
use netharness::messages::s2c_channel;
use netharness::messages::C2SMsg;
use netharness::messages::S2CMsg;

#[test]
fn round_trip_every_c2s_variant() {
    for m in [C2SMsg::Ping, C2SMsg::Disconnect] {
        let bytes = encode_c2s(&m);
        assert_eq!(decode_c2s(&bytes), Some(m));
    }
}

#[test]
fn round_trip_every_s2c_variant() {
    for m in [S2CMsg::Pong, S2CMsg::Disconnect] {
        let bytes = encode_s2c(&m);
        assert_eq!(decode_s2c(&bytes), Some(m));
    }
}

#[test]
fn encodings_are_distinct_single_bytes() {
    assert_eq!(encode_c2s(&C2SMsg::Ping), vec![1u8]);
    assert_eq!(encode_c2s(&C2SMsg::Disconnect), vec![2u8]);
    assert_eq!(encode_s2c(&S2CMsg::Pong), vec![1u8]);
    assert_eq!(encode_s2c(&S2CMsg::Disconnect), vec![2u8]);
}

#[test]
fn malformed_frames_decode_to_nothing() {
    assert_eq!(decode_c2s(&vec![]), None);
    assert_eq!(decode_c2s(&vec![0u8]), None);
    assert_eq!(decode_c2s(&vec![3u8]), None);
    assert_eq!(decode_c2s(&vec![1u8, 1u8]), None);
    assert_eq!(decode_s2c(&vec![]), None);
    assert_eq!(decode_s2c(&vec![255u8]), None);
    assert_eq!(decode_s2c(&vec![2u8, 2u8]), None);
}

#[test]
fn message_channels_match_the_registry() {
    assert_eq!(c2s_channel(&C2SMsg::Ping), netharness::channels::UNORDERED_RELIABLE);
    assert_eq!(c2s_channel(&C2SMsg::Disconnect), netharness::channels::ORDERED_RELIABLE);
    assert_eq!(s2c_channel(&S2CMsg::Pong), netharness::channels::UNORDERED_RELIABLE);
    assert_eq!(s2c_channel(&S2CMsg::Disconnect), netharness::channels::ORDERED_RELIABLE);
}

#[test]
fn channel_registry_order_is_fixed() {
    let kinds = netharness::channels::channel_kinds();
    assert_eq!(kinds.len(), 3);
    assert_eq!(kinds[netharness::channels::ORDERED_RELIABLE as usize], ChannelKind::OrderedReliable);
    assert_eq!(
        kinds[netharness::channels::UNORDERED_RELIABLE as usize],
        ChannelKind::UnorderedReliable
    );
    assert_eq!(kinds[netharness::channels::UNRELIABLE as usize], ChannelKind::Unreliable);
    assert_eq!(netharness::channels::ORDERED_RELIABLE, 0);
    assert_eq!(netharness::channels::UNORDERED_RELIABLE, 1);
    assert_eq!(netharness::channels::UNRELIABLE, 2);
}

#[test]
fn effective_port_defaults() {
    assert_eq!(netharness::effective_port(Some(7777)), 7777);
    assert_eq!(netharness::effective_port(None), 22223);
    assert_eq!(netharness::DEFAULT_PORT, 22223);
}
