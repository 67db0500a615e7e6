use awdl_frame_parser::channel::{Channel, ChannelEncoding, LegacyFlags};
use awdl_frame_parser::channel_sequence::{ChannelSequence, ChannelSequenceTLV};
use awdl_frame_parser::election_parameters::{ElectionParametersTLV, ElectionParametersV2TLV};
use awdl_frame_parser::parser::ParserError;
use awdl_frame_parser::sync_parameters::SynchronizationParametersTLV;
use awdl_frame_parser::sync_tree::SyncTreeTLV;
use awdl_frame_parser::tlv::{TLVType, TLV};

fn channel_sequence_fixture() -> Vec<u8> {
    let mut payload = vec![0x0f, 0x03, 0x00, 0x03, 0xff, 0xff];
    for _ in 0..16 {
        payload.extend_from_slice(&[0x06, 0x51]);
    }
    payload.extend_from_slice(&[0x00, 0x00, 0x00]);
    let mut bytes = vec![0x12, payload.len() as u8, 0x00];
    bytes.extend_from_slice(&payload);
    bytes
}

fn expected_channel_sequence() -> ChannelSequenceTLV {
    ChannelSequenceTLV {
        duplicate_count: 0,
        step_count: 4,
        fill_channel: 0xffff,
        channel_sequence: ChannelSequence::fixed_channel_sequence(Channel::OpClass {
            channel: 0x6,
            opclass: 0x51,
        }),
    }
}

#[test]
fn tlv_test_channel_sequence_tlv() {
    let bytes = channel_sequence_fixture();
    let tlv = TLV::from_bytes(&bytes).unwrap();
    assert_eq!(tlv.tlv_type, TLVType::ChannelSequence);
    let channel_sequence_tlv = ChannelSequenceTLV::from_bytes(&tlv.tlv_data).unwrap();
    let reencoded = TLV {
        tlv_type: TLVType::ChannelSequence,
        tlv_data: channel_sequence_tlv.to_bytes(),
    };
    assert_eq!(tlv, reencoded);
    assert_eq!(
        channel_sequence_tlv.channel_sequence.channel_encoding(),
        ChannelEncoding::OpClass
    );
    assert_eq!(channel_sequence_tlv, expected_channel_sequence());
    assert_eq!(channel_sequence_tlv.to_bytes(), bytes[3..].to_vec());
}

#[test]
fn mod_test_channel_sequence_tlv() {
    let bytes = channel_sequence_fixture();
    let channel_sequence_tlv = ChannelSequenceTLV::from_bytes(&bytes[3..]).unwrap();
    assert_eq!(channel_sequence_tlv, expected_channel_sequence());
    assert_eq!(channel_sequence_tlv.to_bytes(), bytes[3..].to_vec());
}

#[test]
fn test_channel_sequence_count_rejected() {
    // A sequence whose stored channel count does not give sixteen channels
    // is rejected rather than normalized.
    let mut payload = vec![0x0e, 0x03, 0x00, 0x03, 0xff, 0xff];
    for _ in 0..16 {
        payload.extend_from_slice(&[0x06, 0x51]);
    }
    payload.extend_from_slice(&[0x00, 0x00, 0x00]);
    match ChannelSequenceTLV::from_bytes(&payload) {
        Err(ParserError::ValueNotUnderstood) => {}
        other => panic!("expected ValueNotUnderstood, got {:?}", other),
    }
}

#[test]
fn test_channel_sequence_unknown_encoding() {
    // An unknown channel encoding byte inside a sequence is a structural
    // error: the remaining bytes cannot be interpreted without it.
    let mut payload = vec![0x0f, 0x02, 0x00, 0x03, 0xff, 0xff];
    payload.extend_from_slice(&[0x00; 35]);
    match ChannelSequenceTLV::from_bytes(&payload) {
        Err(ParserError::ValueNotUnderstood) => {}
        other => panic!("expected ValueNotUnderstood, got {:?}", other),
    }
}

fn sync_tree_fixture() -> Vec<u8> {
    vec![
        0x14, 0x0c, 0x00, 0xbe, 0x70, 0xf3, 0x17, 0x21, 0xf2, 0x00, 0x00, 0x00, 0x00, 0x00, 0x00,
    ]
}

#[test]
fn tlv_test_sync_tree_tlv() {
    let bytes = sync_tree_fixture();
    let tlv = TLV::from_bytes(&bytes).unwrap();
    assert_eq!(tlv.tlv_type, TLVType::SynchronizationTree);
    let sync_tree_tlv = SyncTreeTLV::from_bytes(&tlv.tlv_data);
    let reencoded = TLV {
        tlv_type: TLVType::SynchronizationTree,
        tlv_data: sync_tree_tlv.to_bytes(),
    };
    assert_eq!(tlv, reencoded);
    assert_eq!(
        sync_tree_tlv,
        SyncTreeTLV {
            tree: vec![[0xbe, 0x70, 0xf3, 0x17, 0x21, 0xf2], [0x00; 6]]
        }
    );
    assert_eq!(sync_tree_tlv.to_bytes(), bytes[3..].to_vec());
}

#[test]
fn sync_tree_tlv_test_sync_tree_tlv() {
    let bytes = sync_tree_fixture();
    let sync_tree_tlv = SyncTreeTLV::from_bytes(&bytes[3..]);
    assert_eq!(
        sync_tree_tlv,
        SyncTreeTLV {
            tree: vec![[0xbe, 0x70, 0xf3, 0x17, 0x21, 0xf2], [0x00; 6]]
        }
    );
    assert_eq!(sync_tree_tlv.to_bytes(), bytes[3..].to_vec());
}

fn election_parameters_fixture() -> Vec<u8> {
    vec![
        0x05, 0x15, 0x00, // envelope
        0x00, // flags
        0x00, 0x00, // id
        0x02, // distance
        0x00, // reserved
        0x3a, 0xb4, 0x08, 0x6e, 0x66, 0x3d, // master address
        0x1d, 0x02, 0x00, 0x00, // master metric 541
        0x3c, 0x00, 0x00, 0x00, // self metric 60
        0x00, 0x00,
    ]
}

fn expected_election_parameters() -> ElectionParametersTLV {
    ElectionParametersTLV {
        flags: 0x00,
        id: 0x00,
        distance_to_master: 0x02,
        master_address: [0x3a, 0xb4, 0x08, 0x6e, 0x66, 0x3d],
        master_metric: 541,
        self_metric: 60,
    }
}

#[test]
fn tlv_test_election_parameters_tlv() {
    let bytes = election_parameters_fixture();
    let tlv = TLV::from_bytes(&bytes).unwrap();
    assert_eq!(tlv.tlv_type, TLVType::ElectionParameters);
    let election_parameters_tlv = ElectionParametersTLV::from_bytes(&tlv.tlv_data).unwrap();
    let reencoded = TLV {
        tlv_type: TLVType::ElectionParameters,
        tlv_data: election_parameters_tlv.to_bytes(),
    };
    assert_eq!(tlv, reencoded);
    assert_eq!(election_parameters_tlv, expected_election_parameters());
    assert_eq!(election_parameters_tlv.to_bytes(), bytes[3..].to_vec());
}

#[test]
fn election_parameters_tlv_test_election_parameters_tlv() {
    let bytes = election_parameters_fixture();
    let election_parameters_tlv = ElectionParametersTLV::from_bytes(&bytes[3..]).unwrap();
    assert_eq!(election_parameters_tlv, expected_election_parameters());
    assert_eq!(election_parameters_tlv.to_bytes(), bytes[3..].to_vec());
}

fn election_parameters_v2_fixture() -> Vec<u8> {
    let mut bytes = vec![0x18, 0x28, 0x00];
    bytes.extend_from_slice(&[0xce, 0x21, 0x1f, 0x62, 0x21, 0x22]);
    bytes.extend_from_slice(&[0xce, 0x21, 0x1f, 0x62, 0x21, 0x22]);
    bytes.extend_from_slice(&[0xc0, 0x03, 0x00, 0x00]); // master counter 960
    bytes.extend_from_slice(&[0x01, 0x00, 0x00, 0x00]); // distance 1
    bytes.extend_from_slice(&[0x8a, 0x02, 0x00, 0x00]); // master metric 650
    bytes.extend_from_slice(&[0x8a, 0x02, 0x00, 0x00]); // self metric 650
    bytes.extend_from_slice(&[0x00, 0x00, 0x00, 0x00]); // election id
    bytes.extend_from_slice(&[0x00, 0x00, 0x00, 0x00]); // reserved
    bytes.extend_from_slice(&[0x1e, 0x00, 0x00, 0x00]); // self counter 30
    bytes
}

fn expected_election_parameters_v2() -> ElectionParametersV2TLV {
    ElectionParametersV2TLV {
        master_address: [0xce, 0x21, 0x1f, 0x62, 0x21, 0x22],
        sync_address: [0xce, 0x21, 0x1f, 0x62, 0x21, 0x22],
        master_counter: 960,
        distance_to_master: 1,
        master_metric: 650,
        self_metric: 650,
        election_id: 0,
        self_counter: 30,
    }
}

#[test]
fn tlv_test_election_parameters_v2_tlv() {
    let bytes = election_parameters_v2_fixture();
    let tlv = TLV::from_bytes(&bytes).unwrap();
    assert_eq!(tlv.tlv_type, TLVType::ElectionParametersV2);
    let election_parameters_v2_tlv = ElectionParametersV2TLV::from_bytes(&tlv.tlv_data).unwrap();
    let reencoded = TLV {
        tlv_type: TLVType::ElectionParametersV2,
        tlv_data: election_parameters_v2_tlv.to_bytes(),
    };
    assert_eq!(tlv, reencoded);
    assert_eq!(election_parameters_v2_tlv, expected_election_parameters_v2());
    assert_eq!(election_parameters_v2_tlv.to_bytes(), bytes[3..].to_vec());
}

#[test]
fn election_parameters_v2_tlv_test_election_parameters_v2_tlv() {
    let bytes = election_parameters_v2_fixture();
    let election_parameters_v2_tlv = ElectionParametersV2TLV::from_bytes(&bytes[3..]).unwrap();
    assert_eq!(election_parameters_v2_tlv, expected_election_parameters_v2());
    assert_eq!(election_parameters_v2_tlv.to_bytes(), bytes[3..].to_vec());
}

#[test]
fn test_sync_parameters_round_trip() {
    // A synthetic synchronization parameters value survives the encode and
    // decode pair, the embedded channel sequence included.
    let value = SynchronizationParametersTLV {
        next_channel: 44,
        tx_counter: 49,
        master_channel: 6,
        guard_time: 0,
        aw_period: 16,
        af_period: 110,
        awdl_flags: 0x1800,
        aw_ext_length: 16,
        aw_common_length: 16,
        remaining_aw_length: 1,
        min_ext_count: 3,
        max_multicast_ext_count: 3,
        max_unicast_ext_count: 3,
        max_af_ext_count: 3,
        master_address: [0xce, 0x21, 0x1f, 0x62, 0x21, 0x22],
        presence_mode: 4,
        aw_seq_number: 1988,
        ap_beacon_alignment_delta: 1986,
        channel_sequence: ChannelSequenceTLV {
            duplicate_count: 0,
            step_count: 4,
            fill_channel: 0xffff,
            channel_sequence: ChannelSequence::fixed_channel_sequence(Channel::Legacy {
                flags: LegacyFlags::default(),
                channel: 8,
            }),
        },
    };
    let bytes = value.to_bytes();
    assert_eq!(bytes.len(), 33 + 6 + 32 + 2);
    let decoded = SynchronizationParametersTLV::from_bytes(&bytes).unwrap();
    assert_eq!(decoded, value);
}
