use awdl_frame_parser::data_path_flags::{DataPathExtendedFlags, DataPathFlags};
use awdl_frame_parser::data_path_misc::{ChannelMap, DataPathChannel, DataPathStats, UnicastOptions};
use awdl_frame_parser::data_path_state::DataPathStateTLV;
use awdl_frame_parser::ht_capabilities::{
    AMpduParameters, HTCapabilitiesInfo, HTCapabilitiesTLV, MAXAMpduLength, MpduDensity, SmPwSave,
};

fn ht_capabilities_fixture() -> Vec<u8> {
    vec![
        0x07, 0x09, 0x00, // envelope
        0x00, 0x00, 0x6f, 0x01, 0x1f, 0xff, 0xff, 0x00, 0x00,
    ]
}

fn expected_ht_capabilities() -> HTCapabilitiesTLV {
    HTCapabilitiesTLV {
        ht_capabilities_info: HTCapabilitiesInfo {
            ldpc_coding_capability: true,
            support_channel_width: true,
            sm_power_save: SmPwSave::Disabled,
            short_gi_20mhz: true,
            short_gi_40mhz: true,
            rx_stbc: 1,
            ..Default::default()
        },
        a_mpdu_parameters: AMpduParameters {
            max_a_mpdu_length: MAXAMpduLength::VeryLarge,
            mpdu_density: MpduDensity::Sixteen,
        },
        rx_spatial_stream_count: 2,
    }
}

#[test]
fn ht_capabilities_tlv_test_ht_capabilities() {
    let bytes = ht_capabilities_fixture();
    assert_eq!(
        HTCapabilitiesInfo::from_bits(0x1u16 | 0xcu16),
        HTCapabilitiesInfo {
            ldpc_coding_capability: true,
            sm_power_save: SmPwSave::Disabled,
            ..Default::default()
        }
    );
    let ht_capabilities_tlv = HTCapabilitiesTLV::from_bytes(&bytes[3..]).unwrap();
    assert_eq!(ht_capabilities_tlv, expected_ht_capabilities());
    assert_eq!(ht_capabilities_tlv.to_bytes(), bytes[3..].to_vec());
}

#[test]
fn mod_test_ht_capabilities() {
    let bytes = ht_capabilities_fixture();
    let ht_capabilities_tlv = HTCapabilitiesTLV::from_bytes(&bytes[3..]).unwrap();
    assert_eq!(ht_capabilities_tlv, expected_ht_capabilities());
    assert_eq!(ht_capabilities_tlv.to_bytes(), bytes[3..].to_vec());
}

fn data_path_state_fixture() -> Vec<u8> {
    let mut bytes = vec![0x23, 0x9f]; // flags
    bytes.extend_from_slice(&[0x44, 0x45, 0x00]); // country code DE
    bytes.extend_from_slice(&[0x03, 0x00]); // channel map
    bytes.extend_from_slice(&[0x00; 8]); // infra bssid + channel
    bytes.extend_from_slice(&[0xbe, 0x45, 0xa1, 0xd1, 0x49, 0xb6]); // infra address
    bytes.extend_from_slice(&[0x04, 0x00, 0x00, 0x00, 0x00, 0x00]); // unicast options
    bytes.extend_from_slice(&[0x6d, 0x00]); // extended flags
    bytes.extend_from_slice(&[0x00, 0x00]); // log trigger id
    bytes.extend_from_slice(&[0x54, 0x2a, 0x00, 0x00]); // rlfc 10836
    bytes.extend_from_slice(&[0xb7, 0x00, 0x00, 0x00]); // msec since activation 183
    bytes.extend_from_slice(&[0x00, 0x00, 0x00, 0x00]); // aw seq counter
    bytes.extend_from_slice(&[0x81, 0x7f, 0x00, 0x00]); // pay update counter 32641
    bytes
}

fn expected_data_path_state() -> DataPathStateTLV {
    DataPathStateTLV {
        flags: DataPathFlags {
            infra_bssid_channel_present: true,
            infra_address_present: true,
            dualband_support: true,
            country_code_present: true,
            channel_map_present: true,
            airplay_solo_mode_support: true,
            umi_support: true,
            unicast_options_present: true,
            extended_flags: true,
            ..Default::default()
        },
        country_code: Some([b'D', b'E']),
        channel_map: Some(DataPathChannel::ChannelMap(ChannelMap {
            channel_6: true,
            channel_44: true,
            channel_149: false,
        })),
        infra_bssid_channel: Some(([0x00; 6], 0)),
        infra_address: Some([0xbe, 0x45, 0xa1, 0xd1, 0x49, 0xb6]),
        awdl_address: None,
        unicast_options: Some(UnicastOptions::default()),
        unicast_options_ext: None,
        extended_flags: Some(DataPathExtendedFlags {
            log_trigger_id_present: true,
            rlfc_present: true,
            is_social_channel_map_supported: true,
            stats_present: true,
            dfs_proxy_support: true,
            ..Default::default()
        }),
        log_trigger_id: Some(0x00),
        rlfc: Some(10836),
        stats: Some(DataPathStats {
            msec_since_activation: 183,
            aw_seq_counter: 0,
            pay_update_coutner: 32641,
        }),
    }
}

#[test]
fn mod_test_data_path_state_tlv() {
    let bytes = data_path_state_fixture();
    let data_path_state = DataPathStateTLV::from_bytes(&bytes).unwrap();
    assert_eq!(data_path_state, expected_data_path_state());
    assert_eq!(data_path_state.to_bytes(), bytes);
}

#[test]
fn test_data_path_state_field_order() {
    // With the country code, channel map, infrastructure BSSID and channel,
    // infrastructure address, and unicast options present, the fields are
    // read strictly in that order, and re-encoding sets exactly those flag
    // bits and no others.
    let value = DataPathStateTLV {
        flags: DataPathFlags::default(),
        country_code: Some([b'D', b'E']),
        channel_map: Some(DataPathChannel::SingleChannel { channel: 6 }),
        infra_bssid_channel: Some(([0x02, 0x04, 0x06, 0x08, 0x0a, 0x0c], 44)),
        infra_address: Some([0x11, 0x22, 0x33, 0x44, 0x55, 0x66]),
        awdl_address: None,
        unicast_options: Some(UnicastOptions::default()),
        unicast_options_ext: None,
        extended_flags: None,
        log_trigger_id: None,
        rlfc: None,
        stats: None,
    };
    let bytes = value.to_bytes();
    // The flag word holds exactly the presence bits of the five fields:
    // bits 0, 1, 8, 9, and 12.
    assert_eq!(bytes[0], 0x03);
    assert_eq!(bytes[1], 0x13);
    // The fields follow in flag-bit order.
    assert_eq!(&bytes[2..5], &[b'D', b'E', 0x00]); // country code first
    assert_eq!(&bytes[5..7], &[0x06, 0x00]); // then the channel map
    assert_eq!(&bytes[7..13], &[0x02, 0x04, 0x06, 0x08, 0x0a, 0x0c]); // BSSID
    assert_eq!(&bytes[13..15], &[44, 0x00]); // its channel
    assert_eq!(&bytes[15..21], &[0x11, 0x22, 0x33, 0x44, 0x55, 0x66]); // infra
    assert_eq!(&bytes[21..23], &[0x04, 0x00]); // unicast options length
    assert_eq!(&bytes[23..27], &[0x00; 4]); // unicast options
    assert_eq!(bytes.len(), 27);
    let decoded = DataPathStateTLV::from_bytes(&bytes).unwrap();
    let mut expected = value.clone();
    // Decoding returns the flag word as written, presence bits included.
    expected.flags.country_code_present = true;
    expected.flags.channel_map_present = true;
    expected.flags.infra_bssid_channel_present = true;
    expected.flags.infra_address_present = true;
    expected.flags.unicast_options_present = true;
    assert_eq!(decoded, expected);
}
