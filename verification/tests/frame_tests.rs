use awdl_frame_parser::action_frame::{AWDLActionFrame, AWDLActionFrameSubType, ReadTLVs};
use awdl_frame_parser::awdl_version::AWDLVersion;
use awdl_frame_parser::parser::ParserError;
use awdl_frame_parser::tlv::{FromTLVError, TLVType, TLV};
use awdl_frame_parser::tlvs::AWDLTLV;
use awdl_frame_parser::version::{AWDLDeviceClass, VersionTLV};

fn frame_fixture() -> Vec<u8> {
    let mut bytes = vec![
        0x08, 0x10, 0x03, 0x00, // magic, version, subtype MIF, reserved
        0xd0, 0x07, 0x00, 0x00, // phy tx time 2000
        0xe8, 0x03, 0x00, 0x00, // target tx time 1000
    ];
    bytes.extend_from_slice(&[0x15, 0x02, 0x00, 0x3e, 0x01]); // version TLV
    bytes.extend_from_slice(&[0x7f, 0x03, 0x00, 0xaa, 0xbb, 0xcc]); // unknown TLV
    bytes
}

#[test]
fn test_frame_round_trip() {
    // A full frame decodes and re-encodes to the identical buffer,
    // the TLV of unknown type passed through opaquely.
    let bytes = frame_fixture();
    let frame = AWDLActionFrame::from_bytes(&bytes).unwrap();
    assert_eq!(frame.subtype, AWDLActionFrameSubType::MIF);
    assert_eq!(frame.phy_tx_time, 2000);
    assert_eq!(frame.target_tx_time, 1000);
    assert_eq!(frame.tx_delta(), 1000);
    assert_eq!(frame.tlvs.len(), 2);
    assert_eq!(
        frame.tlvs[0],
        AWDLTLV::Version(VersionTLV {
            version: AWDLVersion {
                major: 3,
                minor: 14
            },
            device_class: AWDLDeviceClass::MacOS,
        })
    );
    assert_eq!(
        frame.tlvs[1],
        AWDLTLV::Unknown(TLV {
            tlv_type: TLVType::Unknown(0x7f),
            tlv_data: vec![0xaa, 0xbb, 0xcc],
        })
    );
    assert_eq!(frame.to_bytes(), bytes);
}

#[test]
fn test_frame_invalid_magic() {
    let mut bytes = frame_fixture();
    bytes[0] = 0x09;
    match AWDLActionFrame::from_bytes(&bytes) {
        Err(FromTLVError::ParserError(ParserError::InvalidMagic)) => {}
        other => panic!("expected InvalidMagic, got {:?}", other),
    }
    let mut bytes = frame_fixture();
    bytes[1] = 0x11;
    match AWDLActionFrame::from_bytes(&bytes) {
        Err(FromTLVError::ParserError(ParserError::InvalidMagic)) => {}
        other => panic!("expected InvalidMagic, got {:?}", other),
    }
}

#[test]
fn test_frame_header_incomplete() {
    match AWDLActionFrame::from_bytes(&[0x08, 0x10, 0x03]) {
        Err(FromTLVError::ParserError(ParserError::HeaderIncomplete(n))) => assert_eq!(n, 9),
        other => panic!("expected HeaderIncomplete, got {:?}", other),
    }
}

#[test]
fn test_frame_truncated_tlv() {
    // A TLV whose declared length exceeds the rest of the buffer fails the
    // whole frame with TooLittleData; nothing is silently dropped.
    let mut bytes = frame_fixture();
    bytes.extend_from_slice(&[0x04, 0x40, 0x00, 0x01]);
    match AWDLActionFrame::from_bytes(&bytes) {
        Err(FromTLVError::ParserError(ParserError::TooLittleData(n))) => assert_eq!(n, 63),
        other => panic!("expected TooLittleData, got {:?}", other),
    }
}

#[test]
fn test_from_raw_incorrect_length() {
    // A known type code with a payload under its minimum size is rejected
    // when the raw TLV is converted.
    let raw = TLV {
        tlv_type: TLVType::Version,
        tlv_data: vec![0x3e],
    };
    match AWDLTLV::from_raw(&raw) {
        Err(FromTLVError::IncorrectTlvLength) => {}
        other => panic!("expected IncorrectTlvLength, got {:?}", other),
    }
}

#[test]
fn test_read_tlvs() {
    let bytes = frame_fixture();
    let reader = ReadTLVs::new(&bytes[12..]);
    let tlvs = reader.get_tlvs().unwrap();
    assert_eq!(tlvs.len(), 2);
    let first = reader.get_first_tlv(TLVType::Version).unwrap();
    assert!(matches!(first, AWDLTLV::Version(_)));
    assert!(reader.get_first_tlv(TLVType::Arpa).is_none());
}

#[test]
fn test_get_tlvs_filters_by_type() {
    let bytes = frame_fixture();
    let frame = AWDLActionFrame::from_bytes(&bytes).unwrap();
    let versions = frame.get_tlvs(TLVType::Version);
    assert_eq!(versions.len(), 1);
    assert!(matches!(versions[0], AWDLTLV::Version(_)));
    assert_eq!(frame.get_tlvs(TLVType::Arpa).len(), 0);
}
