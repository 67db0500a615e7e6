use awdl_frame_parser::awdl_str::AWDLStr;
use awdl_frame_parser::awdl_version::AWDLVersion;
use awdl_frame_parser::parser::ParserError;
use awdl_frame_parser::tlv::{TLVType, TLV};
use awdl_frame_parser::version::{AWDLDeviceClass, VersionTLV};

#[test]
fn test_tlv() {
    let bytes = &[0x04, 0x05, 0x00, 0xff, 0xff, 0xff, 0xff, 0xff];
    let tlv = TLV::from_bytes(bytes).unwrap();
    assert_eq!(
        tlv,
        TLV {
            tlv_type: TLVType::SynchronizationParameters,
            tlv_data: vec![0xff; 5],
        }
    );
    assert_eq!(tlv.to_bytes(), bytes.to_vec());
}

#[test]
fn test_tlv_length_exceeds_buffer() {
    // A header claiming more payload than the buffer holds must fail with
    // TooLittleData, reporting how many bytes were missing.
    let bytes = &[0x04, 0x05, 0x00, 0xff, 0xff];
    match TLV::from_bytes(bytes) {
        Err(ParserError::TooLittleData(n)) => assert_eq!(n, 3),
        other => panic!("expected TooLittleData, got {:?}", other),
    }
    match TLV::from_bytes(&[0x04]) {
        Err(ParserError::TooLittleData(n)) => assert_eq!(n, 2),
        other => panic!("expected TooLittleData, got {:?}", other),
    }
}

#[test]
fn test_awdl_str() {
    let bytes = [0x06, 0x6c, 0x61, 0x6d, 0x62, 0x64, 0x61];
    let string = AWDLStr::from_bytes(&bytes).unwrap();
    assert_eq!(string, AWDLStr(b"lambda".to_vec()));
    let buf = string.to_bytes();
    assert_eq!(bytes.to_vec(), buf);
}

#[test]
fn tlv_test_version_tlv() {
    let bytes = [0x15, 0x02, 0x00, 0x34, 0x01];
    let tlv = TLV::from_bytes(&bytes).unwrap();
    assert_eq!(tlv.tlv_type, TLVType::Version);
    let version_tlv = VersionTLV::from_bytes(&tlv.tlv_data).unwrap();
    assert_eq!(
        version_tlv,
        VersionTLV {
            version: AWDLVersion { major: 3, minor: 4 },
            device_class: AWDLDeviceClass::MacOS,
        }
    );
    let reencoded = TLV {
        tlv_type: TLVType::Version,
        tlv_data: version_tlv.to_bytes(),
    };
    assert_eq!(reencoded, tlv);
    assert_eq!(version_tlv.to_bytes(), bytes[3..].to_vec());
}

#[test]
fn version_test_version_tlv() {
    let bytes = [0x3e, 0x01];
    let version_tlv = VersionTLV::from_bytes(&bytes).unwrap();
    assert_eq!(
        version_tlv,
        VersionTLV {
            version: AWDLVersion {
                major: 3,
                minor: 14
            },
            device_class: AWDLDeviceClass::MacOS,
        }
    );
    assert_eq!(version_tlv.to_bytes(), bytes.to_vec());
}

#[test]
fn mod_test_version_tlv() {
    let bytes = [0x3e, 0x01];
    let version_tlv = VersionTLV::from_bytes(&bytes).unwrap();
    assert_eq!(
        version_tlv,
        VersionTLV {
            version: AWDLVersion {
                major: 3,
                minor: 14
            },
            device_class: AWDLDeviceClass::MacOS,
        }
    );
    assert_eq!(version_tlv.to_bytes(), bytes.to_vec());
}
