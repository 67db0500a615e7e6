use awdl_frame_parser::arpa::ArpaTLV;
use awdl_frame_parser::awdl_str::AWDLStr;
use awdl_frame_parser::dns_compression::AWDLDnsCompression;
use awdl_frame_parser::dns_name::AWDLDnsName;
use awdl_frame_parser::dns_record::AWDLDnsRecord;
use awdl_frame_parser::service_parameters::ServiceParametersTLV;
use awdl_frame_parser::service_response::ServiceResponseTLV;
use awdl_frame_parser::tlv::{TLVType, TLV};

fn name(labels: &[&[u8]], domain: AWDLDnsCompression) -> AWDLDnsName {
    AWDLDnsName {
        labels: labels.iter().map(|l| AWDLStr(l.to_vec())).collect(),
        domain,
    }
}

#[test]
fn awdl_dns_name_test_dns_name() {
    let bytes = [
        0x04, b'a', b'w', b'd', b'l', 0x04, b'a', b'w', b'd', b'l', 0xc0, 0x0c,
    ];
    let dns_name = AWDLDnsName::from_bytes(&bytes).unwrap();
    assert_eq!(dns_name, name(&[b"awdl", b"awdl"], AWDLDnsCompression::Local));
    assert_eq!(dns_name.to_bytes(), bytes.to_vec());
}

#[test]
fn tlv_test_dns_name() {
    let bytes: [u8; 7] = [0x04, 0x61, 0x77, 0x64, 0x6c, 0xc0, 0x0c];
    let dns_name = AWDLDnsName::from_bytes(&bytes).unwrap();
    assert_eq!(dns_name, name(&[b"awdl"], AWDLDnsCompression::Local));
    assert_eq!(dns_name.to_bytes(), bytes.to_vec());
    let bytes: [u8; 17] = [
        0x04, 0x61, 0x77, 0x64, 0x6c, 0x04, 0x61, 0x77, 0x64, 0x6c, 0x04, 0x61, 0x77, 0x64, 0x6c,
        0xc0, 0x0c,
    ];
    let dns_name = AWDLDnsName::from_bytes(&bytes).unwrap();
    assert_eq!(
        dns_name,
        name(&[b"awdl", b"awdl", b"awdl"], AWDLDnsCompression::Local)
    );
    assert_eq!(dns_name.to_bytes(), bytes.to_vec());
}

#[test]
fn test_dns_compression_round_trip() {
    // A name ending in a known suffix re-encodes to the two-byte code, not
    // literal bytes.
    let n = name(&[b"x"], AWDLDnsCompression::TcpLocal);
    let bytes = n.to_bytes();
    assert_eq!(bytes, vec![0x01, b'x', 0xc0, 0x0a]);
    let back = AWDLDnsName::from_bytes(&bytes).unwrap();
    assert_eq!(back.domain, AWDLDnsCompression::TcpLocal);
    assert_eq!(back, n);
}

fn arpa_fixture() -> Vec<u8> {
    let mut bytes = vec![0x10, 0x13, 0x00, 0x03, 0x0f];
    bytes.extend_from_slice(b"simon-framework");
    bytes.extend_from_slice(&[0xc0, 0x0c]);
    bytes
}

#[test]
fn tlv_test_arpa_tlv() {
    let bytes = arpa_fixture();
    let tlv = TLV::from_bytes(&bytes).unwrap();
    assert_eq!(tlv.tlv_type, TLVType::Arpa);
    let arpa_tlv = ArpaTLV::from_bytes(&tlv.tlv_data).unwrap();
    assert_eq!(
        arpa_tlv,
        ArpaTLV {
            arpa: name(&[b"simon-framework"], AWDLDnsCompression::Local)
        }
    );
    let reencoded = TLV {
        tlv_type: TLVType::Arpa,
        tlv_data: arpa_tlv.to_bytes(),
    };
    assert_eq!(reencoded, tlv);
    assert_eq!(arpa_tlv.to_bytes(), bytes[3..].to_vec());
}

#[test]
fn arpa_tlv_test_arpa_tlv() {
    let bytes = arpa_fixture();
    let arpa_tlv = ArpaTLV::from_bytes(&bytes[3..]).unwrap();
    assert_eq!(
        arpa_tlv,
        ArpaTLV {
            arpa: name(&[b"simon-framework"], AWDLDnsCompression::Local)
        }
    );
    assert_eq!(arpa_tlv.to_bytes(), bytes[3..].to_vec());
}

#[test]
fn test_service_parameters_tlv() {
    let mut bytes = vec![0x06, 0x10, 0x00];
    bytes.extend_from_slice(&[0x00, 0x00, 0x00, 0x37, 0x00]);
    bytes.extend_from_slice(&[0x00, 0x30, 0x27, 0x20]);
    bytes.extend_from_slice(&[0x10, 0x80, 0x01, 0x40, 0x40, 0x20, 0x20]);

    let service_parameters_tlv = ServiceParametersTLV::from_bytes(&bytes[3..]).unwrap();
    assert_eq!(
        service_parameters_tlv,
        ServiceParametersTLV {
            sui: 55,
            encoded_values: vec![100, 111, 128, 142, 150, 173, 237],
        }
    );
    assert_eq!(service_parameters_tlv.to_bytes(), bytes[3..].to_vec());
}

fn service_response_ptr_fixture() -> Vec<u8> {
    let mut payload = vec![0x10, 0x00, 0x0c];
    payload.extend_from_slice(b"_airplay-p2p");
    payload.extend_from_slice(&[0xc0, 0x0a]);
    payload.extend_from_slice(&[0x0c, 0x15, 0x00, 0x00, 0x00, 0x12]);
    payload.extend_from_slice(b"34FD6A0C9A42@1.021");
    payload.extend_from_slice(&[0xc0, 0x00]);
    let mut bytes = vec![0x02, payload.len() as u8, 0x00];
    bytes.extend_from_slice(&payload);
    bytes
}

fn expected_ptr() -> ServiceResponseTLV {
    ServiceResponseTLV {
        name: name(&[b"_airplay-p2p"], AWDLDnsCompression::TcpLocal),
        record: AWDLDnsRecord::PTR {
            domain_name: name(&[b"34FD6A0C9A42@1.021"], AWDLDnsCompression::Null),
        },
    }
}

#[test]
fn tlv_test_service_response_tlv_ptr() {
    let bytes = service_response_ptr_fixture();
    let tlv = TLV::from_bytes(&bytes).unwrap();
    assert_eq!(tlv.tlv_type, TLVType::ServiceResponse);
    let service_response_tlv = ServiceResponseTLV::from_bytes(&tlv.tlv_data).unwrap();
    assert_eq!(service_response_tlv, expected_ptr());
    let reencoded = TLV {
        tlv_type: TLVType::ServiceResponse,
        tlv_data: service_response_tlv.to_bytes(),
    };
    assert_eq!(reencoded, tlv);
    assert_eq!(service_response_tlv.to_bytes(), bytes[3..].to_vec());
}

#[test]
fn mod_test_service_response_tlv_ptr() {
    let bytes = service_response_ptr_fixture();
    let service_response_tlv = ServiceResponseTLV::from_bytes(&bytes[3..]).unwrap();
    assert_eq!(service_response_tlv, expected_ptr());
    assert_eq!(service_response_tlv.to_bytes(), bytes[3..].to_vec());
}

fn service_response_srv_fixture() -> Vec<u8> {
    let mut payload = vec![0x23, 0x00, 0x12];
    payload.extend_from_slice(b"34fd6a0c9a42@1.021");
    payload.push(0x0c);
    payload.extend_from_slice(b"_airplay-p2p");
    payload.extend_from_slice(&[0xc0, 0x0a]);
    payload.extend_from_slice(&[0x21, 0x2d, 0x00, 0x00, 0x00]);
    payload.extend_from_slice(&[0x00, 0x00, 0x00, 0x00, 0x1b, 0x58, 0x24]);
    payload.extend_from_slice(b"dcc83dc2-fae7-4043-8c7a-a8b6bf49eaad");
    payload.extend_from_slice(&[0xc0, 0x0c]);
    let mut bytes = vec![0x02, payload.len() as u8, 0x00];
    bytes.extend_from_slice(&payload);
    bytes
}

fn expected_srv() -> ServiceResponseTLV {
    ServiceResponseTLV {
        name: name(
            &[b"34fd6a0c9a42@1.021", b"_airplay-p2p"],
            AWDLDnsCompression::TcpLocal,
        ),
        record: AWDLDnsRecord::SRV {
            priority: 0,
            weight: 0,
            port: 7000,
            target: name(
                &[b"dcc83dc2-fae7-4043-8c7a-a8b6bf49eaad"],
                AWDLDnsCompression::Local,
            ),
        },
    }
}

#[test]
fn tlv_test_service_response_tlv_srv() {
    let bytes = service_response_srv_fixture();
    let tlv = TLV::from_bytes(&bytes).unwrap();
    let service_response_tlv = ServiceResponseTLV::from_bytes(&tlv.tlv_data).unwrap();
    assert_eq!(service_response_tlv, expected_srv());
    assert_eq!(service_response_tlv.to_bytes(), bytes[3..].to_vec());
}

#[test]
fn mod_test_service_response_tlv_srv() {
    let bytes = service_response_srv_fixture();
    let service_response_tlv = ServiceResponseTLV::from_bytes(&bytes[3..]).unwrap();
    assert_eq!(service_response_tlv, expected_srv());
    assert_eq!(service_response_tlv.to_bytes(), bytes[3..].to_vec());
}

fn service_response_txt_fixture() -> Vec<u8> {
    let mut payload = vec![0x10, 0x00, 0x0c];
    payload.extend_from_slice(b"6dba48462242");
    payload.extend_from_slice(&[0xc0, 0x07]);
    payload.extend_from_slice(&[0x10, 0x0a, 0x00, 0x00, 0x00, 0x09]);
    payload.extend_from_slice(b"flags=999");
    let mut bytes = vec![0x02, payload.len() as u8, 0x00];
    bytes.extend_from_slice(&payload);
    bytes
}

fn expected_txt() -> ServiceResponseTLV {
    ServiceResponseTLV {
        name: name(&[b"6dba48462242"], AWDLDnsCompression::AirDropTcpLocal),
        record: AWDLDnsRecord::TXT {
            txt_record: vec![AWDLStr(b"flags=999".to_vec())],
        },
    }
}

#[test]
fn tlv_test_service_response_tlv_txt() {
    let bytes = service_response_txt_fixture();
    let tlv = TLV::from_bytes(&bytes).unwrap();
    let service_response_tlv = ServiceResponseTLV::from_bytes(&tlv.tlv_data).unwrap();
    assert_eq!(service_response_tlv, expected_txt());
    assert_eq!(service_response_tlv.to_bytes(), bytes[3..].to_vec());
}

#[test]
fn mod_test_service_response_tlv_txt() {
    let bytes = service_response_txt_fixture();
    let service_response_tlv = ServiceResponseTLV::from_bytes(&bytes[3..]).unwrap();
    assert_eq!(service_response_tlv, expected_txt());
    assert_eq!(service_response_tlv.to_bytes(), bytes[3..].to_vec());
}
