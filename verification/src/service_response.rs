//! The service response TLV: the full name of a service followed by one DNS
//! record about it.
use vstd::prelude::*;

use crate::bytes::{read_u16_le, u16_le, u16_le_bytes, write_u16_le};
use crate::dns_name::{dns_name_parse, dns_name_serial, AWDLDnsName, DnsNameView};
use crate::dns_record::{dns_record_parse, dns_record_serial, AWDLDnsRecord, DnsRecordView};
use crate::parser::ParserError;

verus! {

/// A TLV with data about a service offered by the peer.
#[derive(Debug, Clone, PartialEq, Eq)]
pub struct ServiceResponseTLV {
    /// The full name of the service.
    pub name: AWDLDnsName,
    /// The DNS record contained in this response.
    pub record: AWDLDnsRecord,
}

/// The mathematical value of a [`ServiceResponseTLV`].
#[verifier::ext_equal]
pub struct ServiceResponseTLVView {
    pub name: DnsNameView,
    pub record: DnsRecordView,
}

impl View for ServiceResponseTLV {
    type V = ServiceResponseTLVView;

    open spec fn view(&self) -> ServiceResponseTLVView {
        ServiceResponseTLVView { name: self.name@, record: self.record@ }
    }
}

impl ServiceResponseTLVView {
    /// The name and the record are well-formed.
    pub open spec fn wf(self) -> bool {
        self.name.wf() && self.record.wf()
    }

    /// The name region fits the length field that precedes it.
    pub open spec fn fits(self) -> bool {
        dns_name_serial(self.name).len() + 1 <= 0xffff && self.record.body_serial().len() <= 0xffff
    }
}

impl ServiceResponseTLV {
    /// The name and the record are well-formed.
    pub open spec fn wf(&self) -> bool {
        self@.wf()
    }

    /// Parses a service response payload: a two-byte length `n`, the DNS
    /// name over the next `n - 1` bytes, then the record over the rest.
    pub open spec fn spec_parse(b: Seq<u8>) -> Result<ServiceResponseTLVView, ParserError> {
        if b.len() < 2 {
            Err(ParserError::TooLittleData((2 - b.len()) as usize))
        } else {
            let n = u16_le(b[0], b[1]) as int;
            if n < 1 {
                Err(ParserError::ValueNotUnderstood)
            } else if b.len() < 2 + (n - 1) {
                Err(ParserError::TooLittleData((2 + n - 1 - b.len()) as usize))
            } else {
                match dns_name_parse(b.subrange(2, 2 + n - 1)) {
                    Ok(name) => match dns_record_parse(b.skip(2 + n - 1)) {
                        Ok(record) => Ok(ServiceResponseTLVView { name, record }),
                        Err(e) => Err(e),
                    },
                    Err(e) => Err(e),
                }
            }
        }
    }

    /// The payload bytes: the name's length plus one, the name, then the
    /// record.
    pub open spec fn spec_serial(v: ServiceResponseTLVView) -> Seq<u8> {
        u16_le_bytes((dns_name_serial(v.name).len() + 1) as u16) + dns_name_serial(v.name)
            + dns_record_serial(v.record)
    }

    /// Decodes the payload of a service response TLV.
    pub fn from_bytes(b: &[u8]) -> (r: Result<ServiceResponseTLV, ParserError>)
        ensures
            match r {
                Ok(v) => Self::spec_parse(b@) == Ok::<_, ParserError>(v@) && v.wf(),
                Err(e) => Self::spec_parse(b@) == Err::<ServiceResponseTLVView, _>(e),
            },
    {
        if b.len() < 2 {
            return Err(ParserError::TooLittleData(2 - b.len()));
        }
        let n = read_u16_le(b, 0) as usize;
        if n < 1 {
            return Err(ParserError::ValueNotUnderstood);
        }
        if b.len() - 2 < n - 1 {
            return Err(ParserError::TooLittleData(2 + (n - 1) - b.len()));
        }
        let name = match AWDLDnsName::from_bytes_range(b, 2, 2 + (n - 1)) {
            Ok(name) => name,
            Err(e) => {
                return Err(e);
            },
        };
        let record = match AWDLDnsRecord::from_bytes_at(b, 2 + (n - 1)) {
            Ok(record) => record,
            Err(e) => {
                return Err(e);
            },
        };
        Ok(ServiceResponseTLV { name, record })
    }

    /// Encodes the payload of a service response TLV.
    pub fn to_bytes(&self) -> (r: Vec<u8>)
        requires
            self.wf(),
            self@.fits(),
        ensures
            r@ == Self::spec_serial(self@),
    {
        let mut out: Vec<u8> = Vec::new();
        let name_bytes = self.name.to_bytes();
        write_u16_le(&mut out, name_bytes.len() as u16 + 1);
        crate::bytes::write_slice_range(&mut out, name_bytes.as_slice(), 0, name_bytes.len());
        assert(name_bytes@.subrange(0, name_bytes@.len() as int) =~= name_bytes@);
        self.record.write_to(&mut out);
        assert(out@ =~= Self::spec_serial(self@));
        out
    }
}

/// A serialized well-formed service response TLV parses back to itself.
pub proof fn lemma_service_response_round_trip(v: ServiceResponseTLVView)
    requires
        v.wf(),
        v.fits(),
    ensures
        ServiceResponseTLV::spec_parse(ServiceResponseTLV::spec_serial(v)) == Ok::<
            _,
            ParserError,
        >(v),
{
    let b = ServiceResponseTLV::spec_serial(v);
    let name_bytes = dns_name_serial(v.name);
    let n = (name_bytes.len() + 1) as u16;
    crate::bytes::lemma_u16_le_round_trip(n);
    assert(b[0] == u16_le_bytes(n)[0] && b[1] == u16_le_bytes(n)[1]);
    assert(u16_le(b[0], b[1]) == n);
    assert(b.len() == 2 + name_bytes.len() + dns_record_serial(v.record).len());
    assert(dns_record_serial(v.record).len() >= 5);
    assert(b.subrange(2, 2 + n - 1) =~= name_bytes);
    crate::dns_name::lemma_dns_name_round_trip(v.name);
    assert(b.skip(2 + n - 1) =~= dns_record_serial(v.record));
    crate::dns_record::lemma_dns_record_round_trip(v.record);
    assert(ServiceResponseTLV::spec_parse(b) matches Ok(p) && p =~= v);
}

} // verus!
