//! The arpa TLV: the reverse-DNS hostname of the peer, one flags byte
//! followed by a compressed DNS name.
use vstd::prelude::*;

use crate::dns_name::{dns_name_parse, dns_name_serial, AWDLDnsName, DnsNameView};
use crate::parser::ParserError;

verus! {

/// A TLV containing the hostname of the peer, used for reverse DNS.
#[derive(Debug, Clone, PartialEq, Eq, Default)]
pub struct ArpaTLV {
    /// The actual arpa data.
    pub arpa: AWDLDnsName,
}

/// The mathematical value of an [`ArpaTLV`].
#[verifier::ext_equal]
pub struct ArpaTLVView {
    pub arpa: DnsNameView,
}

impl View for ArpaTLV {
    type V = ArpaTLVView;

    open spec fn view(&self) -> ArpaTLVView {
        ArpaTLVView { arpa: self.arpa@ }
    }
}

impl ArpaTLVView {
    /// The name is well-formed.
    pub open spec fn wf(self) -> bool {
        self.arpa.wf()
    }
}

impl ArpaTLV {
    /// The name is well-formed.
    pub open spec fn wf(&self) -> bool {
        self@.wf()
    }

    /// Parses an arpa payload: one flags byte, which is skipped, then the
    /// DNS name over the whole rest.
    pub open spec fn spec_parse(b: Seq<u8>) -> Result<ArpaTLVView, ParserError> {
        if b.len() < 1 {
            Err(ParserError::TooLittleData(1))
        } else {
            match dns_name_parse(b.skip(1)) {
                Ok(name) => Ok(ArpaTLVView { arpa: name }),
                Err(e) => Err(e),
            }
        }
    }

    /// The payload bytes: the flags byte `0x03`, then the name.
    pub open spec fn spec_serial(v: ArpaTLVView) -> Seq<u8> {
        seq![0x03u8] + dns_name_serial(v.arpa)
    }

    /// Decodes the payload of an arpa TLV.
    pub fn from_bytes(b: &[u8]) -> (r: Result<ArpaTLV, ParserError>)
        ensures
            match r {
                Ok(v) => Self::spec_parse(b@) == Ok::<_, ParserError>(v@) && v.wf(),
                Err(e) => Self::spec_parse(b@) == Err::<ArpaTLVView, _>(e),
            },
    {
        if b.len() < 1 {
            return Err(ParserError::TooLittleData(1));
        }
        assert(b@.subrange(1, b@.len() as int) =~= b@.skip(1));
        match AWDLDnsName::from_bytes_range(b, 1, b.len()) {
            Ok(arpa) => Ok(ArpaTLV { arpa }),
            Err(e) => Err(e),
        }
    }

    /// Encodes the payload of an arpa TLV.
    pub fn to_bytes(&self) -> (r: Vec<u8>)
        requires
            self.wf(),
        ensures
            r@ == Self::spec_serial(self@),
    {
        let mut out: Vec<u8> = Vec::new();
        out.push(0x03);
        self.arpa.write_to(&mut out);
        assert(out@ =~= Self::spec_serial(self@));
        out
    }
}

/// A serialized well-formed arpa TLV parses back to itself.
pub proof fn lemma_arpa_round_trip(v: ArpaTLVView)
    requires
        v.wf(),
    ensures
        ArpaTLV::spec_parse(ArpaTLV::spec_serial(v)) == Ok::<_, ParserError>(v),
{
    let b = ArpaTLV::spec_serial(v);
    assert(b.skip(1) =~= dns_name_serial(v.arpa));
    crate::dns_name::lemma_dns_name_round_trip(v.arpa);
    assert(ArpaTLVView { arpa: v.arpa } =~= v);
}

} // verus!
