//! A DNS record as encoded by AWDL: a five-byte header (type, length, two
//! reserved bytes) and a body whose shape depends on the record type.
use vstd::prelude::*;

use crate::awdl_str::AWDLStr;
use crate::bytes::{read_u16_be, u16_be, u16_be_bytes, u16_le_bytes, write_u16_be};
use crate::dns_name::{
    dns_name_parse, dns_name_serial, labels_parse, labels_serial, labels_wf, read_labels,
    AWDLDnsName, DnsNameView,
};
use crate::parser::ParserError;

verus! {

/// The type code of a DNS record.
#[derive(Debug, Clone, Copy, PartialEq, Eq, Hash, Structural)]
pub enum AWDLDnsRecordType {
    /// Pointer.
    PTR,
    /// Text.
    TXT,
    /// Service.
    SRV,
    /// A record type outside the known table.
    Unknown(u8),
}

impl AWDLDnsRecordType {
    /// The type denoted by a wire byte.
    pub open spec fn spec_from_bits(value: u8) -> AWDLDnsRecordType {
        match value {
            0x0C => AWDLDnsRecordType::PTR,
            0x10 => AWDLDnsRecordType::TXT,
            0x21 => AWDLDnsRecordType::SRV,
            _ => AWDLDnsRecordType::Unknown(value),
        }
    }

    /// The wire byte of this type.
    pub open spec fn spec_into_bits(self) -> u8 {
        match self {
            AWDLDnsRecordType::PTR => 0x0C,
            AWDLDnsRecordType::TXT => 0x10,
            AWDLDnsRecordType::SRV => 0x21,
            AWDLDnsRecordType::Unknown(value) => value,
        }
    }

    /// Maps a wire byte to the record type it denotes.
    pub fn from_bits(value: u8) -> (r: AWDLDnsRecordType)
        ensures
            r == Self::spec_from_bits(value),
    {
        match value {
            0x0C => AWDLDnsRecordType::PTR,
            0x10 => AWDLDnsRecordType::TXT,
            0x21 => AWDLDnsRecordType::SRV,
            _ => AWDLDnsRecordType::Unknown(value),
        }
    }

    /// Maps the record type to its wire byte.
    pub fn into_bits(self) -> (r: u8)
        ensures
            r == self.spec_into_bits(),
    {
        match self {
            AWDLDnsRecordType::PTR => 0x0C,
            AWDLDnsRecordType::TXT => 0x10,
            AWDLDnsRecordType::SRV => 0x21,
            AWDLDnsRecordType::Unknown(value) => value,
        }
    }
}

/// A DNS record as encoded by AWDL.
#[derive(Debug, Clone, PartialEq, Eq)]
pub enum AWDLDnsRecord {
    /// Pointer.
    PTR { domain_name: AWDLDnsName },
    /// Text: a run of length-prefixed strings, not DNS names.
    TXT { txt_record: Vec<AWDLStr> },
    /// Service.
    SRV { priority: u16, weight: u16, port: u16, target: AWDLDnsName },
    /// A record of unknown type, kept as its raw body.
    UnknownRecord { record_type: u8, body: Vec<u8> },
}

/// The mathematical value of an [`AWDLDnsRecord`].
#[verifier::ext_equal]
pub enum DnsRecordView {
    PTR { domain_name: DnsNameView },
    TXT { txt_record: Seq<Seq<u8>> },
    SRV { priority: u16, weight: u16, port: u16, target: DnsNameView },
    UnknownRecord { record_type: u8, body: Seq<u8> },
}

impl View for AWDLDnsRecord {
    type V = DnsRecordView;

    open spec fn view(&self) -> DnsRecordView {
        match self {
            AWDLDnsRecord::PTR { domain_name } => DnsRecordView::PTR { domain_name: domain_name@ },
            AWDLDnsRecord::TXT { txt_record } => DnsRecordView::TXT {
                txt_record: txt_record.deep_view(),
            },
            AWDLDnsRecord::SRV { priority, weight, port, target } => DnsRecordView::SRV {
                priority: *priority,
                weight: *weight,
                port: *port,
                target: target@,
            },
            AWDLDnsRecord::UnknownRecord { record_type, body } => DnsRecordView::UnknownRecord {
                record_type: *record_type,
                body: body@,
            },
        }
    }
}

impl DnsRecordView {
    /// The record type of the record.
    pub open spec fn record_type(self) -> AWDLDnsRecordType {
        match self {
            DnsRecordView::PTR { .. } => AWDLDnsRecordType::PTR,
            DnsRecordView::TXT { .. } => AWDLDnsRecordType::TXT,
            DnsRecordView::SRV { .. } => AWDLDnsRecordType::SRV,
            DnsRecordView::UnknownRecord { record_type, .. } => AWDLDnsRecordType::Unknown(
                record_type,
            ),
        }
    }

    /// The body bytes of the record, after the five-byte header.
    pub open spec fn body_serial(self) -> Seq<u8> {
        match self {
            DnsRecordView::PTR { domain_name } => dns_name_serial(domain_name),
            DnsRecordView::TXT { txt_record } => labels_serial(txt_record),
            DnsRecordView::SRV { priority, weight, port, target } => u16_be_bytes(priority)
                + u16_be_bytes(weight) + u16_be_bytes(port) + dns_name_serial(target),
            DnsRecordView::UnknownRecord { body, .. } => body,
        }
    }

    /// The names are well-formed and the record type survives its byte.
    /// (Whether the body also fits the two-byte length field depends on its
    /// size, which the encoder demands separately.)
    pub open spec fn wf(self) -> bool {
        match self {
            DnsRecordView::PTR { domain_name } => domain_name.wf(),
            DnsRecordView::TXT { txt_record } => labels_wf(txt_record),
            DnsRecordView::SRV { target, .. } => target.wf(),
            DnsRecordView::UnknownRecord { record_type, .. } => AWDLDnsRecordType::spec_from_bits(
                record_type,
            ) == AWDLDnsRecordType::Unknown(record_type),
        }
    }
}

/// Parses a record: the five-byte header, then the body according to the
/// record type. The header's length field is ignored; the body extends to
/// the end of the region.
pub open spec fn dns_record_parse(b: Seq<u8>) -> Result<DnsRecordView, ParserError> {
    if b.len() < 5 {
        Err(ParserError::TooLittleData((5 - b.len()) as usize))
    } else {
        let body = b.skip(5);
        match AWDLDnsRecordType::spec_from_bits(b[0]) {
            AWDLDnsRecordType::PTR => match dns_name_parse(body) {
                Ok(domain_name) => Ok(DnsRecordView::PTR { domain_name }),
                Err(e) => Err(e),
            },
            AWDLDnsRecordType::TXT => match labels_parse(body) {
                Ok(txt_record) => Ok(DnsRecordView::TXT { txt_record }),
                Err(e) => Err(e),
            },
            AWDLDnsRecordType::SRV => {
                if body.len() < 6 {
                    Err(ParserError::TooLittleData((6 - body.len()) as usize))
                } else {
                    match dns_name_parse(body.skip(6)) {
                        Ok(target) => Ok(
                            DnsRecordView::SRV {
                                priority: u16_be(body[0], body[1]),
                                weight: u16_be(body[2], body[3]),
                                port: u16_be(body[4], body[5]),
                                target,
                            },
                        ),
                        Err(e) => Err(e),
                    }
                }
            },
            AWDLDnsRecordType::Unknown(record_type) => Ok(
                DnsRecordView::UnknownRecord { record_type, body },
            ),
        }
    }
}

/// The record bytes: the type byte, the body length recomputed
/// little-endian, two reserved zero bytes, and the body.
pub open spec fn dns_record_serial(v: DnsRecordView) -> Seq<u8> {
    seq![v.record_type().spec_into_bits()] + u16_le_bytes(v.body_serial().len() as u16) + seq![
        0u8,
        0u8,
    ] + v.body_serial()
}

impl AWDLDnsRecord {
    /// The names are well-formed and the body fits its length field.
    pub open spec fn wf(&self) -> bool {
        self@.wf()
    }

    /// Returns the record type.
    pub fn record_type(&self) -> (r: AWDLDnsRecordType)
        ensures
            r == self@.record_type(),
    {
        match self {
            AWDLDnsRecord::PTR { .. } => AWDLDnsRecordType::PTR,
            AWDLDnsRecord::TXT { .. } => AWDLDnsRecordType::TXT,
            AWDLDnsRecord::SRV { .. } => AWDLDnsRecordType::SRV,
            AWDLDnsRecord::UnknownRecord { record_type, .. } => AWDLDnsRecordType::Unknown(
                *record_type,
            ),
        }
    }

    /// Decodes a record from the region `b[from..]`.
    pub fn from_bytes_at(b: &[u8], from: usize) -> (r: Result<AWDLDnsRecord, ParserError>)
        requires
            from <= b@.len(),
        ensures
            match r {
                Ok(v) => dns_record_parse(b@.skip(from as int)) == Ok::<_, ParserError>(v@)
                    && v.wf(),
                Err(e) => dns_record_parse(b@.skip(from as int)) == Err::<DnsRecordView, _>(e),
            },
    {
        let ghost region = b@.skip(from as int);
        if b.len() - from < 5 {
            return Err(ParserError::TooLittleData(5 - (b.len() - from)));
        }
        let ghost body = region.skip(5);
        assert(region[0] == b@[from as int]);
        assert(body =~= b@.subrange(from + 5, b@.len() as int));
        match AWDLDnsRecordType::from_bits(b[from]) {
            AWDLDnsRecordType::PTR => {
                match AWDLDnsName::from_bytes_range(b, from + 5, b.len()) {
                    Ok(domain_name) => Ok(AWDLDnsRecord::PTR { domain_name }),
                    Err(e) => Err(e),
                }
            },
            AWDLDnsRecordType::TXT => {
                match read_labels(b, from + 5, b.len()) {
                    Ok(txt_record) => Ok(AWDLDnsRecord::TXT { txt_record }),
                    Err(e) => Err(e),
                }
            },
            AWDLDnsRecordType::SRV => {
                if b.len() - from - 5 < 6 {
                    assert(body.len() < 6);
                    return Err(ParserError::TooLittleData(6 - (b.len() - from - 5)));
                }
                assert(body[0] == b@[from + 5] && body[1] == b@[from + 6] && body[2] == b@[from + 7]
                    && body[3] == b@[from + 8] && body[4] == b@[from + 9] && body[5] == b@[from
                    + 10]);
                match AWDLDnsName::from_bytes_range(b, from + 11, b.len()) {
                    Ok(target) => {
                        proof {
                            assert(body.skip(6) =~= b@.subrange(from + 11, b@.len() as int));
                        }
                        Ok(
                            AWDLDnsRecord::SRV {
                                priority: read_u16_be(b, from + 5),
                                weight: read_u16_be(b, from + 7),
                                port: read_u16_be(b, from + 9),
                                target,
                            },
                        )
                    },
                    Err(e) => {
                        assert(body.skip(6) =~= b@.subrange(from + 11, b@.len() as int));
                        Err(e)
                    },
                }
            },
            AWDLDnsRecordType::Unknown(record_type) => {
                let mut body_vec: Vec<u8> = Vec::new();
                let mut i: usize = from + 5;
                while i < b.len()
                    invariant
                        from + 5 <= i <= b@.len() <= usize::MAX,
                        body_vec@ == b@.subrange(from + 5, i as int),
                    decreases b@.len() - i,
                {
                    body_vec.push(b[i]);
                    assert(body_vec@ =~= b@.subrange(from + 5, i + 1));
                    i = i + 1;
                }
                Ok(AWDLDnsRecord::UnknownRecord { record_type, body: body_vec })
            },
        }
    }

    /// Decodes a record from the whole of `b`.
    pub fn from_bytes(b: &[u8]) -> (r: Result<AWDLDnsRecord, ParserError>)
        ensures
            match r {
                Ok(v) => dns_record_parse(b@) == Ok::<_, ParserError>(v@) && v.wf(),
                Err(e) => dns_record_parse(b@) == Err::<DnsRecordView, _>(e),
            },
    {
        assert(b@.skip(0) =~= b@);
        Self::from_bytes_at(b, 0)
    }

    /// Appends the record: the header with its recomputed length, then the
    /// body.
    pub fn write_to(&self, out: &mut Vec<u8>)
        requires
            self.wf(),
            self@.body_serial().len() <= 0xffff,
        ensures
            final(out)@ == old(out)@ + dns_record_serial(self@),
    {
        let mut body: Vec<u8> = Vec::new();
        match self {
            AWDLDnsRecord::PTR { domain_name } => {
                domain_name.write_to(&mut body);
            },
            AWDLDnsRecord::TXT { txt_record } => {
                let mut i: usize = 0;
                while i < txt_record.len()
                    invariant
                        i <= txt_record@.len(),
                        labels_wf(txt_record.deep_view()),
                        body@ == labels_serial(txt_record.deep_view().take(i as int)),
                    decreases txt_record@.len() - i,
                {
                    assert(txt_record.deep_view()[i as int] == txt_record@[i as int].deep_view());
                    txt_record[i].write_to(&mut body);
                    proof {
                        let dv = txt_record.deep_view();
                        crate::dns_name::lemma_labels_serial_append(
                            dv.take(i as int),
                            seq![dv[i as int]],
                        );
                        assert(dv.take(i as int) + seq![dv[i as int]] =~= dv.take(i + 1));
                        assert(seq![dv[i as int]].skip(1) =~= Seq::<Seq<u8>>::empty());
                        assert(labels_serial(seq![dv[i as int]]) =~= crate::awdl_str::str_serial(
                            dv[i as int],
                        ) + labels_serial(Seq::<Seq<u8>>::empty()));
                        assert(labels_serial(seq![dv[i as int]]) =~= crate::awdl_str::str_serial(
                            dv[i as int],
                        ));
                    }
                    i = i + 1;
                }
                assert(txt_record.deep_view().take(txt_record@.len() as int)
                    =~= txt_record.deep_view());
            },
            AWDLDnsRecord::SRV { priority, weight, port, target } => {
                write_u16_be(&mut body, *priority);
                write_u16_be(&mut body, *weight);
                write_u16_be(&mut body, *port);
                target.write_to(&mut body);
            },
            AWDLDnsRecord::UnknownRecord { body: raw, .. } => {
                crate::bytes::write_slice_range(&mut body, raw.as_slice(), 0, raw.len());
                assert(raw@.subrange(0, raw@.len() as int) =~= raw@);
            },
        }
        assert(body@ == self@.body_serial());
        out.push(self.record_type().into_bits());
        crate::bytes::write_u16_le(out, body.len() as u16);
        out.push(0);
        out.push(0);
        crate::bytes::write_slice_range(out, body.as_slice(), 0, body.len());
        assert(body@.subrange(0, body@.len() as int) =~= body@);
        assert(out@ =~= old(out)@ + dns_record_serial(self@));
    }

    /// Encodes the record.
    pub fn to_bytes(&self) -> (r: Vec<u8>)
        requires
            self.wf(),
            self@.body_serial().len() <= 0xffff,
        ensures
            r@ == dns_record_serial(self@),
    {
        let mut out: Vec<u8> = Vec::new();
        self.write_to(&mut out);
        assert(out@ =~= dns_record_serial(self@));
        out
    }
}

/// A serialized well-formed record parses back to itself.
pub proof fn lemma_dns_record_round_trip(v: DnsRecordView)
    requires
        v.wf(),
        v.body_serial().len() <= 0xffff,
    ensures
        dns_record_parse(dns_record_serial(v)) == Ok::<_, ParserError>(v),
{
    let b = dns_record_serial(v);
    let body = v.body_serial();
    assert(b.len() == 5 + body.len());
    assert(b[0] == v.record_type().spec_into_bits());
    assert(b.skip(5) =~= body);
    match v {
        DnsRecordView::PTR { domain_name } => {
            assert(AWDLDnsRecordType::spec_from_bits(b[0]) == AWDLDnsRecordType::PTR);
            crate::dns_name::lemma_dns_name_round_trip(domain_name);
        },
        DnsRecordView::TXT { txt_record } => {
            assert(AWDLDnsRecordType::spec_from_bits(b[0]) == AWDLDnsRecordType::TXT);
            crate::dns_name::lemma_labels_round_trip(txt_record);
        },
        DnsRecordView::SRV { priority, weight, port, target } => {
            assert(AWDLDnsRecordType::spec_from_bits(b[0]) == AWDLDnsRecordType::SRV);
            crate::bytes::lemma_u16_be_round_trip(priority);
            crate::bytes::lemma_u16_be_round_trip(weight);
            crate::bytes::lemma_u16_be_round_trip(port);
            assert(body[0] == u16_be_bytes(priority)[0] && body[1] == u16_be_bytes(priority)[1]);
            assert(body[2] == u16_be_bytes(weight)[0] && body[3] == u16_be_bytes(weight)[1]);
            assert(body[4] == u16_be_bytes(port)[0] && body[5] == u16_be_bytes(port)[1]);
            assert(body.skip(6) =~= dns_name_serial(target));
            crate::dns_name::lemma_dns_name_round_trip(target);
            assert(dns_record_parse(b) matches Ok(p) && p =~= v);
        },
        DnsRecordView::UnknownRecord { record_type, body: raw } => {
            assert(AWDLDnsRecordType::spec_from_bits(b[0]) == AWDLDnsRecordType::Unknown(
                record_type,
            ));
        },
    }
}

} // verus!
