//! The DNS name encoding AWDL reuses: a run of length-prefixed labels closed
//! by a two-byte big-endian compression code standing for a well-known
//! suffix domain.
use vstd::prelude::*;

use crate::awdl_str::{str_parse, str_serial, str_wf, AWDLStr};
use crate::bytes::{lemma_u16_be_bytes_round_trip, read_u16_be, u16_be, u16_be_bytes, write_u16_be};
use crate::dns_compression::AWDLDnsCompression;
use crate::parser::ParserError;

verus! {

/// A hostname combined with its compressed suffix domain.
#[derive(Debug, Clone, PartialEq, Eq, Hash, Default)]
pub struct AWDLDnsName {
    /// The labels of the peer.
    pub labels: Vec<AWDLStr>,
    /// The domain in compressed form.
    pub domain: AWDLDnsCompression,
}

/// The mathematical value of an [`AWDLDnsName`]: the label byte strings and
/// the domain.
#[verifier::ext_equal]
pub struct DnsNameView {
    pub labels: Seq<Seq<u8>>,
    pub domain: AWDLDnsCompression,
}

impl View for AWDLDnsName {
    type V = DnsNameView;

    open spec fn view(&self) -> DnsNameView {
        DnsNameView { labels: self.labels.deep_view(), domain: self.domain }
    }
}

impl DeepView for AWDLDnsName {
    type V = DnsNameView;

    open spec fn deep_view(&self) -> DnsNameView {
        self@
    }
}

/// Every label fits its one-byte length prefix.
pub open spec fn labels_wf(ls: Seq<Seq<u8>>) -> bool {
    forall|i: int| 0 <= i < ls.len() ==> str_wf(#[trigger] ls[i])
}

/// The encoding of a run of labels, each with its length prefix.
pub open spec fn labels_serial(ls: Seq<Seq<u8>>) -> Seq<u8>
    decreases ls.len(),
{
    if ls.len() == 0 {
        Seq::empty()
    } else {
        str_serial(ls[0]) + labels_serial(ls.skip(1))
    }
}

/// Parses a region as a run of length-prefixed labels that must consume the
/// region exactly.
pub open spec fn labels_parse(b: Seq<u8>) -> Result<Seq<Seq<u8>>, ParserError>
    decreases b.len(),
{
    if b.len() == 0 {
        Ok(Seq::empty())
    } else {
        let l = b[0] as int;
        if b.len() < 1 + l {
            Err(ParserError::TooLittleData((1 + l - b.len()) as usize))
        } else {
            match labels_parse(b.skip(1 + l)) {
                Ok(rest) => Ok(seq![b.subrange(1, 1 + l)] + rest),
                Err(e) => Err(e),
            }
        }
    }
}

/// Serializing labels is concatenation-homomorphic.
pub proof fn lemma_labels_serial_append(a: Seq<Seq<u8>>, b: Seq<Seq<u8>>)
    ensures
        labels_serial(a + b) == labels_serial(a) + labels_serial(b),
    decreases a.len(),
{
    if a.len() == 0 {
        assert(a + b =~= b);
        assert(labels_serial(a) + labels_serial(b) =~= labels_serial(b));
    } else {
        assert((a + b).skip(1) =~= a.skip(1) + b);
        lemma_labels_serial_append(a.skip(1), b);
        assert(labels_serial(a + b) =~= labels_serial(a) + labels_serial(b));
    }
}

/// A serialized run of well-formed labels parses back to itself.
pub proof fn lemma_labels_round_trip(ls: Seq<Seq<u8>>)
    requires
        labels_wf(ls),
    ensures
        labels_parse(labels_serial(ls)) == Ok::<_, ParserError>(ls),
    decreases ls.len(),
{
    if ls.len() == 0 {
        assert(labels_parse(labels_serial(ls)) == Ok::<_, ParserError>(Seq::<Seq<u8>>::empty()));
        assert(ls =~= Seq::<Seq<u8>>::empty());
    } else {
        let b = labels_serial(ls);
        let head = ls[0];
        let l = head.len() as int;
        assert(b == str_serial(head) + labels_serial(ls.skip(1)));
        assert(b[0] == head.len() as u8);
        assert(b.len() >= 1 + l);
        assert(b.subrange(1, 1 + l) =~= head);
        assert(b.skip(1 + l) =~= labels_serial(ls.skip(1)));
        lemma_labels_round_trip(ls.skip(1));
        assert(seq![head] + ls.skip(1) =~= ls);
    }
}

/// Parses a whole region as a DNS name: the labels, then the final two bytes
/// as the big-endian compression code.
pub open spec fn dns_name_parse(b: Seq<u8>) -> Result<DnsNameView, ParserError> {
    if b.len() < 2 {
        Err(ParserError::TooLittleData((2 - b.len()) as usize))
    } else {
        match labels_parse(b.take(b.len() - 2)) {
            Ok(ls) => Ok(
                DnsNameView {
                    labels: ls,
                    domain: AWDLDnsCompression::spec_from_bits(
                        u16_be(b[b.len() - 2], b[b.len() - 1]),
                    ),
                },
            ),
            Err(e) => Err(e),
        }
    }
}

/// The encoding of a DNS name: each label with its length prefix, then the
/// compression code big-endian.
pub open spec fn dns_name_serial(v: DnsNameView) -> Seq<u8> {
    labels_serial(v.labels) + u16_be_bytes(v.domain.spec_into_bits())
}

impl DnsNameView {
    /// All labels fit their length prefix and the domain survives its code.
    pub open spec fn wf(self) -> bool {
        labels_wf(self.labels) && self.domain.wf()
    }
}

/// A serialized well-formed DNS name parses back to itself.
pub proof fn lemma_dns_name_round_trip(v: DnsNameView)
    requires
        v.wf(),
    ensures
        dns_name_parse(dns_name_serial(v)) == Ok::<_, ParserError>(v),
{
    let b = dns_name_serial(v);
    let code = v.domain.spec_into_bits();
    assert(b.len() == labels_serial(v.labels).len() + 2);
    assert(b.take(b.len() - 2) =~= labels_serial(v.labels));
    lemma_labels_round_trip(v.labels);
    lemma_u16_be_bytes_round_trip((code / 256) as u8, (code % 256) as u8);
    assert(b[b.len() - 2] == (code / 256) as u8);
    assert(b[b.len() - 1] == (code % 256) as u8);
    assert(u16_be(b[b.len() - 2], b[b.len() - 1]) == code);
    assert(dns_name_parse(b) == Ok::<_, ParserError>(
        DnsNameView { labels: v.labels, domain: AWDLDnsCompression::spec_from_bits(code) },
    ));
    assert(AWDLDnsCompression::spec_from_bits(code) == v.domain);
}

/// Reads the region `b[from..to]` as a run of length-prefixed labels that
/// must fill it exactly.
pub fn read_labels(b: &[u8], from: usize, to: usize) -> (r: Result<Vec<AWDLStr>, ParserError>)
    requires
        from <= to <= b@.len(),
    ensures
        match r {
            Ok(ls) => labels_parse(b@.subrange(from as int, to as int)) == Ok::<_, ParserError>(
                ls.deep_view(),
            ) && labels_wf(ls.deep_view()),
            Err(e) => labels_parse(b@.subrange(from as int, to as int)) == Err::<Seq<Seq<u8>>, _>(
                e,
            ),
        },
{
    let ghost lregion = b@.subrange(from as int, to as int);
    let mut labels: Vec<AWDLStr> = Vec::new();
    let mut pos: usize = from;
    while pos < to
        invariant
            from <= pos <= to <= b@.len(),
            lregion == b@.subrange(from as int, to as int),
            labels_wf(labels.deep_view()),
            forall|rest: Seq<Seq<u8>>|
                labels_parse(b@.subrange(pos as int, to as int)) == Ok::<_, ParserError>(rest)
                    ==> labels_parse(lregion) == Ok::<_, ParserError>(labels.deep_view() + rest),
            forall|e: ParserError|
                labels_parse(b@.subrange(pos as int, to as int)) == Err::<Seq<Seq<u8>>, _>(e)
                    ==> labels_parse(lregion) == Err::<Seq<Seq<u8>>, _>(e),
        decreases to - pos,
    {
        let ghost remaining = b@.subrange(pos as int, to as int);
        assert(remaining.len() > 0);
        let l = b[pos] as usize;
        assert(remaining[0] == b@[pos as int]);
        if to - pos - 1 < l {
            assert(labels_parse(remaining) == Err::<Seq<Seq<u8>>, _>(
                ParserError::TooLittleData((1 + l - remaining.len()) as usize),
            ));
            return Err(ParserError::TooLittleData(1 + l - (to - pos)));
        }
        let mut label: Vec<u8> = Vec::new();
        let mut i: usize = pos + 1;
        while i < pos + 1 + l
            invariant
                pos + 1 <= i <= pos + 1 + l,
                pos + 1 + l <= to <= b@.len() <= usize::MAX,
                label@ == b@.subrange(pos + 1, i as int),
            decreases pos + 1 + l - i,
        {
            label.push(b[i]);
            assert(label@ =~= b@.subrange(pos + 1, i + 1));
            i = i + 1;
        }
        assert(remaining.subrange(1, 1 + l) =~= b@.subrange(pos + 1, pos + 1 + l));
        let ghost old_labels = labels.deep_view();
        labels.push(AWDLStr(label));
        proof {
            assert(labels.deep_view() =~= old_labels + seq![b@.subrange(pos + 1, pos + 1 + l)]);
            assert(remaining.skip(1 + l) =~= b@.subrange(pos + 1 + l, to as int));
            assert forall|rest: Seq<Seq<u8>>|
                labels_parse(b@.subrange(pos + 1 + l, to as int)) == Ok::<_, ParserError>(
                    rest,
                ) implies labels_parse(lregion) == Ok::<_, ParserError>(
                labels.deep_view() + rest,
            ) by {
                assert(labels_parse(remaining) == Ok::<_, ParserError>(
                    seq![remaining.subrange(1, 1 + l)] + rest,
                ));
                assert(old_labels + (seq![remaining.subrange(1, 1 + l)] + rest)
                    =~= labels.deep_view() + rest);
            }
        }
        pos = pos + 1 + l;
    }
    assert(b@.subrange(pos as int, to as int) =~= Seq::<u8>::empty());
    proof {
        let empty_rest = Seq::<Seq<u8>>::empty();
        assert(labels_parse(b@.subrange(pos as int, to as int)) == Ok::<_, ParserError>(
            empty_rest,
        ));
        assert(labels.deep_view() + empty_rest =~= labels.deep_view());
        assert(labels_parse(lregion) == Ok::<_, ParserError>(labels.deep_view()));
    }
    Ok(labels)
}

impl AWDLDnsName {
    /// All labels fit their length prefix and the domain survives its code.
    pub open spec fn wf(&self) -> bool {
        self@.wf()
    }

    /// The number of bytes this name occupies on the wire.
    pub open spec fn spec_size(&self) -> int {
        dns_name_serial(self@).len() as int
    }

    /// Decodes the labels of the region `b[from..to - 2]` and the compression
    /// code in `b[to - 2..to]`.
    pub fn from_bytes_range(b: &[u8], from: usize, to: usize) -> (r: Result<
        AWDLDnsName,
        ParserError,
    >)
        requires
            from <= to <= b@.len(),
        ensures
            match r {
                Ok(v) => dns_name_parse(b@.subrange(from as int, to as int)) == Ok::<
                    _,
                    ParserError,
                >(v@) && v.wf(),
                Err(e) => dns_name_parse(b@.subrange(from as int, to as int)) == Err::<
                    DnsNameView,
                    _,
                >(e),
            },
    {
        let ghost region = b@.subrange(from as int, to as int);
        if to - from < 2 {
            return Err(ParserError::TooLittleData(2 - (to - from)));
        }
        let labels_end = to - 2;
        assert(region.take(region.len() - 2) =~= b@.subrange(from as int, labels_end as int));
        let labels = match read_labels(b, from, labels_end) {
            Ok(ls) => ls,
            Err(e) => {
                return Err(e);
            },
        };
        let code = read_u16_be(b, labels_end);
        assert(region[region.len() - 2] == b@[labels_end as int]);
        assert(region[region.len() - 1] == b@[labels_end + 1]);
        let domain = AWDLDnsCompression::from_bits(code);
        Ok(AWDLDnsName { labels, domain })
    }

    /// Decodes a DNS name from the whole of `b`.
    pub fn from_bytes(b: &[u8]) -> (r: Result<AWDLDnsName, ParserError>)
        ensures
            match r {
                Ok(v) => dns_name_parse(b@) == Ok::<_, ParserError>(v@) && v.wf(),
                Err(e) => dns_name_parse(b@) == Err::<DnsNameView, _>(e),
            },
    {
        assert(b@.subrange(0, b@.len() as int) =~= b@);
        Self::from_bytes_range(b, 0, b.len())
    }

    /// Appends the labels with their length prefixes, then the compression
    /// code big-endian.
    pub fn write_to(&self, out: &mut Vec<u8>)
        requires
            self.wf(),
        ensures
            final(out)@ == old(out)@ + dns_name_serial(self@),
    {
        let mut i: usize = 0;
        while i < self.labels.len()
            invariant
                i <= self.labels@.len(),
                self.wf(),
                out@ == old(out)@ + labels_serial(self.labels.deep_view().take(i as int)),
            decreases self.labels@.len() - i,
        {
            assert(self.labels.deep_view()[i as int] == self.labels@[i as int].deep_view());
            self.labels[i].write_to(out);
            proof {
                let dv = self.labels.deep_view();
                lemma_labels_serial_append(dv.take(i as int), seq![dv[i as int]]);
                assert(dv.take(i as int) + seq![dv[i as int]] =~= dv.take(i + 1));
                assert(seq![dv[i as int]].skip(1) =~= Seq::<Seq<u8>>::empty());
                assert(labels_serial(seq![dv[i as int]]) =~= str_serial(dv[i as int])
                    + labels_serial(Seq::<Seq<u8>>::empty()));
                assert(labels_serial(seq![dv[i as int]]) =~= str_serial(dv[i as int]));
            }
            i = i + 1;
        }
        assert(self.labels.deep_view().take(self.labels@.len() as int) =~= self.labels.deep_view());
        write_u16_be(out, self.domain.into_bits());
        assert(out@ =~= old(out)@ + dns_name_serial(self@));
    }

    /// Encodes the name: each label length-prefixed, then the code.
    pub fn to_bytes(&self) -> (r: Vec<u8>)
        requires
            self.wf(),
        ensures
            r@ == dns_name_serial(self@),
    {
        let mut out: Vec<u8> = Vec::new();
        self.write_to(&mut out);
        assert(out@ =~= dns_name_serial(self@));
        out
    }
}

/// Reads consecutive length-prefixed labels from the front of a slice,
/// stopping at the first position where no whole label remains.
#[derive(Debug, Clone, Copy)]
pub struct ReadLabelIterator<'a> {
    /// The bytes the labels are read from.
    pub bytes: &'a [u8],
    /// The position of the next unread label.
    pub offset: usize,
}

impl<'a> ReadLabelIterator<'a> {
    /// Starts reading at the front of `bytes`.
    pub fn new(bytes: &'a [u8]) -> (r: Self)
        ensures
            r.bytes@ == bytes@,
            r.offset == 0,
    {
        Self { bytes, offset: 0 }
    }

    /// Reads the next label, if a whole one remains.
    pub fn next(&mut self) -> (r: Option<AWDLStr>)
        ensures
            final(self).bytes@ == old(self).bytes@,
            old(self).offset <= old(self).bytes@.len() ==> match r {
                Some(s) => {
                    &&& str_parse(old(self).bytes@.skip(old(self).offset as int))
                        == Ok::<_, ParserError>((s@, final(self).offset - old(self).offset))
                    &&& old(self).offset < final(self).offset <= old(self).bytes@.len()
                    &&& s.wf()
                },
                None => {
                    &&& str_parse(old(self).bytes@.skip(old(self).offset as int))
                        is Err
                    &&& final(self).offset == old(self).offset
                },
            },
    {
        if self.offset > self.bytes.len() {
            return None;
        }
        match AWDLStr::from_bytes_at(self.bytes, self.offset) {
            Ok((s, end)) => {
                self.offset = end;
                Some(s)
            },
            Err(_) => None,
        }
    }
}

} // verus!
