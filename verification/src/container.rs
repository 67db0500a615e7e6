//! The IEEE 802.11 container TLV: an embedded 802.11 element carried
//! opaquely — a one-byte element id, a one-byte length, and that many body
//! bytes.
use vstd::prelude::*;

use crate::parser::ParserError;

verus! {

/// A TLV that just encapsulates an IEEE 802.11 element; in practice this
/// carries the VHT capabilities.
#[derive(Debug, Clone, PartialEq, Eq)]
pub struct IEEE80211ContainerTLV {
    /// The element id of the embedded element.
    pub element_id: u8,
    /// The body bytes of the embedded element; its one-byte length field is
    /// always recomputed from these.
    pub slice: Vec<u8>,
}

/// The mathematical value of an [`IEEE80211ContainerTLV`].
#[verifier::ext_equal]
pub struct IEEE80211ContainerTLVView {
    pub element_id: u8,
    pub slice: Seq<u8>,
}

impl View for IEEE80211ContainerTLV {
    type V = IEEE80211ContainerTLVView;

    open spec fn view(&self) -> IEEE80211ContainerTLVView {
        IEEE80211ContainerTLVView { element_id: self.element_id, slice: self.slice@ }
    }
}

impl IEEE80211ContainerTLVView {
    /// The body fits the one-byte length field.
    pub open spec fn wf(self) -> bool {
        self.slice.len() <= 255
    }
}

impl IEEE80211ContainerTLV {
    /// The body fits the one-byte length field.
    pub open spec fn wf(&self) -> bool {
        self@.wf()
    }

    /// Parses a container payload: element id, one-byte body length, then
    /// that many body bytes. Trailing bytes are ignored.
    pub open spec fn spec_parse(b: Seq<u8>) -> Result<IEEE80211ContainerTLVView, ParserError> {
        if b.len() < 2 {
            Err(ParserError::TooLittleData((2 - b.len()) as usize))
        } else if b.len() - 2 < b[1] {
            Err(ParserError::TooLittleData((b[1] - (b.len() - 2)) as usize))
        } else {
            Ok(
                IEEE80211ContainerTLVView {
                    element_id: b[0],
                    slice: b.subrange(2, 2 + b[1] as int),
                },
            )
        }
    }

    /// The payload bytes: the element id, the recomputed body length, and
    /// the body.
    pub open spec fn spec_serial(v: IEEE80211ContainerTLVView) -> Seq<u8> {
        seq![v.element_id, v.slice.len() as u8] + v.slice
    }

    /// Decodes the payload of a container TLV.
    pub fn from_bytes(b: &[u8]) -> (r: Result<IEEE80211ContainerTLV, ParserError>)
        ensures
            match r {
                Ok(v) => Self::spec_parse(b@) == Ok::<_, ParserError>(v@) && v.wf(),
                Err(e) => Self::spec_parse(b@) == Err::<IEEE80211ContainerTLVView, _>(e),
            },
    {
        if b.len() < 2 {
            return Err(ParserError::TooLittleData(2 - b.len()));
        }
        let l = b[1] as usize;
        if b.len() - 2 < l {
            return Err(ParserError::TooLittleData(l - (b.len() - 2)));
        }
        let mut slice: Vec<u8> = Vec::new();
        let mut i: usize = 2;
        while i < 2 + l
            invariant
                2 <= i <= 2 + l,
                2 + l <= b@.len() <= usize::MAX,
                slice@ == b@.subrange(2, i as int),
            decreases 2 + l - i,
        {
            slice.push(b[i]);
            assert(slice@ =~= b@.subrange(2, i + 1));
            i = i + 1;
        }
        Ok(IEEE80211ContainerTLV { element_id: b[0], slice })
    }

    /// Encodes the payload of a container TLV.
    pub fn to_bytes(&self) -> (r: Vec<u8>)
        requires
            self.wf(),
        ensures
            r@ == Self::spec_serial(self@),
    {
        let mut out: Vec<u8> = Vec::new();
        out.push(self.element_id);
        out.push(self.slice.len() as u8);
        crate::bytes::write_slice_range(&mut out, self.slice.as_slice(), 0, self.slice.len());
        assert(self.slice@.subrange(0, self.slice@.len() as int) =~= self.slice@);
        assert(out@ =~= Self::spec_serial(self@));
        out
    }
}

/// A serialized well-formed container TLV parses back to itself.
pub proof fn lemma_container_round_trip(v: IEEE80211ContainerTLVView)
    requires
        v.wf(),
    ensures
        IEEE80211ContainerTLV::spec_parse(IEEE80211ContainerTLV::spec_serial(v)) == Ok::<
            _,
            ParserError,
        >(v),
{
    let b = IEEE80211ContainerTLV::spec_serial(v);
    assert(b[1] == v.slice.len() as u8);
    assert(b.subrange(2, 2 + v.slice.len() as int) =~= v.slice);
    assert(IEEE80211ContainerTLV::spec_parse(b) matches Ok(p) && p =~= v);
}

} // verus!
