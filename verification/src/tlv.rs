//! The raw type-length-value envelope shared by every record in an action
//! frame: a one-byte type code, a two-byte little-endian length, and that
//! many payload bytes.
use vstd::prelude::*;

use crate::bytes::{read_u16_le, u16_le, u16_le_bytes, write_u16_le, write_slice_range};
use crate::parser::ParserError;

verus! {

/// The type code of a TLV.
#[derive(Debug, Clone, Copy, PartialEq, Eq, Hash, Structural)]
pub enum TLVType {
    /// The service response.
    ServiceResponse,
    /// The synchronization parameters.
    SynchronizationParameters,
    /// The election parameters.
    ElectionParameters,
    /// The service parameters.
    ServiceParameters,
    /// The HT capabilities.
    HTCapabilities,
    /// The data path state.
    DataPathState,
    /// The hostname of the peer.
    Arpa,
    /// The VHT capabilities, carried as an embedded IEEE 802.11 element.
    VHTCapabilities,
    /// The channel sequence.
    ChannelSequence,
    /// The synchronization tree.
    SynchronizationTree,
    /// The actual version of the AWDL protocol that is being used.
    Version,
    /// The V2 election parameters.
    ElectionParametersV2,
    /// A type code outside the known table.
    Unknown(u8),
}

impl TLVType {
    /// The type denoted by a wire type code.
    pub open spec fn spec_from_bits(value: u8) -> TLVType {
        match value {
            0x02 => TLVType::ServiceResponse,
            0x04 => TLVType::SynchronizationParameters,
            0x05 => TLVType::ElectionParameters,
            0x06 => TLVType::ServiceParameters,
            0x07 => TLVType::HTCapabilities,
            0x0C => TLVType::DataPathState,
            0x10 => TLVType::Arpa,
            0x11 => TLVType::VHTCapabilities,
            0x12 => TLVType::ChannelSequence,
            0x14 => TLVType::SynchronizationTree,
            0x15 => TLVType::Version,
            0x18 => TLVType::ElectionParametersV2,
            _ => TLVType::Unknown(value),
        }
    }

    /// The wire type code of this type.
    pub open spec fn spec_into_bits(self) -> u8 {
        match self {
            TLVType::ServiceResponse => 0x02,
            TLVType::SynchronizationParameters => 0x04,
            TLVType::ElectionParameters => 0x05,
            TLVType::ServiceParameters => 0x06,
            TLVType::HTCapabilities => 0x07,
            TLVType::DataPathState => 0x0C,
            TLVType::Arpa => 0x10,
            TLVType::VHTCapabilities => 0x11,
            TLVType::ChannelSequence => 0x12,
            TLVType::SynchronizationTree => 0x14,
            TLVType::Version => 0x15,
            TLVType::ElectionParametersV2 => 0x18,
            TLVType::Unknown(value) => value,
        }
    }

    /// The type round-trips through its code.
    pub open spec fn wf(self) -> bool {
        Self::spec_from_bits(self.spec_into_bits()) == self
    }

    /// Maps a wire type code to the type it denotes.
    pub fn from_bits(value: u8) -> (r: TLVType)
        ensures
            r == Self::spec_from_bits(value),
            r.wf(),
    {
        match value {
            0x02 => TLVType::ServiceResponse,
            0x04 => TLVType::SynchronizationParameters,
            0x05 => TLVType::ElectionParameters,
            0x06 => TLVType::ServiceParameters,
            0x07 => TLVType::HTCapabilities,
            0x0C => TLVType::DataPathState,
            0x10 => TLVType::Arpa,
            0x11 => TLVType::VHTCapabilities,
            0x12 => TLVType::ChannelSequence,
            0x14 => TLVType::SynchronizationTree,
            0x15 => TLVType::Version,
            0x18 => TLVType::ElectionParametersV2,
            _ => TLVType::Unknown(value),
        }
    }

    /// Maps the type to its wire code.
    pub fn into_bits(self) -> (r: u8)
        ensures
            r == self.spec_into_bits(),
    {
        match self {
            TLVType::ServiceResponse => 0x02,
            TLVType::SynchronizationParameters => 0x04,
            TLVType::ElectionParameters => 0x05,
            TLVType::ServiceParameters => 0x06,
            TLVType::HTCapabilities => 0x07,
            TLVType::DataPathState => 0x0C,
            TLVType::Arpa => 0x10,
            TLVType::VHTCapabilities => 0x11,
            TLVType::ChannelSequence => 0x12,
            TLVType::SynchronizationTree => 0x14,
            TLVType::Version => 0x15,
            TLVType::ElectionParametersV2 => 0x18,
            TLVType::Unknown(value) => value,
        }
    }
}

/// Every wire code maps back to itself: decoding a type code and re-encoding
/// it reproduces the byte, unknown codes included.
pub proof fn lemma_tlv_type_bits(value: u8)
    ensures
        TLVType::spec_from_bits(value).spec_into_bits() == value,
{
}

/// An error produced when converting a raw [`TLV`] into a typed payload.
#[derive(Debug, Clone, Copy, PartialEq, Eq, Structural)]
pub enum FromTLVError {
    /// The type code does not belong to the requested payload type.
    IncorrectTlvType,
    /// The payload is shorter than the payload type's minimum size.
    IncorrectTlvLength,
    /// There was no data at all.
    NoData,
    /// The payload decoder itself failed.
    ParserError(ParserError),
}

/// A raw **T**ype **L**ength **V**alue record.
#[derive(Debug, Clone, PartialEq, Eq)]
pub struct TLV {
    /// The type code.
    pub tlv_type: TLVType,
    /// The payload bytes; the length field is always recomputed from these
    /// on encode, never stored.
    pub tlv_data: Vec<u8>,
}

/// The mathematical value of a raw [`TLV`].
#[verifier::ext_equal]
pub struct TLVView {
    pub tlv_type: TLVType,
    pub tlv_data: Seq<u8>,
}

impl View for TLV {
    type V = TLVView;

    open spec fn view(&self) -> TLVView {
        TLVView { tlv_type: self.tlv_type, tlv_data: self.tlv_data@ }
    }
}

impl DeepView for TLV {
    type V = TLVView;

    open spec fn deep_view(&self) -> TLVView {
        self@
    }
}

impl TLVView {
    /// The payload fits the two-byte length field and the type survives its
    /// code.
    pub open spec fn wf(self) -> bool {
        self.tlv_data.len() <= 0xffff && self.tlv_type.wf()
    }
}

/// The encoding of a raw TLV: type code, little-endian payload length, then
/// the payload.
pub open spec fn tlv_serial(v: TLVView) -> Seq<u8> {
    seq![v.tlv_type.spec_into_bits()] + u16_le_bytes(v.tlv_data.len() as u16) + v.tlv_data
}

/// Parses one TLV from the front of `b`, returning it with the number of
/// bytes consumed: `3 + length`.
///
/// A header claiming a length that exceeds the remaining buffer fails with
/// `TooLittleData`, carrying how many bytes were missing.
pub open spec fn tlv_parse_prefix(b: Seq<u8>) -> Result<(TLVView, int), ParserError> {
    if b.len() < 3 {
        Err(ParserError::TooLittleData((3 - b.len()) as usize))
    } else {
        let l = u16_le(b[1], b[2]) as int;
        if b.len() - 3 < l {
            Err(ParserError::TooLittleData((l - (b.len() - 3)) as usize))
        } else {
            Ok(
                (
                    TLVView { tlv_type: TLVType::spec_from_bits(b[0]), tlv_data: b.subrange(3, 3 + l) },
                    3 + l,
                ),
            )
        }
    }
}

/// A serialized well-formed TLV parses back to itself and consumes exactly
/// its own bytes.
pub proof fn lemma_tlv_round_trip(v: TLVView)
    requires
        v.wf(),
    ensures
        tlv_parse_prefix(tlv_serial(v)) == Ok::<_, ParserError>((v, tlv_serial(v).len() as int)),
{
    let b = tlv_serial(v);
    let l = v.tlv_data.len() as u16;
    crate::bytes::lemma_u16_le_round_trip(l);
    assert(b[1] == u16_le_bytes(l)[0]);
    assert(b[2] == u16_le_bytes(l)[1]);
    assert(u16_le(b[1], b[2]) == l);
    assert(b.subrange(3, 3 + l as int) =~= v.tlv_data);
    assert(TLVType::spec_from_bits(b[0]) == v.tlv_type);
}

/// Whatever parses as a TLV re-encodes to exactly the bytes it was parsed
/// from: the envelope has no non-canonical encodings.
pub proof fn lemma_tlv_parse_serial(b: Seq<u8>, v: TLVView, n: int)
    requires
        tlv_parse_prefix(b) == Ok::<_, ParserError>((v, n)),
    ensures
        tlv_serial(v) == b.take(n),
        v.wf(),
        3 <= n <= b.len(),
{
    let l = u16_le(b[1], b[2]);
    lemma_tlv_type_bits(b[0]);
    crate::bytes::lemma_u16_le_bytes_round_trip(b[1], b[2]);
    assert(v.tlv_data.len() == l);
    assert(tlv_serial(v) =~= b.take(n));
}

impl TLV {
    /// The payload fits the two-byte length field and the type survives its
    /// code.
    pub open spec fn wf(&self) -> bool {
        self@.wf()
    }

    /// Reads one TLV from the front of `b[at..]`, returning it with the
    /// position one past its last payload byte.
    pub fn from_bytes_at(b: &[u8], at: usize) -> (r: Result<(TLV, usize), ParserError>)
        requires
            at <= b@.len(),
        ensures
            match r {
                Ok((tlv, end)) => {
                    &&& tlv_parse_prefix(b@.skip(at as int)) == Ok::<_, ParserError>(
                        (tlv@, end - at),
                    )
                    &&& at + 3 <= end <= b@.len()
                    &&& tlv.wf()
                },
                Err(e) => tlv_parse_prefix(b@.skip(at as int)) == Err::<(TLVView, int), _>(e),
            },
    {
        let ghost tail = b@.skip(at as int);
        if b.len() - at < 3 {
            return Err(ParserError::TooLittleData(3 - (b.len() - at)));
        }
        assert(tail[0] == b@[at as int] && tail[1] == b@[at + 1] && tail[2] == b@[at + 2]);
        let tlv_type = TLVType::from_bits(b[at]);
        let l = read_u16_le(b, at + 1) as usize;
        if b.len() - at - 3 < l {
            return Err(ParserError::TooLittleData(l - (b.len() - at - 3)));
        }
        let end = at + 3 + l;
        let mut data: Vec<u8> = Vec::new();
        let mut i: usize = at + 3;
        while i < end
            invariant
                at + 3 <= i <= end <= b@.len(),
                data@ == b@.subrange(at + 3, i as int),
            decreases end - i,
        {
            data.push(b[i]);
            assert(data@ =~= b@.subrange(at + 3, i + 1));
            i = i + 1;
        }
        assert(tail.subrange(3, 3 + l) =~= b@.subrange(at + 3, at + 3 + l));
        Ok((TLV { tlv_type, tlv_data: data }, end))
    }

    /// Reads one TLV from the front of `b`; trailing bytes are ignored, as
    /// they belong to the records that follow.
    pub fn from_bytes(b: &[u8]) -> (r: Result<TLV, ParserError>)
        ensures
            match r {
                Ok(tlv) => tlv_parse_prefix(b@) matches Ok(p) && p.0 == tlv@ && tlv.wf(),
                Err(e) => tlv_parse_prefix(b@) == Err::<(TLVView, int), _>(e),
            },
    {
        assert(b@.skip(0) =~= b@);
        match Self::from_bytes_at(b, 0) {
            Ok((tlv, _)) => Ok(tlv),
            Err(e) => Err(e),
        }
    }

    /// Appends the type code, the recomputed length, and the payload.
    pub fn write_to(&self, out: &mut Vec<u8>)
        requires
            self.wf(),
        ensures
            final(out)@ == old(out)@ + tlv_serial(self@),
    {
        out.push(self.tlv_type.into_bits());
        write_u16_le(out, self.tlv_data.len() as u16);
        let data = self.tlv_data.as_slice();
        write_slice_range(out, data, 0, self.tlv_data.len());
        assert(self.tlv_data@.subrange(0, self.tlv_data@.len() as int) =~= self.tlv_data@);
        assert(out@ =~= old(out)@ + tlv_serial(self@));
    }

    /// Encodes the TLV; the length field is recomputed from the payload.
    pub fn to_bytes(&self) -> (r: Vec<u8>)
        requires
            self.wf(),
        ensures
            r@ == tlv_serial(self@),
    {
        let mut out: Vec<u8> = Vec::new();
        self.write_to(&mut out);
        assert(out@ =~= tlv_serial(self@));
        out
    }
}

} // verus!
