//! The AWDL action frame: a fixed 12-byte header — magic, header version,
//! subtype, reserved byte, two timestamps — followed by TLVs until the
//! buffer is exhausted.
use vstd::prelude::*;

use crate::bytes::{read_u32_le, u32_le, u32_le_bytes, write_u32_le};
use crate::parser::ParserError;
use crate::tlv::{tlv_parse_prefix, tlv_serial, FromTLVError, TLVType, TLV, TLVView};
use crate::tlvs::{awdl_tlv_parse, AWDLTLV, AWDLTLVView};

verus! {

/// The subtype of an action frame.
#[derive(Debug, Clone, Copy, PartialEq, Eq, Hash, Structural)]
pub enum AWDLActionFrameSubType {
    /// **P**eriodic **S**ynchronization **F**rame.
    PSF,
    /// **M**aster **I**ndication **F**rame.
    MIF,
    /// A subtype byte outside the known table.
    Unknown(u8),
}

impl AWDLActionFrameSubType {
    /// The subtype denoted by a wire byte.
    pub open spec fn spec_from_bits(value: u8) -> AWDLActionFrameSubType {
        match value {
            0x00 => AWDLActionFrameSubType::PSF,
            0x03 => AWDLActionFrameSubType::MIF,
            _ => AWDLActionFrameSubType::Unknown(value),
        }
    }

    /// The wire byte of this subtype.
    pub open spec fn spec_into_bits(self) -> u8 {
        match self {
            AWDLActionFrameSubType::PSF => 0x00,
            AWDLActionFrameSubType::MIF => 0x03,
            AWDLActionFrameSubType::Unknown(value) => value,
        }
    }

    /// Maps a wire byte to the subtype it denotes.
    pub fn from_bits(value: u8) -> (r: AWDLActionFrameSubType)
        ensures
            r == Self::spec_from_bits(value),
    {
        match value {
            0x00 => AWDLActionFrameSubType::PSF,
            0x03 => AWDLActionFrameSubType::MIF,
            _ => AWDLActionFrameSubType::Unknown(value),
        }
    }

    /// Maps the subtype to its wire byte.
    pub fn into_bits(self) -> (r: u8)
        ensures
            r == self.spec_into_bits(),
    {
        match self {
            AWDLActionFrameSubType::PSF => 0x00,
            AWDLActionFrameSubType::MIF => 0x03,
            AWDLActionFrameSubType::Unknown(value) => value,
        }
    }
}

/// Parses a region as consecutive TLVs until it is exhausted; a record that
/// does not fit is an error, never silently dropped.
pub open spec fn tlvs_parse(b: Seq<u8>) -> Result<Seq<AWDLTLVView>, FromTLVError>
    decreases b.len(),
{
    if b.len() == 0 {
        Ok(Seq::empty())
    } else {
        match tlv_parse_prefix(b) {
            Err(e) => Err(FromTLVError::ParserError(e)),
            Ok((t, n)) => match awdl_tlv_parse(t) {
                Err(e) => Err(e),
                Ok(v) => match tlvs_parse(b.skip(n)) {
                    Ok(rest) => Ok(seq![v] + rest),
                    Err(e) => Err(e),
                },
            },
        }
    }
}

/// The concatenated encodings of a run of TLVs.
pub open spec fn tlvs_serial(vs: Seq<AWDLTLVView>) -> Seq<u8>
    decreases vs.len(),
{
    if vs.len() == 0 {
        Seq::empty()
    } else {
        tlv_serial(vs[0].raw_serial()) + tlvs_serial(vs.skip(1))
    }
}

/// Every TLV of the run is well-formed.
pub open spec fn tlvs_wf(vs: Seq<AWDLTLVView>) -> bool {
    forall|i: int| 0 <= i < vs.len() ==> (#[trigger] vs[i]).wf()
}

/// A serialized run of well-formed TLVs parses back to itself.
#[verifier::rlimit(100)]
pub proof fn lemma_tlvs_round_trip(vs: Seq<AWDLTLVView>)
    requires
        tlvs_wf(vs),
    ensures
        tlvs_parse(tlvs_serial(vs)) == Ok::<_, FromTLVError>(vs),
    decreases vs.len(),
{
    if vs.len() == 0 {
        assert(vs =~= Seq::<AWDLTLVView>::empty());
    } else {
        let b = tlvs_serial(vs);
        let head = vs[0];
        assert(head.wf());
        assert(tlvs_wf(vs.skip(1))) by {
            assert(forall|i: int|
                0 <= i < vs.skip(1).len() ==> #[trigger] vs.skip(1)[i] == vs[i + 1]);
        }
        let raw = head.raw_serial();
        assert(raw.wf());
        let hb = tlv_serial(raw);
        assert(b == hb + tlvs_serial(vs.skip(1)));
        crate::tlv::lemma_tlv_round_trip(raw);
        assert(hb.len() >= 3);
        assert(b.len() >= 3);
        assert(b.take(hb.len() as int) =~= hb);
        lemma_tlv_parse_prefix_extends(hb, tlvs_serial(vs.skip(1)), raw);
        crate::tlvs::lemma_awdl_tlv_round_trip(head);
        assert(b.skip(hb.len() as int) =~= tlvs_serial(vs.skip(1)));
        lemma_tlvs_round_trip(vs.skip(1));
        assert(seq![head] + vs.skip(1) =~= vs);
    }
}

/// Parsing one TLV looks only at its own bytes: appending more does not
/// change what is read.
pub proof fn lemma_tlv_parse_prefix_extends(hb: Seq<u8>, extra: Seq<u8>, raw: TLVView)
    requires
        tlv_parse_prefix(hb) == Ok::<_, ParserError>((raw, hb.len() as int)),
    ensures
        tlv_parse_prefix(hb + extra) == Ok::<_, ParserError>((raw, hb.len() as int)),
{
    let b = hb + extra;
    assert(b[0] == hb[0] && b[1] == hb[1] && b[2] == hb[2]);
    let l = crate::bytes::u16_le(b[1], b[2]) as int;
    assert(hb.len() == 3 + l);
    assert(b.subrange(3, 3 + l) =~= hb.subrange(3, 3 + l));
}

/// An AWDL action frame.
#[derive(Debug, Clone, PartialEq, Eq)]
pub struct AWDLActionFrame {
    /// The subtype of the frame.
    pub subtype: AWDLActionFrameSubType,
    /// The time the NIC physically started sending the frame, in microseconds.
    pub phy_tx_time: u32,
    /// The time the driver sent the frame to the NIC, in microseconds.
    pub target_tx_time: u32,
    /// The TLVs contained in the frame.
    pub tlvs: Vec<AWDLTLV>,
}

/// The mathematical value of an [`AWDLActionFrame`].
#[verifier::ext_equal]
pub struct ActionFrameView {
    pub subtype: AWDLActionFrameSubType,
    pub phy_tx_time: u32,
    pub target_tx_time: u32,
    pub tlvs: Seq<AWDLTLVView>,
}

impl View for AWDLActionFrame {
    type V = ActionFrameView;

    open spec fn view(&self) -> ActionFrameView {
        ActionFrameView {
            subtype: self.subtype,
            phy_tx_time: self.phy_tx_time,
            target_tx_time: self.target_tx_time,
            tlvs: self.tlvs.deep_view(),
        }
    }
}

impl ActionFrameView {
    /// The subtype survives its byte and every TLV is well-formed.
    pub open spec fn wf(self) -> bool {
        AWDLActionFrameSubType::spec_from_bits(self.subtype.spec_into_bits()) == self.subtype
            && tlvs_wf(self.tlvs)
    }
}

/// Parses an action frame: the two fixed marker bytes, the subtype, one
/// reserved byte, the two little-endian timestamps, then TLVs until the end
/// of the buffer.
pub open spec fn action_frame_parse(b: Seq<u8>) -> Result<ActionFrameView, FromTLVError> {
    if b.len() < 12 {
        Err(FromTLVError::ParserError(ParserError::HeaderIncomplete((12 - b.len()) as usize)))
    } else if b[0] != 0x08 || b[1] != 0x10 {
        Err(FromTLVError::ParserError(ParserError::InvalidMagic))
    } else {
        match tlvs_parse(b.skip(12)) {
            Ok(tlvs) => Ok(
                ActionFrameView {
                    subtype: AWDLActionFrameSubType::spec_from_bits(b[2]),
                    phy_tx_time: u32_le(b[4], b[5], b[6], b[7]),
                    target_tx_time: u32_le(b[8], b[9], b[10], b[11]),
                    tlvs,
                },
            ),
            Err(e) => Err(e),
        }
    }
}

/// The frame bytes: the fixed marker `0x08 0x10`, the subtype, a reserved
/// zero byte, the timestamps, and the TLVs.
pub open spec fn action_frame_serial(v: ActionFrameView) -> Seq<u8> {
    seq![0x08u8, 0x10u8, v.subtype.spec_into_bits(), 0u8] + u32_le_bytes(v.phy_tx_time)
        + u32_le_bytes(v.target_tx_time) + tlvs_serial(v.tlvs)
}

/// A serialized well-formed action frame parses back to itself,
/// byte-for-byte, TLVs of unknown type included.
pub proof fn lemma_action_frame_round_trip(v: ActionFrameView)
    requires
        v.wf(),
    ensures
        action_frame_parse(action_frame_serial(v)) == Ok::<_, FromTLVError>(v),
{
    let b = action_frame_serial(v);
    crate::bytes::lemma_u32_le_round_trip(v.phy_tx_time);
    crate::bytes::lemma_u32_le_round_trip(v.target_tx_time);
    assert(b[4] == u32_le_bytes(v.phy_tx_time)[0] && b[5] == u32_le_bytes(v.phy_tx_time)[1] && b[6]
        == u32_le_bytes(v.phy_tx_time)[2] && b[7] == u32_le_bytes(v.phy_tx_time)[3]);
    assert(b[8] == u32_le_bytes(v.target_tx_time)[0] && b[9] == u32_le_bytes(v.target_tx_time)[1]
        && b[10] == u32_le_bytes(v.target_tx_time)[2] && b[11] == u32_le_bytes(
        v.target_tx_time,
    )[3]);
    assert(b.skip(12) =~= tlvs_serial(v.tlvs));
    lemma_tlvs_round_trip(v.tlvs);
    assert(action_frame_parse(b) matches Ok(p) && p =~= v);
}

/// Reads the TLVs of a frame region, decoding each in turn.
pub fn read_tlvs(b: &[u8], from: usize) -> (r: Result<Vec<AWDLTLV>, FromTLVError>)
    requires
        from <= b@.len(),
    ensures
        match r {
            Ok(tlvs) => tlvs_parse(b@.skip(from as int)) == Ok::<_, FromTLVError>(
                tlvs.deep_view(),
            ),
            Err(e) => tlvs_parse(b@.skip(from as int)) == Err::<Seq<AWDLTLVView>, _>(e),
        },
{
    let ghost whole = b@.skip(from as int);
    let mut tlvs: Vec<AWDLTLV> = Vec::new();
    let mut pos: usize = from;
    while pos < b.len()
        invariant
            from <= pos <= b@.len(),
            whole == b@.skip(from as int),
            forall|rest: Seq<AWDLTLVView>|
                tlvs_parse(b@.skip(pos as int)) == Ok::<_, FromTLVError>(rest) ==> tlvs_parse(
                    whole,
                ) == Ok::<_, FromTLVError>(tlvs.deep_view() + rest),
            forall|e: FromTLVError|
                tlvs_parse(b@.skip(pos as int)) == Err::<Seq<AWDLTLVView>, _>(e) ==> tlvs_parse(
                    whole,
                ) == Err::<Seq<AWDLTLVView>, _>(e),
        decreases b@.len() - pos,
    {
        let ghost remaining = b@.skip(pos as int);
        assert(remaining.len() > 0);
        let (raw, end) = match TLV::from_bytes_at(b, pos) {
            Ok(p) => p,
            Err(e) => {
                return Err(FromTLVError::ParserError(e));
            },
        };
        let typed = match AWDLTLV::from_raw(&raw) {
            Ok(t) => t,
            Err(e) => {
                return Err(e);
            },
        };
        let ghost old_tlvs = tlvs.deep_view();
        tlvs.push(typed);
        proof {
            assert(tlvs.deep_view() =~= old_tlvs + seq![typed@]);
            assert(remaining.skip(end - pos) =~= b@.skip(end as int));
            assert forall|rest: Seq<AWDLTLVView>|
                tlvs_parse(b@.skip(end as int)) == Ok::<_, FromTLVError>(rest) implies tlvs_parse(
                whole,
            ) == Ok::<_, FromTLVError>(tlvs.deep_view() + rest) by {
                assert(tlvs_parse(remaining) == Ok::<_, FromTLVError>(seq![typed@] + rest));
                assert(old_tlvs + (seq![typed@] + rest) =~= tlvs.deep_view() + rest);
            }
        }
        pos = end;
    }
    assert(b@.skip(pos as int) =~= Seq::<u8>::empty());
    proof {
        let empty_rest = Seq::<AWDLTLVView>::empty();
        assert(tlvs_parse(b@.skip(pos as int)) == Ok::<_, FromTLVError>(empty_rest));
        assert(tlvs.deep_view() + empty_rest =~= tlvs.deep_view());
    }
    Ok(tlvs)
}

impl AWDLActionFrame {
    /// The subtype survives its byte and every TLV is well-formed.
    pub open spec fn wf(&self) -> bool {
        self@.wf()
    }

    /// Decodes an action frame from a byte buffer.
    pub fn from_bytes(b: &[u8]) -> (r: Result<AWDLActionFrame, FromTLVError>)
        ensures
            match r {
                Ok(v) => action_frame_parse(b@) == Ok::<_, FromTLVError>(v@),
                Err(e) => action_frame_parse(b@) == Err::<ActionFrameView, _>(e),
            },
    {
        if b.len() < 12 {
            return Err(
                FromTLVError::ParserError(ParserError::HeaderIncomplete(12 - b.len())),
            );
        }
        if b[0] != 0x08 || b[1] != 0x10 {
            return Err(FromTLVError::ParserError(ParserError::InvalidMagic));
        }
        let subtype = AWDLActionFrameSubType::from_bits(b[2]);
        let phy_tx_time = read_u32_le(b, 4);
        let target_tx_time = read_u32_le(b, 8);
        let tlvs = match read_tlvs(b, 12) {
            Ok(tlvs) => tlvs,
            Err(e) => {
                return Err(e);
            },
        };
        Ok(AWDLActionFrame { subtype, phy_tx_time, target_tx_time, tlvs })
    }

    /// Encodes the action frame, re-emitting the fixed marker bytes.
    pub fn to_bytes(&self) -> (r: Vec<u8>)
        requires
            self.wf(),
        ensures
            r@ == action_frame_serial(self@),
    {
        let mut out: Vec<u8> = Vec::new();
        out.push(0x08);
        out.push(0x10);
        out.push(self.subtype.into_bits());
        out.push(0);
        write_u32_le(&mut out, self.phy_tx_time);
        write_u32_le(&mut out, self.target_tx_time);
        let ghost header = out@;
        let mut i: usize = 0;
        while i < self.tlvs.len()
            invariant
                i <= self.tlvs@.len(),
                tlvs_wf(self.tlvs.deep_view()),
                out@ == header + tlvs_serial(self.tlvs.deep_view().take(i as int)),
            decreases self.tlvs@.len() - i,
        {
            assert(self.tlvs.deep_view()[i as int] == self.tlvs@[i as int].deep_view());
            assert(self.tlvs.deep_view()[i as int].wf());
            self.tlvs[i].write_to(&mut out);
            proof {
                let dv = self.tlvs.deep_view();
                lemma_tlvs_serial_append(dv.take(i as int), seq![dv[i as int]]);
                assert(dv.take(i as int) + seq![dv[i as int]] =~= dv.take(i + 1));
                assert(seq![dv[i as int]].skip(1) =~= Seq::<AWDLTLVView>::empty());
                assert(tlvs_serial(seq![dv[i as int]].skip(1)) =~= Seq::<u8>::empty());
                assert(tlvs_serial(seq![dv[i as int]]) =~= tlv_serial(dv[i as int].raw_serial()));
            }
            i = i + 1;
        }
        assert(self.tlvs.deep_view().take(self.tlvs@.len() as int) =~= self.tlvs.deep_view());
        assert(out@ =~= action_frame_serial(self@));
        out
    }

    /// Calculates the time between the driver handing the frame to the NIC
    /// and the transmission starting, in microseconds.
    pub fn tx_delta(&self) -> (r: u32)
        requires
            self.target_tx_time <= self.phy_tx_time,
        ensures
            r == self.phy_tx_time - self.target_tx_time,
    {
        self.phy_tx_time - self.target_tx_time
    }

    /// Returns every TLV carried under the given type code, in order.
    pub fn get_tlvs(&self, tlv_type: TLVType) -> (r: Vec<&AWDLTLV>)
        ensures
            r.deep_view() == tlvs_of_type(self.tlvs.deep_view(), tlv_type),
    {
        let mut r: Vec<&AWDLTLV> = Vec::new();
        let mut i: usize = 0;
        proof {
            assert(self.tlvs.deep_view().take(0) =~= Seq::<AWDLTLVView>::empty());
        }
        while i < self.tlvs.len()
            invariant
                i <= self.tlvs@.len(),
                r.deep_view() == tlvs_of_type(self.tlvs.deep_view().take(i as int), tlv_type),
            decreases self.tlvs@.len() - i,
        {
            let ghost dv = self.tlvs.deep_view();
            assert(dv[i as int] == self.tlvs@[i as int].deep_view());
            let ghost old_r = r.deep_view();
            let t = &self.tlvs[i];
            if matches_type(t, tlv_type) {
                r.push(t);
                assert(r.deep_view() =~~= old_r + seq![dv[i as int]]);
            } else {
                assert(r.deep_view() =~~= old_r + Seq::<AWDLTLVView>::empty());
            }
            proof {
                lemma_tlvs_of_type_append(dv.take(i as int), seq![dv[i as int]], tlv_type);
                assert(dv.take(i as int) + seq![dv[i as int]] =~= dv.take(i + 1));
                assert(seq![dv[i as int]].skip(1) =~= Seq::<AWDLTLVView>::empty());
                assert(tlvs_of_type(seq![dv[i as int]].skip(1), tlv_type)
                    =~= Seq::<AWDLTLVView>::empty());
                if dv[i as int].get_type() == tlv_type {
                    assert(tlvs_of_type(seq![dv[i as int]], tlv_type) =~= seq![dv[i as int]]);
                } else {
                    assert(tlvs_of_type(seq![dv[i as int]], tlv_type)
                        =~= Seq::<AWDLTLVView>::empty());
                }
            }
            i = i + 1;
        }
        assert(self.tlvs.deep_view().take(self.tlvs@.len() as int) =~= self.tlvs.deep_view());
        r
    }
}

/// The TLVs of a run carried under the given type code, in order.
pub open spec fn tlvs_of_type(vs: Seq<AWDLTLVView>, tlv_type: TLVType) -> Seq<AWDLTLVView>
    decreases vs.len(),
{
    if vs.len() == 0 {
        Seq::empty()
    } else {
        (if vs[0].get_type() == tlv_type {
            seq![vs[0]]
        } else {
            Seq::empty()
        }) + tlvs_of_type(vs.skip(1), tlv_type)
    }
}

/// Selecting by type is concatenation-homomorphic.
pub proof fn lemma_tlvs_of_type_append(a: Seq<AWDLTLVView>, b: Seq<AWDLTLVView>, ty: TLVType)
    ensures
        tlvs_of_type(a + b, ty) == tlvs_of_type(a, ty) + tlvs_of_type(b, ty),
    decreases a.len(),
{
    if a.len() == 0 {
        assert(a + b =~= b);
        assert(tlvs_of_type(a, ty) + tlvs_of_type(b, ty) =~= tlvs_of_type(b, ty));
    } else {
        assert((a + b).skip(1) =~= a.skip(1) + b);
        lemma_tlvs_of_type_append(a.skip(1), b, ty);
        assert(tlvs_of_type(a + b, ty) =~= tlvs_of_type(a, ty) + tlvs_of_type(b, ty));
    }
}

/// Whether a TLV is carried under the given type code.
fn matches_type(t: &AWDLTLV, tlv_type: TLVType) -> (r: bool)
    ensures
        r == (t@.get_type() == tlv_type),
{
    tlv_type_eq(t.get_type(), tlv_type)
}

/// Compares two type codes.
fn tlv_type_eq(a: TLVType, b: TLVType) -> (r: bool)
    ensures
        r == (a == b),
{
    a == b
}

/// Serializing TLV runs is concatenation-homomorphic.
pub proof fn lemma_tlvs_serial_append(a: Seq<AWDLTLVView>, b: Seq<AWDLTLVView>)
    ensures
        tlvs_serial(a + b) == tlvs_serial(a) + tlvs_serial(b),
    decreases a.len(),
{
    if a.len() == 0 {
        assert(a + b =~= b);
        assert(tlvs_serial(a) + tlvs_serial(b) =~= tlvs_serial(b));
    } else {
        assert((a + b).skip(1) =~= a.skip(1) + b);
        lemma_tlvs_serial_append(a.skip(1), b);
        assert(tlvs_serial(a + b) =~= tlvs_serial(a) + tlvs_serial(b));
    }
}

/// A lazy view over the TLV region of a frame: reading starts at the front
/// and may be repeated.
#[derive(Debug, Clone, Copy)]
pub struct ReadTLVs<'a> {
    /// The bytes of the region.
    pub bytes: &'a [u8],
}

impl<'a> ReadTLVs<'a> {
    /// Wraps a TLV region.
    pub fn new(bytes: &'a [u8]) -> (r: Self)
        ensures
            r.bytes@ == bytes@,
    {
        Self { bytes }
    }

    /// Decodes every TLV of the region into an owned list.
    pub fn get_tlvs(&self) -> (r: Result<Vec<AWDLTLV>, FromTLVError>)
        ensures
            match r {
                Ok(tlvs) => tlvs_parse(self.bytes@) == Ok::<_, FromTLVError>(tlvs.deep_view()),
                Err(e) => tlvs_parse(self.bytes@) == Err::<Seq<AWDLTLVView>, _>(e),
            },
    {
        assert(self.bytes@.skip(0) =~= self.bytes@);
        read_tlvs(self.bytes, 0)
    }

    /// Returns whether the region decodes and holds a TLV of the given
    /// type code, and the first such TLV decoded, if so.
    pub fn get_first_tlv(&self, tlv_type: TLVType) -> (r: Option<AWDLTLV>)
        ensures
            match r {
                Some(t) => tlvs_parse(self.bytes@) matches Ok(vs) && t@.get_type() == tlv_type
                    && vs.contains(t@),
                None => !(tlvs_parse(self.bytes@) matches Ok(vs) && exists|i: int|
                    0 <= i < vs.len() && (#[trigger] vs[i]).get_type() == tlv_type),
            },
    {
        let mut tlvs = match self.get_tlvs() {
            Ok(tlvs) => tlvs,
            Err(_) => {
                return None;
            },
        };
        let ghost dv = tlvs.deep_view();
        let mut i: usize = 0;
        while i < tlvs.len()
            invariant
                i <= tlvs@.len(),
                dv == tlvs.deep_view(),
                tlvs_parse(self.bytes@) == Ok::<_, FromTLVError>(dv),
                forall|j: int| 0 <= j < i ==> (#[trigger] dv[j]).get_type() != tlv_type,
            decreases tlvs@.len() - i,
        {
            assert(dv[i as int] == tlvs@[i as int].deep_view());
            if matches_type(&tlvs[i], tlv_type) {
                let t = tlvs.remove(i);
                assert(t@ == dv[i as int]);
                assert(tlvs_parse(self.bytes@) matches Ok(vs) && vs.contains(t@));
                return Some(t);
            }
            i = i + 1;
        }
        None
    }
}

} // verus!