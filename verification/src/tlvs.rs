//! The typed TLV dispatcher: maps each raw TLV to the codec for its type
//! code, and passes unrecognized type codes through as opaque raw TLVs.
use vstd::prelude::*;

use crate::arpa::{ArpaTLV, ArpaTLVView};
use crate::channel_sequence::{ChannelSequenceTLV, ChannelSequenceTLVView};
use crate::container::{IEEE80211ContainerTLV, IEEE80211ContainerTLVView};
use crate::data_path_state::DataPathStateTLV;
use crate::election_parameters::{ElectionParametersTLV, ElectionParametersV2TLV};
use crate::ht_capabilities::HTCapabilitiesTLV;
use crate::parser::ParserError;
use crate::service_parameters::{ServiceParametersTLV, ServiceParametersTLVView};
use crate::service_response::{ServiceResponseTLV, ServiceResponseTLVView};
use crate::sync_parameters::{SynchronizationParametersTLV, SynchronizationParametersTLVView};
use crate::sync_tree::SyncTreeTLV;
use crate::tlv::{tlv_serial, FromTLVError, TLVType, TLV, TLVView};
use crate::version::VersionTLV;

verus! {

/// A trait carried by every typed TLV payload, naming its type code.
pub trait AwdlTlv {
    /// The TLV type code this payload is carried under.
    fn tlv_type() -> TLVType;
}

impl AwdlTlv for ServiceResponseTLV {
    fn tlv_type() -> TLVType {
        TLVType::ServiceResponse
    }
}

impl AwdlTlv for SynchronizationParametersTLV {
    fn tlv_type() -> TLVType {
        TLVType::SynchronizationParameters
    }
}

impl AwdlTlv for ElectionParametersTLV {
    fn tlv_type() -> TLVType {
        TLVType::ElectionParameters
    }
}

impl AwdlTlv for ServiceParametersTLV {
    fn tlv_type() -> TLVType {
        TLVType::ServiceParameters
    }
}

impl AwdlTlv for HTCapabilitiesTLV {
    fn tlv_type() -> TLVType {
        TLVType::HTCapabilities
    }
}

impl AwdlTlv for DataPathStateTLV {
    fn tlv_type() -> TLVType {
        TLVType::DataPathState
    }
}

impl AwdlTlv for ArpaTLV {
    fn tlv_type() -> TLVType {
        TLVType::Arpa
    }
}

impl AwdlTlv for IEEE80211ContainerTLV {
    fn tlv_type() -> TLVType {
        TLVType::VHTCapabilities
    }
}

impl AwdlTlv for ChannelSequenceTLV {
    fn tlv_type() -> TLVType {
        TLVType::ChannelSequence
    }
}

impl AwdlTlv for SyncTreeTLV {
    fn tlv_type() -> TLVType {
        TLVType::SynchronizationTree
    }
}

impl AwdlTlv for VersionTLV {
    fn tlv_type() -> TLVType {
        TLVType::Version
    }
}

impl AwdlTlv for ElectionParametersV2TLV {
    fn tlv_type() -> TLVType {
        TLVType::ElectionParametersV2
    }
}

/// Every TLV currently understood, one variant per known type code, with
/// unrecognized type codes preserved as raw TLVs.
#[derive(Debug, Clone, PartialEq, Eq)]
pub enum AWDLTLV {
    ServiceResponse(ServiceResponseTLV),
    SynchronizationParameters(SynchronizationParametersTLV),
    ElectionParameters(ElectionParametersTLV),
    ServiceParameters(ServiceParametersTLV),
    HTCapabilities(HTCapabilitiesTLV),
    DataPathState(DataPathStateTLV),
    Arpa(ArpaTLV),
    IEEE80211Container(IEEE80211ContainerTLV),
    ChannelSequence(ChannelSequenceTLV),
    SynchronizationTree(SyncTreeTLV),
    Version(VersionTLV),
    ElectionParametersV2(ElectionParametersV2TLV),
    Unknown(TLV),
}

/// The mathematical value of an [`AWDLTLV`].
#[verifier::ext_equal]
pub enum AWDLTLVView {
    ServiceResponse(ServiceResponseTLVView),
    SynchronizationParameters(SynchronizationParametersTLVView),
    ElectionParameters(ElectionParametersTLV),
    ServiceParameters(ServiceParametersTLVView),
    HTCapabilities(HTCapabilitiesTLV),
    DataPathState(DataPathStateTLV),
    Arpa(ArpaTLVView),
    IEEE80211Container(IEEE80211ContainerTLVView),
    ChannelSequence(ChannelSequenceTLVView),
    SynchronizationTree(Seq<[u8; 6]>),
    Version(VersionTLV),
    ElectionParametersV2(ElectionParametersV2TLV),
    Unknown(TLVView),
}

impl View for AWDLTLV {
    type V = AWDLTLVView;

    open spec fn view(&self) -> AWDLTLVView {
        match self {
            AWDLTLV::ServiceResponse(p) => AWDLTLVView::ServiceResponse(p@),
            AWDLTLV::SynchronizationParameters(p) => AWDLTLVView::SynchronizationParameters(p@),
            AWDLTLV::ElectionParameters(p) => AWDLTLVView::ElectionParameters(*p),
            AWDLTLV::ServiceParameters(p) => AWDLTLVView::ServiceParameters(p@),
            AWDLTLV::HTCapabilities(p) => AWDLTLVView::HTCapabilities(*p),
            AWDLTLV::DataPathState(p) => AWDLTLVView::DataPathState(*p),
            AWDLTLV::Arpa(p) => AWDLTLVView::Arpa(p@),
            AWDLTLV::IEEE80211Container(p) => AWDLTLVView::IEEE80211Container(p@),
            AWDLTLV::ChannelSequence(p) => AWDLTLVView::ChannelSequence(p@),
            AWDLTLV::SynchronizationTree(p) => AWDLTLVView::SynchronizationTree(p@),
            AWDLTLV::Version(p) => AWDLTLVView::Version(*p),
            AWDLTLV::ElectionParametersV2(p) => AWDLTLVView::ElectionParametersV2(*p),
            AWDLTLV::Unknown(p) => AWDLTLVView::Unknown(p@),
        }
    }
}

impl DeepView for AWDLTLV {
    type V = AWDLTLVView;

    open spec fn deep_view(&self) -> AWDLTLVView {
        self@
    }
}

impl AWDLTLVView {
    /// The type code the value is carried under.
    pub open spec fn get_type(self) -> TLVType {
        match self {
            AWDLTLVView::ServiceResponse(_) => TLVType::ServiceResponse,
            AWDLTLVView::SynchronizationParameters(_) => TLVType::SynchronizationParameters,
            AWDLTLVView::ElectionParameters(_) => TLVType::ElectionParameters,
            AWDLTLVView::ServiceParameters(_) => TLVType::ServiceParameters,
            AWDLTLVView::HTCapabilities(_) => TLVType::HTCapabilities,
            AWDLTLVView::DataPathState(_) => TLVType::DataPathState,
            AWDLTLVView::Arpa(_) => TLVType::Arpa,
            AWDLTLVView::IEEE80211Container(_) => TLVType::VHTCapabilities,
            AWDLTLVView::ChannelSequence(_) => TLVType::ChannelSequence,
            AWDLTLVView::SynchronizationTree(_) => TLVType::SynchronizationTree,
            AWDLTLVView::Version(_) => TLVType::Version,
            AWDLTLVView::ElectionParametersV2(_) => TLVType::ElectionParametersV2,
            AWDLTLVView::Unknown(t) => t.tlv_type,
        }
    }

    /// The payload bytes of the value.
    pub open spec fn payload_serial(self) -> Seq<u8> {
        match self {
            AWDLTLVView::ServiceResponse(p) => ServiceResponseTLV::spec_serial(p),
            AWDLTLVView::SynchronizationParameters(p) => SynchronizationParametersTLV::spec_serial(
                p,
            ),
            AWDLTLVView::ElectionParameters(p) => p.spec_serial(),
            AWDLTLVView::ServiceParameters(p) => ServiceParametersTLV::spec_serial(p),
            AWDLTLVView::HTCapabilities(p) => p.spec_serial(),
            AWDLTLVView::DataPathState(p) => p.spec_serial(),
            AWDLTLVView::Arpa(p) => ArpaTLV::spec_serial(p),
            AWDLTLVView::IEEE80211Container(p) => IEEE80211ContainerTLV::spec_serial(p),
            AWDLTLVView::ChannelSequence(p) => ChannelSequenceTLV::spec_serial(p),
            AWDLTLVView::SynchronizationTree(p) => crate::sync_tree::sync_tree_serial(p),
            AWDLTLVView::Version(p) => p.spec_serial(),
            AWDLTLVView::ElectionParametersV2(p) => p.spec_serial(),
            AWDLTLVView::Unknown(t) => t.tlv_data,
        }
    }

    /// The raw TLV the value encodes to.
    pub open spec fn raw_serial(self) -> TLVView {
        TLVView { tlv_type: self.get_type(), tlv_data: self.payload_serial() }
    }

    /// The payload is well-formed, fits the envelope's length field, and an
    /// unknown variant really carries an unknown type code.
    pub open spec fn wf(self) -> bool {
        &&& match self {
            AWDLTLVView::ServiceResponse(p) => p.wf() && p.fits(),
            AWDLTLVView::SynchronizationParameters(p) => p.wf(),
            AWDLTLVView::ElectionParameters(_) => true,
            AWDLTLVView::ServiceParameters(p) => p.wf(),
            AWDLTLVView::HTCapabilities(p) => p.wf(),
            AWDLTLVView::DataPathState(p) => p.wf() && DataPathStateTLV::spec_parse(
                p.spec_serial(),
            ) == Ok::<_, ParserError>(p),
            AWDLTLVView::Arpa(p) => p.wf(),
            AWDLTLVView::IEEE80211Container(p) => p.wf(),
            AWDLTLVView::ChannelSequence(p) => p.wf(),
            AWDLTLVView::SynchronizationTree(_) => true,
            AWDLTLVView::Version(p) => p.wf(),
            AWDLTLVView::ElectionParametersV2(_) => true,
            AWDLTLVView::Unknown(t) => t.tlv_type.wf() && t.tlv_type matches TLVType::Unknown(_),
        }
        &&& self.payload_serial().len() <= 0xffff
    }
}

/// The minimum payload size of each known type code; a shorter payload is
/// rejected when a raw TLV is converted rather than silently truncated.
pub open spec fn min_tlv_len(ty: TLVType) -> int {
    match ty {
        TLVType::ServiceResponse => 9,
        TLVType::SynchronizationParameters => 33,
        TLVType::ElectionParameters => 21,
        TLVType::ServiceParameters => 9,
        TLVType::HTCapabilities => 7,
        TLVType::DataPathState => 2,
        TLVType::Arpa => 3,
        TLVType::VHTCapabilities => 2,
        TLVType::ChannelSequence => 9,
        TLVType::SynchronizationTree => 0,
        TLVType::Version => 2,
        TLVType::ElectionParametersV2 => 40,
        TLVType::Unknown(_) => 0,
    }
}

/// Converts a raw TLV into the typed value its type code calls for; an
/// unknown type code passes the raw TLV through.
pub open spec fn awdl_tlv_parse(t: TLVView) -> Result<AWDLTLVView, FromTLVError> {
    if t.tlv_data.len() < min_tlv_len(t.tlv_type) {
        Err(FromTLVError::IncorrectTlvLength)
    } else {
        match t.tlv_type {
            TLVType::ServiceResponse => match ServiceResponseTLV::spec_parse(t.tlv_data) {
                Ok(p) => Ok(AWDLTLVView::ServiceResponse(p)),
                Err(e) => Err(FromTLVError::ParserError(e)),
            },
            TLVType::SynchronizationParameters => match SynchronizationParametersTLV::spec_parse(
                t.tlv_data,
            ) {
                Ok(p) => Ok(AWDLTLVView::SynchronizationParameters(p)),
                Err(e) => Err(FromTLVError::ParserError(e)),
            },
            TLVType::ElectionParameters => match ElectionParametersTLV::spec_parse(t.tlv_data) {
                Ok(p) => Ok(AWDLTLVView::ElectionParameters(p)),
                Err(e) => Err(FromTLVError::ParserError(e)),
            },
            TLVType::ServiceParameters => match ServiceParametersTLV::spec_parse(t.tlv_data) {
                Ok(p) => Ok(AWDLTLVView::ServiceParameters(p)),
                Err(e) => Err(FromTLVError::ParserError(e)),
            },
            TLVType::HTCapabilities => match HTCapabilitiesTLV::spec_parse(t.tlv_data) {
                Ok(p) => Ok(AWDLTLVView::HTCapabilities(p)),
                Err(e) => Err(FromTLVError::ParserError(e)),
            },
            TLVType::DataPathState => match DataPathStateTLV::spec_parse(t.tlv_data) {
                Ok(p) => Ok(AWDLTLVView::DataPathState(p)),
                Err(e) => Err(FromTLVError::ParserError(e)),
            },
            TLVType::Arpa => match ArpaTLV::spec_parse(t.tlv_data) {
                Ok(p) => Ok(AWDLTLVView::Arpa(p)),
                Err(e) => Err(FromTLVError::ParserError(e)),
            },
            TLVType::VHTCapabilities => match IEEE80211ContainerTLV::spec_parse(t.tlv_data) {
                Ok(p) => Ok(AWDLTLVView::IEEE80211Container(p)),
                Err(e) => Err(FromTLVError::ParserError(e)),
            },
            TLVType::ChannelSequence => match ChannelSequenceTLV::spec_parse(t.tlv_data) {
                Ok(p) => Ok(AWDLTLVView::ChannelSequence(p)),
                Err(e) => Err(FromTLVError::ParserError(e)),
            },
            TLVType::SynchronizationTree => Ok(
                AWDLTLVView::SynchronizationTree(crate::sync_tree::sync_tree_parse(t.tlv_data)),
            ),
            TLVType::Version => match VersionTLV::spec_parse(t.tlv_data) {
                Ok(p) => Ok(AWDLTLVView::Version(p)),
                Err(e) => Err(FromTLVError::ParserError(e)),
            },
            TLVType::ElectionParametersV2 => match ElectionParametersV2TLV::spec_parse(
                t.tlv_data,
            ) {
                Ok(p) => Ok(AWDLTLVView::ElectionParametersV2(p)),
                Err(e) => Err(FromTLVError::ParserError(e)),
            },
            TLVType::Unknown(_) => Ok(AWDLTLVView::Unknown(t)),
        }
    }
}

impl AWDLTLV {
    /// The payload is well-formed and fits the envelope.
    pub open spec fn wf(&self) -> bool {
        self@.wf()
    }

    /// Returns the type code this value is carried under.
    pub fn get_type(&self) -> (r: TLVType)
        ensures
            r == self@.get_type(),
    {
        match self {
            AWDLTLV::ServiceResponse(_) => TLVType::ServiceResponse,
            AWDLTLV::SynchronizationParameters(_) => TLVType::SynchronizationParameters,
            AWDLTLV::ElectionParameters(_) => TLVType::ElectionParameters,
            AWDLTLV::ServiceParameters(_) => TLVType::ServiceParameters,
            AWDLTLV::HTCapabilities(_) => TLVType::HTCapabilities,
            AWDLTLV::DataPathState(_) => TLVType::DataPathState,
            AWDLTLV::Arpa(_) => TLVType::Arpa,
            AWDLTLV::IEEE80211Container(_) => TLVType::VHTCapabilities,
            AWDLTLV::ChannelSequence(_) => TLVType::ChannelSequence,
            AWDLTLV::SynchronizationTree(_) => TLVType::SynchronizationTree,
            AWDLTLV::Version(_) => TLVType::Version,
            AWDLTLV::ElectionParametersV2(_) => TLVType::ElectionParametersV2,
            AWDLTLV::Unknown(t) => t.tlv_type,
        }
    }

    /// Converts a raw TLV into the typed value its type code calls for.
    pub fn from_raw(t: &TLV) -> (r: Result<AWDLTLV, FromTLVError>)
        ensures
            crate::parser::view_res(r) == awdl_tlv_parse(t@),
    {
        let data = t.tlv_data.as_slice();
        let min: usize = match t.tlv_type {
            TLVType::ServiceResponse => 9,
            TLVType::SynchronizationParameters => 33,
            TLVType::ElectionParameters => 21,
            TLVType::ServiceParameters => 9,
            TLVType::HTCapabilities => 7,
            TLVType::DataPathState => 2,
            TLVType::Arpa => 3,
            TLVType::VHTCapabilities => 2,
            TLVType::ChannelSequence => 9,
            TLVType::SynchronizationTree => 0,
            TLVType::Version => 2,
            TLVType::ElectionParametersV2 => 40,
            TLVType::Unknown(_) => 0,
        };
        if data.len() < min {
            return Err(FromTLVError::IncorrectTlvLength);
        }
        match t.tlv_type {
            TLVType::ServiceResponse => match ServiceResponseTLV::from_bytes(data) {
                Ok(p) => Ok(AWDLTLV::ServiceResponse(p)),
                Err(e) => Err(FromTLVError::ParserError(e)),
            },
            TLVType::SynchronizationParameters => match SynchronizationParametersTLV::from_bytes(
                data,
            ) {
                Ok(p) => Ok(AWDLTLV::SynchronizationParameters(p)),
                Err(e) => Err(FromTLVError::ParserError(e)),
            },
            TLVType::ElectionParameters => match ElectionParametersTLV::from_bytes(data) {
                Ok(p) => Ok(AWDLTLV::ElectionParameters(p)),
                Err(e) => Err(FromTLVError::ParserError(e)),
            },
            TLVType::ServiceParameters => match ServiceParametersTLV::from_bytes(data) {
                Ok(p) => Ok(AWDLTLV::ServiceParameters(p)),
                Err(e) => Err(FromTLVError::ParserError(e)),
            },
            TLVType::HTCapabilities => match HTCapabilitiesTLV::from_bytes(data) {
                Ok(p) => Ok(AWDLTLV::HTCapabilities(p)),
                Err(e) => Err(FromTLVError::ParserError(e)),
            },
            TLVType::DataPathState => match DataPathStateTLV::from_bytes(data) {
                Ok(p) => Ok(AWDLTLV::DataPathState(p)),
                Err(e) => Err(FromTLVError::ParserError(e)),
            },
            TLVType::Arpa => match ArpaTLV::from_bytes(data) {
                Ok(p) => Ok(AWDLTLV::Arpa(p)),
                Err(e) => Err(FromTLVError::ParserError(e)),
            },
            TLVType::VHTCapabilities => match IEEE80211ContainerTLV::from_bytes(data) {
                Ok(p) => Ok(AWDLTLV::IEEE80211Container(p)),
                Err(e) => Err(FromTLVError::ParserError(e)),
            },
            TLVType::ChannelSequence => match ChannelSequenceTLV::from_bytes(data) {
                Ok(p) => Ok(AWDLTLV::ChannelSequence(p)),
                Err(e) => Err(FromTLVError::ParserError(e)),
            },
            TLVType::SynchronizationTree => Ok(
                AWDLTLV::SynchronizationTree(SyncTreeTLV::from_bytes(data)),
            ),
            TLVType::Version => match VersionTLV::from_bytes(data) {
                Ok(p) => Ok(AWDLTLV::Version(p)),
                Err(e) => Err(FromTLVError::ParserError(e)),
            },
            TLVType::ElectionParametersV2 => match ElectionParametersV2TLV::from_bytes(data) {
                Ok(p) => Ok(AWDLTLV::ElectionParametersV2(p)),
                Err(e) => Err(FromTLVError::ParserError(e)),
            },
            TLVType::Unknown(_) => {
                let copy = TLV {
                    tlv_type: t.tlv_type,
                    tlv_data: vstd::slice::slice_to_vec(t.tlv_data.as_slice()),
                };
                assert(copy@ =~= t@);
                Ok(AWDLTLV::Unknown(copy))
            },
        }
    }

    /// Encodes the value with its envelope: the type code, the recomputed
    /// payload length, and the payload.
    pub fn write_to(&self, out: &mut Vec<u8>)
        requires
            self.wf(),
        ensures
            final(out)@ == old(out)@ + tlv_serial(self@.raw_serial()),
    {
        let payload: Vec<u8> = match self {
            AWDLTLV::ServiceResponse(p) => p.to_bytes(),
            AWDLTLV::SynchronizationParameters(p) => p.to_bytes(),
            AWDLTLV::ElectionParameters(p) => p.to_bytes(),
            AWDLTLV::ServiceParameters(p) => p.to_bytes(),
            AWDLTLV::HTCapabilities(p) => p.to_bytes(),
            AWDLTLV::DataPathState(p) => p.to_bytes(),
            AWDLTLV::Arpa(p) => p.to_bytes(),
            AWDLTLV::IEEE80211Container(p) => p.to_bytes(),
            AWDLTLV::ChannelSequence(p) => p.to_bytes(),
            AWDLTLV::SynchronizationTree(p) => p.to_bytes(),
            AWDLTLV::Version(p) => p.to_bytes(),
            AWDLTLV::ElectionParametersV2(p) => p.to_bytes(),
            AWDLTLV::Unknown(t) => vstd::slice::slice_to_vec(t.tlv_data.as_slice()),
        };
        assert(payload@ == self@.payload_serial());
        out.push(self.get_type().into_bits());
        crate::bytes::write_u16_le(out, payload.len() as u16);
        crate::bytes::write_slice_range(out, payload.as_slice(), 0, payload.len());
        assert(payload@.subrange(0, payload@.len() as int) =~= payload@);
        assert(out@ =~= old(out)@ + tlv_serial(self@.raw_serial()));
    }

    /// Encodes the value with its envelope.
    pub fn to_bytes(&self) -> (r: Vec<u8>)
        requires
            self.wf(),
        ensures
            r@ == tlv_serial(self@.raw_serial()),
    {
        let mut out: Vec<u8> = Vec::new();
        self.write_to(&mut out);
        assert(out@ =~= tlv_serial(self@.raw_serial()));
        out
    }
}

/// A well-formed typed TLV converts back from its own raw encoding.
#[verifier::rlimit(100)]
pub proof fn lemma_awdl_tlv_round_trip(v: AWDLTLVView)
    requires
        v.wf(),
    ensures
        awdl_tlv_parse(v.raw_serial()) == Ok::<_, FromTLVError>(v),
{
    let t = v.raw_serial();
    match v {
        AWDLTLVView::ServiceResponse(p) => {
            crate::service_response::lemma_service_response_round_trip(p);
            assert(crate::dns_name::dns_name_serial(p.name).len() >= 2);
            assert(crate::dns_record::dns_record_serial(p.record).len() >= 5);
        },
        AWDLTLVView::SynchronizationParameters(p) => {
            crate::sync_parameters::lemma_sync_parameters_round_trip(p);
        },
        AWDLTLVView::ElectionParameters(p) => {
            crate::election_parameters::lemma_election_parameters_round_trip(p);
        },
        AWDLTLVView::ServiceParameters(p) => {
            crate::service_parameters::lemma_service_parameters_round_trip(p);
        },
        AWDLTLVView::HTCapabilities(p) => {
            crate::ht_capabilities::lemma_ht_capabilities_round_trip(p);
        },
        AWDLTLVView::DataPathState(p) => {
            assert(DataPathStateTLV::spec_parse(p.spec_serial()) == Ok::<_, ParserError>(p));
        },
        AWDLTLVView::Arpa(p) => {
            crate::arpa::lemma_arpa_round_trip(p);
        },
        AWDLTLVView::IEEE80211Container(p) => {
            crate::container::lemma_container_round_trip(p);
        },
        AWDLTLVView::ChannelSequence(p) => {
            crate::channel_sequence::lemma_channel_sequence_tlv_round_trip(p);
        },
        AWDLTLVView::SynchronizationTree(p) => {
            crate::sync_tree::lemma_sync_tree_round_trip(p);
        },
        AWDLTLVView::Version(p) => {
            crate::version::lemma_version_tlv_round_trip(p);
        },
        AWDLTLVView::ElectionParametersV2(p) => {
            crate::election_parameters::lemma_election_parameters_v2_round_trip(p);
        },
        AWDLTLVView::Unknown(t2) => {
            assert(t =~= t2);
        },
    }
}

} // verus!
