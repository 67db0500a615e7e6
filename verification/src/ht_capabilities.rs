//! The HT capabilities TLV: a fixed 16-bit capability bitfield, an 8-bit
//! A-MPDU parameters bitfield, and a trailing filler region whose length
//! stands for the receive spatial stream count.
use vstd::prelude::*;

use crate::bytes::{flag16, flag16_val, lemma_u16_le_round_trip, read_u16_le, u16_le, u16_le_bytes, write_u16_le};
use crate::parser::ParserError;

verus! {

/// The spatial-multiplexing power-save mode.
#[derive(Debug, Clone, Copy, PartialEq, Eq, Hash, Structural)]
pub enum SmPwSave {
    Static,
    Dynamic,
    Disabled,
    /// A two-bit value outside the known table.
    Unknown(u8),
}

impl SmPwSave {
    /// The mode denoted by a field value.
    pub open spec fn spec_from_bits(value: u8) -> SmPwSave {
        match value {
            0 => SmPwSave::Static,
            1 => SmPwSave::Dynamic,
            3 => SmPwSave::Disabled,
            _ => SmPwSave::Unknown(value),
        }
    }

    /// The field value of this mode.
    pub open spec fn spec_into_bits(self) -> u8 {
        match self {
            SmPwSave::Static => 0,
            SmPwSave::Dynamic => 1,
            SmPwSave::Disabled => 3,
            SmPwSave::Unknown(value) => value,
        }
    }

    /// Maps a field value to the mode it denotes.
    pub fn from_bits(value: u8) -> (r: SmPwSave)
        ensures
            r == Self::spec_from_bits(value),
    {
        match value {
            0 => SmPwSave::Static,
            1 => SmPwSave::Dynamic,
            3 => SmPwSave::Disabled,
            _ => SmPwSave::Unknown(value),
        }
    }

    /// Maps the mode to its field value.
    pub fn into_bits(self) -> (r: u8)
        ensures
            r == self.spec_into_bits(),
    {
        match self {
            SmPwSave::Static => 0,
            SmPwSave::Dynamic => 1,
            SmPwSave::Disabled => 3,
            SmPwSave::Unknown(value) => value,
        }
    }
}

impl Default for SmPwSave {
    /// The default mode is static power save.
    fn default() -> (r: Self)
        ensures
            r == SmPwSave::Static,
    {
        SmPwSave::Static
    }
}

/// The maximum A-MPDU length exponent.
#[derive(Debug, Clone, Copy, PartialEq, Eq, Hash, Structural)]
pub enum MAXAMpduLength {
    /// 8 kb.
    Small,
    /// 16 kb.
    Medium,
    /// 32 kb.
    Large,
    /// 64 kb.
    VeryLarge,
}

impl MAXAMpduLength {
    /// The length denoted by a two-bit field value.
    pub open spec fn spec_from_bits(value: u8) -> MAXAMpduLength
        recommends
            value < 4,
    {
        match value {
            0 => MAXAMpduLength::Small,
            1 => MAXAMpduLength::Medium,
            2 => MAXAMpduLength::Large,
            _ => MAXAMpduLength::VeryLarge,
        }
    }

    /// The field value of this length.
    pub open spec fn spec_into_bits(self) -> u8 {
        match self {
            MAXAMpduLength::Small => 0,
            MAXAMpduLength::Medium => 1,
            MAXAMpduLength::Large => 2,
            MAXAMpduLength::VeryLarge => 3,
        }
    }

    /// Maps a two-bit field value to the length it denotes.
    pub fn from_bits(value: u8) -> (r: MAXAMpduLength)
        ensures
            r == Self::spec_from_bits(value),
    {
        match value {
            0 => MAXAMpduLength::Small,
            1 => MAXAMpduLength::Medium,
            2 => MAXAMpduLength::Large,
            _ => MAXAMpduLength::VeryLarge,
        }
    }

    /// Maps the length to its field value.
    pub fn into_bits(self) -> (r: u8)
        ensures
            r == self.spec_into_bits(),
    {
        match self {
            MAXAMpduLength::Small => 0,
            MAXAMpduLength::Medium => 1,
            MAXAMpduLength::Large => 2,
            MAXAMpduLength::VeryLarge => 3,
        }
    }
}

impl Default for MAXAMpduLength {
    /// The default maximum length is the smallest.
    fn default() -> (r: Self)
        ensures
            r == MAXAMpduLength::Small,
    {
        MAXAMpduLength::Small
    }
}

/// The minimum MPDU start spacing, in microseconds.
#[derive(Debug, Clone, Copy, PartialEq, Eq, Hash, Structural)]
pub enum MpduDensity {
    NoRestriction,
    Quarter,
    Half,
    One,
    Two,
    Four,
    Eight,
    Sixteen,
}

impl MpduDensity {
    /// The density denoted by a three-bit field value.
    pub open spec fn spec_from_bits(value: u8) -> MpduDensity
        recommends
            value < 8,
    {
        match value {
            0 => MpduDensity::NoRestriction,
            1 => MpduDensity::Quarter,
            2 => MpduDensity::Half,
            3 => MpduDensity::One,
            4 => MpduDensity::Two,
            5 => MpduDensity::Four,
            6 => MpduDensity::Eight,
            _ => MpduDensity::Sixteen,
        }
    }

    /// The field value of this density.
    pub open spec fn spec_into_bits(self) -> u8 {
        match self {
            MpduDensity::NoRestriction => 0,
            MpduDensity::Quarter => 1,
            MpduDensity::Half => 2,
            MpduDensity::One => 3,
            MpduDensity::Two => 4,
            MpduDensity::Four => 5,
            MpduDensity::Eight => 6,
            MpduDensity::Sixteen => 7,
        }
    }

    /// Maps a three-bit field value to the density it denotes.
    pub fn from_bits(value: u8) -> (r: MpduDensity)
        ensures
            r == Self::spec_from_bits(value),
    {
        match value {
            0 => MpduDensity::NoRestriction,
            1 => MpduDensity::Quarter,
            2 => MpduDensity::Half,
            3 => MpduDensity::One,
            4 => MpduDensity::Two,
            5 => MpduDensity::Four,
            6 => MpduDensity::Eight,
            _ => MpduDensity::Sixteen,
        }
    }

    /// Maps the density to its field value.
    pub fn into_bits(self) -> (r: u8)
        ensures
            r == self.spec_into_bits(),
    {
        match self {
            MpduDensity::NoRestriction => 0,
            MpduDensity::Quarter => 1,
            MpduDensity::Half => 2,
            MpduDensity::One => 3,
            MpduDensity::Two => 4,
            MpduDensity::Four => 5,
            MpduDensity::Eight => 6,
            MpduDensity::Sixteen => 7,
        }
    }
}

impl Default for MpduDensity {
    /// The default density is unrestricted.
    fn default() -> (r: Self)
        ensures
            r == MpduDensity::NoRestriction,
    {
        MpduDensity::NoRestriction
    }
}

/// The 16-bit HT capability word, one documented field per bit range.
#[derive(Debug, Clone, Copy, PartialEq, Eq, Hash, Structural, Default)]
pub struct HTCapabilitiesInfo {
    /// Bit 0.
    pub ldpc_coding_capability: bool,
    /// Bit 1.
    pub support_channel_width: bool,
    /// Bits 2 and 3.
    pub sm_power_save: SmPwSave,
    /// Bit 4.
    pub green_field: bool,
    /// Bit 5.
    pub short_gi_20mhz: bool,
    /// Bit 6.
    pub short_gi_40mhz: bool,
    /// Bit 7.
    pub tx_stbc: bool,
    /// Bits 8 and 9.
    pub rx_stbc: u8,
    /// Bit 10.
    pub delayed_block_ack: bool,
    /// Bit 11.
    pub is_max_amsdu_large: bool,
    /// Bit 12.
    pub dsss_40mhz: bool,
    /// Bit 13.
    pub psmp: bool,
    /// Bit 14.
    pub forty_mhz_intolerant: bool,
    /// Bit 15.
    pub txop_protection_support: bool,
}

impl HTCapabilitiesInfo {
    /// The fields packed in the given capability word.
    pub open spec fn spec_from_bits(x: u16) -> HTCapabilitiesInfo {
        HTCapabilitiesInfo {
            ldpc_coding_capability: (x >> 0) & 1 == 1,
            support_channel_width: (x >> 1) & 1 == 1,
            sm_power_save: SmPwSave::spec_from_bits(((x >> 2) & 3) as u8),
            green_field: (x >> 4) & 1 == 1,
            short_gi_20mhz: (x >> 5) & 1 == 1,
            short_gi_40mhz: (x >> 6) & 1 == 1,
            tx_stbc: (x >> 7) & 1 == 1,
            rx_stbc: ((x >> 8) & 3) as u8,
            delayed_block_ack: (x >> 10) & 1 == 1,
            is_max_amsdu_large: (x >> 11) & 1 == 1,
            dsss_40mhz: (x >> 12) & 1 == 1,
            psmp: (x >> 13) & 1 == 1,
            forty_mhz_intolerant: (x >> 14) & 1 == 1,
            txop_protection_support: (x >> 15) & 1 == 1,
        }
    }

    /// The capability word packing these fields.
    pub open spec fn spec_into_bits(self) -> u16 {
        flag16(self.ldpc_coding_capability, 1) | flag16(self.support_channel_width, 2) | (((
        self.sm_power_save.spec_into_bits() & 3) as u16) << 2) | flag16(self.green_field, 0x10)
            | flag16(self.short_gi_20mhz, 0x20) | flag16(self.short_gi_40mhz, 0x40) | flag16(
            self.tx_stbc,
            0x80,
        ) | (((self.rx_stbc & 3) as u16) << 8) | flag16(self.delayed_block_ack, 0x400) | flag16(
            self.is_max_amsdu_large,
            0x800,
        ) | flag16(self.dsss_40mhz, 0x1000) | flag16(self.psmp, 0x2000) | flag16(
            self.forty_mhz_intolerant,
            0x4000,
        ) | flag16(self.txop_protection_support, 0x8000)
    }

    /// The fields survive packing: unpacking the packed word gives them
    /// back.
    pub open spec fn wf(self) -> bool {
        Self::spec_from_bits(self.spec_into_bits()) == self
    }

    /// Unpacks a capability word.
    pub fn from_bits(x: u16) -> (r: HTCapabilitiesInfo)
        ensures
            r == Self::spec_from_bits(x),
    {
        HTCapabilitiesInfo {
            ldpc_coding_capability: (x >> 0u16) & 1 == 1,
            support_channel_width: (x >> 1u16) & 1 == 1,
            sm_power_save: SmPwSave::from_bits(((x >> 2u16) & 3) as u8),
            green_field: (x >> 4u16) & 1 == 1,
            short_gi_20mhz: (x >> 5u16) & 1 == 1,
            short_gi_40mhz: (x >> 6u16) & 1 == 1,
            tx_stbc: (x >> 7u16) & 1 == 1,
            rx_stbc: ((x >> 8u16) & 3) as u8,
            delayed_block_ack: (x >> 10u16) & 1 == 1,
            is_max_amsdu_large: (x >> 11u16) & 1 == 1,
            dsss_40mhz: (x >> 12u16) & 1 == 1,
            psmp: (x >> 13u16) & 1 == 1,
            forty_mhz_intolerant: (x >> 14u16) & 1 == 1,
            txop_protection_support: (x >> 15u16) & 1 == 1,
        }
    }

    /// Packs the fields into a capability word.
    pub fn into_bits(self) -> (r: u16)
        ensures
            r == self.spec_into_bits(),
    {
        flag16_val(self.ldpc_coding_capability, 1) | flag16_val(self.support_channel_width, 2) | ((
        (self.sm_power_save.into_bits() & 3) as u16) << 2u16) | flag16_val(self.green_field, 0x10)
            | flag16_val(self.short_gi_20mhz, 0x20) | flag16_val(self.short_gi_40mhz, 0x40)
            | flag16_val(self.tx_stbc, 0x80) | (((self.rx_stbc & 3) as u16) << 8u16) | flag16_val(
            self.delayed_block_ack,
            0x400,
        ) | flag16_val(self.is_max_amsdu_large, 0x800) | flag16_val(self.dsss_40mhz, 0x1000)
            | flag16_val(self.psmp, 0x2000) | flag16_val(self.forty_mhz_intolerant, 0x4000)
            | flag16_val(self.txop_protection_support, 0x8000)
    }
}

/// Unpacking any capability word yields a well-formed value: packing it
/// again reproduces the word.
pub proof fn lemma_ht_info_wf(x: u16)
    ensures
        HTCapabilitiesInfo::spec_from_bits(x).wf(),
        HTCapabilitiesInfo::spec_from_bits(x).spec_into_bits() == x,
{
    let v = HTCapabilitiesInfo::spec_from_bits(x);
    let sm = ((x >> 2) & 3) as u8;
    assert((((x >> 2) & 3) as u8) < 4) by (bit_vector);
    assert(v.sm_power_save.spec_into_bits() == sm);
    let y = v.spec_into_bits();
    let sm16 = (sm & 3) as u16;
    let rx = v.rx_stbc;
    let rx16 = (rx & 3) as u16;
    assert(v.rx_stbc == ((x >> 8) & 3) as u8);
    assert(flag16((x >> 0) & 1 == 1, 1) | flag16((x >> 1) & 1 == 1, 2) | (sm16 << 2) | flag16(
        (x >> 4) & 1 == 1,
        0x10,
    ) | flag16((x >> 5) & 1 == 1, 0x20) | flag16((x >> 6) & 1 == 1, 0x40) | flag16(
        (x >> 7) & 1 == 1,
        0x80,
    ) | (rx16 << 8) | flag16((x >> 10) & 1 == 1, 0x400) | flag16((x >> 11) & 1 == 1, 0x800)
        | flag16((x >> 12) & 1 == 1, 0x1000) | flag16((x >> 13) & 1 == 1, 0x2000) | flag16(
        (x >> 14) & 1 == 1,
        0x4000,
    ) | flag16((x >> 15) & 1 == 1, 0x8000) == x) by (bit_vector)
        requires
            sm == ((x >> 2) & 3) as u8,
            sm16 == (sm & 3) as u16,
            rx == ((x >> 8) & 3) as u8,
            rx16 == (rx & 3) as u16,
    ;
    assert(y == x);
}

/// The 8-bit A-MPDU parameters bitfield.
#[derive(Debug, Clone, Copy, PartialEq, Eq, Hash, Structural, Default)]
pub struct AMpduParameters {
    /// Bits 0 and 1.
    pub max_a_mpdu_length: MAXAMpduLength,
    /// Bits 2 through 4.
    pub mpdu_density: MpduDensity,
}

impl AMpduParameters {
    /// The fields packed in the given parameter byte; bits 5 through 7 are
    /// ignored.
    pub open spec fn spec_from_bits(x: u8) -> AMpduParameters {
        AMpduParameters {
            max_a_mpdu_length: MAXAMpduLength::spec_from_bits((x & 3) as u8),
            mpdu_density: MpduDensity::spec_from_bits(((x >> 2) & 7) as u8),
        }
    }

    /// The parameter byte packing these fields.
    pub open spec fn spec_into_bits(self) -> u8 {
        self.max_a_mpdu_length.spec_into_bits() | (self.mpdu_density.spec_into_bits() << 2)
    }

    /// Unpacks a parameter byte.
    pub fn from_bits(x: u8) -> (r: AMpduParameters)
        ensures
            r == Self::spec_from_bits(x),
    {
        AMpduParameters {
            max_a_mpdu_length: MAXAMpduLength::from_bits(x & 3),
            mpdu_density: MpduDensity::from_bits((x >> 2u8) & 7),
        }
    }

    /// Packs the fields into a parameter byte.
    pub fn into_bits(self) -> (r: u8)
        ensures
            r == self.spec_into_bits(),
    {
        self.max_a_mpdu_length.into_bits() | (self.mpdu_density.into_bits() << 2u8)
    }
}

/// Unpacking any parameter byte and packing it again reproduces its five
/// meaningful bits; unpacking that reproduces the fields.
pub proof fn lemma_ampdu_wf(x: u8)
    ensures
        AMpduParameters::spec_from_bits(AMpduParameters::spec_from_bits(x).spec_into_bits())
            == AMpduParameters::spec_from_bits(x),
{
    let v = AMpduParameters::spec_from_bits(x);
    let a = (x & 3) as u8;
    let d = ((x >> 2) & 7) as u8;
    assert(((x & 3) as u8) < 4 && (((x >> 2) & 7) as u8) < 8) by (bit_vector);
    assert(v.max_a_mpdu_length.spec_into_bits() == a);
    assert(v.mpdu_density.spec_into_bits() == d);
    let y = v.spec_into_bits();
    assert((a | (d << 2)) & 3 == a && ((a | (d << 2)) >> 2) & 7 == d) by (bit_vector)
        requires
            a < 4 && d < 8,
    ;
}

/// The HT capabilities TLV payload.
#[derive(Debug, Clone, Copy, PartialEq, Eq, Hash, Structural, Default)]
pub struct HTCapabilitiesTLV {
    /// The capability bitfield.
    pub ht_capabilities_info: HTCapabilitiesInfo,
    /// The A-MPDU parameters bitfield.
    pub a_mpdu_parameters: AMpduParameters,
    /// The receive spatial stream count, carried as the length of the
    /// trailing filler region.
    pub rx_spatial_stream_count: u8,
}

impl HTCapabilitiesTLV {
    /// Both bitfields survive packing.
    pub open spec fn wf(self) -> bool {
        self.ht_capabilities_info.wf() && AMpduParameters::spec_from_bits(
            self.a_mpdu_parameters.spec_into_bits(),
        ) == self.a_mpdu_parameters
    }

    /// Parses an HT capabilities payload: two reserved bytes, the
    /// capability word, the parameter byte, then `length - 7` filler bytes
    /// and two trailing bytes, all ignored except for their count.
    pub open spec fn spec_parse(b: Seq<u8>) -> Result<HTCapabilitiesTLV, ParserError> {
        if b.len() < 7 {
            Err(ParserError::TooLittleData((7 - b.len()) as usize))
        } else {
            Ok(
                HTCapabilitiesTLV {
                    ht_capabilities_info: HTCapabilitiesInfo::spec_from_bits(u16_le(b[2], b[3])),
                    a_mpdu_parameters: AMpduParameters::spec_from_bits(b[4]),
                    rx_spatial_stream_count: (b.len() - 7) as u8,
                },
            )
        }
    }

    /// The payload bytes: two reserved zero bytes, the packed fields, one
    /// `0xff` filler byte per spatial stream, and two trailing zero bytes.
    pub open spec fn spec_serial(self) -> Seq<u8> {
        seq![0u8, 0u8] + u16_le_bytes(self.ht_capabilities_info.spec_into_bits()) + seq![
            self.a_mpdu_parameters.spec_into_bits(),
        ] + Seq::new(self.rx_spatial_stream_count as nat, |i: int| 0xffu8) + seq![0u8, 0u8]
    }

    /// Decodes the payload of an HT capabilities TLV.
    pub fn from_bytes(b: &[u8]) -> (r: Result<HTCapabilitiesTLV, ParserError>)
        ensures
            r == Self::spec_parse(b@),
            r matches Ok(v) ==> v.wf(),
    {
        if b.len() < 7 {
            return Err(ParserError::TooLittleData(7 - b.len()));
        }
        let info_bits = read_u16_le(b, 2);
        let count_usize = b.len() - 7;
        let count = count_usize as u8;
        proof {
            lemma_ht_info_wf(info_bits);
            lemma_ampdu_wf(b@[4]);
        }
        Ok(
            HTCapabilitiesTLV {
                ht_capabilities_info: HTCapabilitiesInfo::from_bits(info_bits),
                a_mpdu_parameters: AMpduParameters::from_bits(b[4]),
                rx_spatial_stream_count: count,
            },
        )
    }

    /// Encodes the payload of an HT capabilities TLV.
    pub fn to_bytes(&self) -> (r: Vec<u8>)
        ensures
            r@ == self.spec_serial(),
    {
        let mut out: Vec<u8> = Vec::new();
        out.push(0);
        out.push(0);
        write_u16_le(&mut out, self.ht_capabilities_info.into_bits());
        out.push(self.a_mpdu_parameters.into_bits());
        crate::bytes::write_repeated(&mut out, 0xff, self.rx_spatial_stream_count as usize);
        out.push(0);
        out.push(0);
        assert(out@ =~= self.spec_serial());
        out
    }
}

/// A serialized well-formed HT capabilities TLV parses back to itself.
pub proof fn lemma_ht_capabilities_round_trip(v: HTCapabilitiesTLV)
    requires
        v.wf(),
    ensures
        HTCapabilitiesTLV::spec_parse(v.spec_serial()) == Ok::<_, ParserError>(v),
{
    let b = v.spec_serial();
    assert(b.len() == 7 + v.rx_spatial_stream_count);
    lemma_u16_le_round_trip(v.ht_capabilities_info.spec_into_bits());
    assert(b[2] == u16_le_bytes(v.ht_capabilities_info.spec_into_bits())[0]);
    assert(b[3] == u16_le_bytes(v.ht_capabilities_info.spec_into_bits())[1]);
    assert(b[4] == v.a_mpdu_parameters.spec_into_bits());
}

} // verus!
