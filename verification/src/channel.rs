//! A single wireless channel in one of the three encodings AWDL uses, and
//! the flag byte of the legacy encoding.
use vstd::prelude::*;

verus! {

/// The three different types of channel encodings.
#[derive(Debug, Clone, Copy, PartialEq, Eq, Hash, Structural)]
pub enum ChannelEncoding {
    /// Simple channel encoding: one byte per channel.
    Simple,
    /// Legacy channel encoding: a flag byte and a channel byte.
    Legacy,
    /// Operating-class channel encoding: a channel byte and an opclass byte.
    OpClass,
    /// An encoding byte outside the known table.
    Unknown(u8),
}

impl ChannelEncoding {
    /// The encoding denoted by a wire byte.
    pub open spec fn spec_from_bits(value: u8) -> ChannelEncoding {
        match value {
            0x00 => ChannelEncoding::Simple,
            0x01 => ChannelEncoding::Legacy,
            0x03 => ChannelEncoding::OpClass,
            _ => ChannelEncoding::Unknown(value),
        }
    }

    /// The wire byte of this encoding.
    pub open spec fn spec_into_bits(self) -> u8 {
        match self {
            ChannelEncoding::Simple => 0x00,
            ChannelEncoding::Legacy => 0x01,
            ChannelEncoding::OpClass => 0x03,
            ChannelEncoding::Unknown(value) => value,
        }
    }

    /// Maps a wire byte to the encoding it denotes.
    pub fn from_bits(value: u8) -> (r: ChannelEncoding)
        ensures
            r == Self::spec_from_bits(value),
    {
        match value {
            0x00 => ChannelEncoding::Simple,
            0x01 => ChannelEncoding::Legacy,
            0x03 => ChannelEncoding::OpClass,
            _ => ChannelEncoding::Unknown(value),
        }
    }

    /// Maps the encoding to its wire byte.
    pub fn into_bits(self) -> (r: u8)
        ensures
            r == self.spec_into_bits(),
    {
        match self {
            ChannelEncoding::Simple => 0x00,
            ChannelEncoding::Legacy => 0x01,
            ChannelEncoding::OpClass => 0x03,
            ChannelEncoding::Unknown(value) => value,
        }
    }

    /// The size in bytes of one channel in this encoding, as a
    /// specification value.
    pub open spec fn spec_size(self) -> u8 {
        match self {
            ChannelEncoding::Simple => 1,
            _ => 2,
        }
    }

    /// Returns the size in bytes of one channel with the encoding.
    pub fn size(&self) -> (r: u8)
        ensures
            r == self.spec_size(),
    {
        match self {
            ChannelEncoding::Simple => 1,
            _ => 2,
        }
    }
}

/// The position of the primary channel relative to the support channel in
/// the legacy encoding.
#[derive(Debug, Clone, Copy, PartialEq, Eq, Hash, Structural)]
pub enum SupportChannel {
    /// The support channel lies below the primary channel.
    Lower,
    /// The support channel lies above the primary channel.
    Upper,
    /// The support channel is the primary channel.
    Primary,
    /// A field value outside the known table.
    Unknown(u8),
}

impl SupportChannel {
    /// The position denoted by a two-bit field value.
    pub open spec fn spec_from_bits(value: u8) -> SupportChannel {
        match value {
            0x01 => SupportChannel::Lower,
            0x02 => SupportChannel::Upper,
            0x03 => SupportChannel::Primary,
            _ => SupportChannel::Unknown(value),
        }
    }

    /// The field value of this position.
    pub open spec fn spec_into_bits(self) -> u8 {
        match self {
            SupportChannel::Lower => 0x01,
            SupportChannel::Upper => 0x02,
            SupportChannel::Primary => 0x03,
            SupportChannel::Unknown(value) => value,
        }
    }

    /// Maps a two-bit field value to the position it denotes.
    pub fn from_bits(value: u8) -> (r: SupportChannel)
        ensures
            r == Self::spec_from_bits(value),
    {
        match value {
            0x01 => SupportChannel::Lower,
            0x02 => SupportChannel::Upper,
            0x03 => SupportChannel::Primary,
            _ => SupportChannel::Unknown(value),
        }
    }

    /// Maps the position to its field value.
    pub fn into_bits(self) -> (r: u8)
        ensures
            r == self.spec_into_bits(),
    {
        match self {
            SupportChannel::Lower => 0x01,
            SupportChannel::Upper => 0x02,
            SupportChannel::Primary => 0x03,
            SupportChannel::Unknown(value) => value,
        }
    }
}

impl Default for SupportChannel {
    /// The default position is the primary channel.
    fn default() -> (r: Self)
        ensures
            r == SupportChannel::Primary,
    {
        SupportChannel::Primary
    }
}

/// The channel bandwidths supported by AWDL.
#[derive(Debug, Clone, Copy, PartialEq, Eq, Hash, Structural)]
pub enum ChannelBandwidth {
    /// 20 MHz.
    TwentyMHz,
    /// 40 MHz.
    FourtyMHz,
    /// A field value outside the known table.
    Unknown(u8),
}

impl ChannelBandwidth {
    /// The bandwidth denoted by a two-bit field value.
    pub open spec fn spec_from_bits(value: u8) -> ChannelBandwidth {
        match value {
            0x01 => ChannelBandwidth::TwentyMHz,
            0x03 => ChannelBandwidth::FourtyMHz,
            _ => ChannelBandwidth::Unknown(value),
        }
    }

    /// The field value of this bandwidth.
    pub open spec fn spec_into_bits(self) -> u8 {
        match self {
            ChannelBandwidth::TwentyMHz => 0x01,
            ChannelBandwidth::FourtyMHz => 0x03,
            ChannelBandwidth::Unknown(value) => value,
        }
    }

    /// Maps a two-bit field value to the bandwidth it denotes.
    pub fn from_bits(value: u8) -> (r: ChannelBandwidth)
        ensures
            r == Self::spec_from_bits(value),
    {
        match value {
            0x01 => ChannelBandwidth::TwentyMHz,
            0x03 => ChannelBandwidth::FourtyMHz,
            _ => ChannelBandwidth::Unknown(value),
        }
    }

    /// Maps the bandwidth to its field value.
    pub fn into_bits(self) -> (r: u8)
        ensures
            r == self.spec_into_bits(),
    {
        match self {
            ChannelBandwidth::TwentyMHz => 0x01,
            ChannelBandwidth::FourtyMHz => 0x03,
            ChannelBandwidth::Unknown(value) => value,
        }
    }
}

impl Default for ChannelBandwidth {
    /// The default bandwidth is 20 MHz.
    fn default() -> (r: Self)
        ensures
            r == ChannelBandwidth::TwentyMHz,
    {
        ChannelBandwidth::TwentyMHz
    }
}

/// The band on which the channel lies.
#[derive(Debug, Clone, Copy, PartialEq, Eq, Hash, Structural)]
pub enum Band {
    /// 2.4 GHz.
    TwoPointFourGHz,
    /// 5 GHz.
    FiveGHz,
    /// A field value outside the known table.
    Unknown(u8),
}

impl Band {
    /// The band denoted by a two-bit field value.
    pub open spec fn spec_from_bits(value: u8) -> Band {
        match value {
            0x02 => Band::TwoPointFourGHz,
            0x01 => Band::FiveGHz,
            _ => Band::Unknown(value),
        }
    }

    /// The field value of this band.
    pub open spec fn spec_into_bits(self) -> u8 {
        match self {
            Band::TwoPointFourGHz => 0x02,
            Band::FiveGHz => 0x01,
            Band::Unknown(value) => value,
        }
    }

    /// Maps a two-bit field value to the band it denotes.
    pub fn from_bits(value: u8) -> (r: Band)
        ensures
            r == Self::spec_from_bits(value),
    {
        match value {
            0x02 => Band::TwoPointFourGHz,
            0x01 => Band::FiveGHz,
            _ => Band::Unknown(value),
        }
    }

    /// Maps the band to its field value.
    pub fn into_bits(self) -> (r: u8)
        ensures
            r == self.spec_into_bits(),
    {
        match self {
            Band::TwoPointFourGHz => 0x02,
            Band::FiveGHz => 0x01,
            Band::Unknown(value) => value,
        }
    }
}

impl Default for Band {
    /// The default band is 2.4 GHz.
    fn default() -> (r: Self)
        ensures
            r == Band::TwoPointFourGHz,
    {
        Band::TwoPointFourGHz
    }
}

/// The flags for the legacy channel encoding: the support-channel position
/// in bits 0 and 1, the bandwidth in bits 2 and 3, and the band in bits 4
/// and 5.
#[derive(Debug, Clone, Copy, PartialEq, Eq, Hash, Structural, Default)]
pub struct LegacyFlags {
    pub support_channel: SupportChannel,
    pub channel_bandwidth: ChannelBandwidth,
    pub band: Band,
}

impl LegacyFlags {
    /// The fields packed in the given flag byte; bits 6 and 7 are ignored.
    pub open spec fn spec_from_bits(x: u8) -> LegacyFlags {
        LegacyFlags {
            support_channel: SupportChannel::spec_from_bits((x & 3) as u8),
            channel_bandwidth: ChannelBandwidth::spec_from_bits(((x >> 2) & 3) as u8),
            band: Band::spec_from_bits(((x >> 4) & 3) as u8),
        }
    }

    /// The flag byte packing these fields.
    pub open spec fn spec_into_bits(self) -> u8 {
        (self.support_channel.spec_into_bits() & 3) | ((self.channel_bandwidth.spec_into_bits() & 3)
            << 2) | ((self.band.spec_into_bits() & 3) << 4)
    }

    /// The fields survive packing.
    pub open spec fn wf(self) -> bool {
        Self::spec_from_bits(self.spec_into_bits()) == self
    }

    /// Unpacks a legacy flag byte.
    pub fn from_bits(x: u8) -> (r: LegacyFlags)
        ensures
            r == Self::spec_from_bits(x),
            r.wf(),
    {
        proof {
            lemma_legacy_flags_wf(x);
        }
        LegacyFlags {
            support_channel: SupportChannel::from_bits(x & 3),
            channel_bandwidth: ChannelBandwidth::from_bits((x >> 2u8) & 3),
            band: Band::from_bits((x >> 4u8) & 3),
        }
    }

    /// Packs the fields into a legacy flag byte.
    pub fn into_bits(self) -> (r: u8)
        ensures
            r == self.spec_into_bits(),
    {
        (self.support_channel.into_bits() & 3) | ((self.channel_bandwidth.into_bits() & 3) << 2u8)
            | ((self.band.into_bits() & 3) << 4u8)
    }
}

/// Unpacking any legacy flag byte yields a well-formed value.
pub proof fn lemma_legacy_flags_wf(x: u8)
    ensures
        LegacyFlags::spec_from_bits(x).wf(),
{
    let s = (x & 3) as u8;
    let w = ((x >> 2) & 3) as u8;
    let d = ((x >> 4) & 3) as u8;
    assert(((x & 3) as u8) < 4 && (((x >> 2) & 3) as u8) < 4 && (((x >> 4) & 3) as u8) < 4)
        by (bit_vector);
    let v = LegacyFlags::spec_from_bits(x);
    assert(v.support_channel.spec_into_bits() == s);
    assert(v.channel_bandwidth.spec_into_bits() == w);
    assert(v.band.spec_into_bits() == d);
    let y = v.spec_into_bits();
    assert(((s & 3) | ((w & 3) << 2) | ((d & 3) << 4)) & 3 == s && (((s & 3) | ((w & 3) << 2) | ((d
        & 3) << 4)) >> 2) & 3 == w && (((s & 3) | ((w & 3) << 2) | ((d & 3) << 4)) >> 4) & 3 == d)
        by (bit_vector)
        requires
            s < 4 && w < 4 && d < 4,
    ;
}

/// A named channel in one of the three encodings.
#[derive(Debug, Clone, Copy, PartialEq, Eq, Hash, Structural)]
pub enum Channel {
    Simple { channel: u8 },
    Legacy { flags: LegacyFlags, channel: u8 },
    OpClass { channel: u8, opclass: u8 },
}

impl Channel {
    /// A legacy channel's flag byte survives packing; other channels are
    /// always well-formed.
    pub open spec fn wf(self) -> bool {
        match self {
            Channel::Legacy { flags, .. } => flags.wf(),
            _ => true,
        }
    }

    /// The channel encoding of the channel.
    pub open spec fn spec_channel_encoding(self) -> ChannelEncoding {
        match self {
            Channel::Simple { .. } => ChannelEncoding::Simple,
            Channel::Legacy { .. } => ChannelEncoding::Legacy,
            Channel::OpClass { .. } => ChannelEncoding::OpClass,
        }
    }

    /// Returns the channel encoding of the channel.
    pub fn channel_encoding(&self) -> (r: ChannelEncoding)
        ensures
            r == self.spec_channel_encoding(),
    {
        match self {
            Channel::Simple { .. } => ChannelEncoding::Simple,
            Channel::Legacy { .. } => ChannelEncoding::Legacy,
            Channel::OpClass { .. } => ChannelEncoding::OpClass,
        }
    }

    /// The channel number, corrected as if the support channel were set to
    /// primary: a lower support channel stands two below the primary, an
    /// upper one two above. (Historical encoders disagree on the sign of
    /// this correction; this follows the most recent one.)
    pub open spec fn spec_channel(self) -> int {
        match self {
            Channel::Simple { channel } => channel as int,
            Channel::Legacy { flags, channel } => match flags.support_channel {
                SupportChannel::Lower => channel - 2,
                SupportChannel::Upper => channel + 2,
                _ => channel as int,
            },
            Channel::OpClass { channel, .. } => channel as int,
        }
    }

    /// Returns the channel number independent of the encoding; for a legacy
    /// channel this corrects for the support-channel position.
    pub fn channel(&self) -> (r: u8)
        requires
            0 <= self.spec_channel() <= 255,
        ensures
            r == self.spec_channel(),
    {
        match self {
            Channel::Simple { channel } => *channel,
            Channel::Legacy { flags, channel } => match flags.support_channel {
                SupportChannel::Lower => *channel - 2,
                SupportChannel::Upper => *channel + 2,
                _ => *channel,
            },
            Channel::OpClass { channel, .. } => *channel,
        }
    }
}

} // verus!
