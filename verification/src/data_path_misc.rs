//! Auxiliary pieces of the data path state TLV: the statistics block, the
//! social channel map, and the unicast options word.
use vstd::prelude::*;

use crate::bytes::{flag16, flag16_val, flag32, flag32_val, read_u32_le, u32_le, u32_le_bytes, write_u32_le};
use crate::parser::ParserError;

verus! {

/// The statistics block of the data path state: three little-endian 32-bit
/// counters.
#[derive(Debug, Clone, Copy, PartialEq, Eq, Structural, Default)]
pub struct DataPathStats {
    pub msec_since_activation: u32,
    pub aw_seq_counter: u32,
    pub pay_update_coutner: u32,
}

impl DataPathStats {
    /// Parses the twelve bytes at `at`.
    pub open spec fn spec_parse_at(b: Seq<u8>, at: int) -> DataPathStats
        recommends
            0 <= at,
            at + 12 <= b.len(),
    {
        DataPathStats {
            msec_since_activation: u32_le(b[at], b[at + 1], b[at + 2], b[at + 3]),
            aw_seq_counter: u32_le(b[at + 4], b[at + 5], b[at + 6], b[at + 7]),
            pay_update_coutner: u32_le(b[at + 8], b[at + 9], b[at + 10], b[at + 11]),
        }
    }

    /// The twelve bytes of the block.
    pub open spec fn spec_serial(self) -> Seq<u8> {
        u32_le_bytes(self.msec_since_activation) + u32_le_bytes(self.aw_seq_counter)
            + u32_le_bytes(self.pay_update_coutner)
    }

    /// Reads the block at `at`.
    pub fn read_at(b: &[u8], at: usize) -> (r: DataPathStats)
        requires
            at + 12 <= b@.len(),
        ensures
            r == Self::spec_parse_at(b@, at as int),
    {
        assert(at + 12 <= b.len());
        DataPathStats {
            msec_since_activation: read_u32_le(b, at),
            aw_seq_counter: read_u32_le(b, at + 4),
            pay_update_coutner: read_u32_le(b, at + 8),
        }
    }

    /// Appends the twelve bytes of the block.
    pub fn write_to(&self, out: &mut Vec<u8>)
        ensures
            final(out)@ == old(out)@ + self.spec_serial(),
    {
        write_u32_le(out, self.msec_since_activation);
        write_u32_le(out, self.aw_seq_counter);
        write_u32_le(out, self.pay_update_coutner);
        assert(out@ =~= old(out)@ + self.spec_serial());
    }
}

/// A serialized statistics block reads back to itself.
pub proof fn lemma_stats_round_trip(v: DataPathStats, b: Seq<u8>, at: int)
    requires
        0 <= at,
        at + 12 <= b.len(),
        b.subrange(at, at + 12) == v.spec_serial(),
    ensures
        DataPathStats::spec_parse_at(b, at) == v,
{
    crate::bytes::lemma_u32_le_round_trip(v.msec_since_activation);
    crate::bytes::lemma_u32_le_round_trip(v.aw_seq_counter);
    crate::bytes::lemma_u32_le_round_trip(v.pay_update_coutner);
    assert forall|i: int| 0 <= i < 12 implies b[at + i] == v.spec_serial()[i] by {
        assert(b.subrange(at, at + 12)[i] == b[at + i]);
    }
    let m = crate::bytes::u32_le_bytes(v.msec_since_activation);
    let a = crate::bytes::u32_le_bytes(v.aw_seq_counter);
    let p = crate::bytes::u32_le_bytes(v.pay_update_coutner);
    assert(v.spec_serial()[0] == m[0] && v.spec_serial()[1] == m[1] && v.spec_serial()[2] == m[2]
        && v.spec_serial()[3] == m[3]);
    assert(v.spec_serial()[4] == a[0] && v.spec_serial()[5] == a[1] && v.spec_serial()[6] == a[2]
        && v.spec_serial()[7] == a[3]);
    assert(v.spec_serial()[8] == p[0] && v.spec_serial()[9] == p[1] && v.spec_serial()[10] == p[2]
        && v.spec_serial()[11] == p[3]);
}

/// The social channel map: which of the three social channels are marked.
#[derive(Debug, Clone, Copy, PartialEq, Eq, Structural, Default)]
pub struct ChannelMap {
    /// Bit 0.
    pub channel_6: bool,
    /// Bit 1.
    pub channel_44: bool,
    /// Bit 2.
    pub channel_149: bool,
}

impl ChannelMap {
    /// The channels marked in the given word; the upper bits are ignored.
    pub open spec fn spec_from_bits(x: u16) -> ChannelMap {
        ChannelMap {
            channel_6: (x >> 0) & 1 == 1,
            channel_44: (x >> 1) & 1 == 1,
            channel_149: (x >> 2) & 1 == 1,
        }
    }

    /// The word marking these channels.
    pub open spec fn spec_into_bits(self) -> u16 {
        flag16(self.channel_6, 1) | flag16(self.channel_44, 2) | flag16(self.channel_149, 4)
    }

    /// Unpacks a channel map word.
    pub fn from_bits(x: u16) -> (r: ChannelMap)
        ensures
            r == Self::spec_from_bits(x),
    {
        ChannelMap {
            channel_6: (x >> 0u16) & 1 == 1,
            channel_44: (x >> 1u16) & 1 == 1,
            channel_149: (x >> 2u16) & 1 == 1,
        }
    }

    /// Packs the channel map into its word.
    pub fn into_bits(self) -> (r: u16)
        ensures
            r == self.spec_into_bits(),
    {
        flag16_val(self.channel_6, 1) | flag16_val(self.channel_44, 2) | flag16_val(
            self.channel_149,
            4,
        )
    }
}

/// The channel field of the data path state: either a single channel or a
/// channel map, told apart by the lowest bit of the word.
#[derive(Debug, Clone, Copy, PartialEq, Eq, Structural)]
pub enum DataPathChannel {
    SingleChannel { channel: u8 },
    ChannelMap(ChannelMap),
}

impl DataPathChannel {
    /// The channel denoted by a wire word: a map when the lowest bit is
    /// set, a single channel otherwise.
    pub open spec fn spec_from_u16(value: u16) -> DataPathChannel {
        if (value >> 0) & 1 == 1 {
            DataPathChannel::ChannelMap(ChannelMap::spec_from_bits(value))
        } else {
            DataPathChannel::SingleChannel { channel: value as u8 }
        }
    }

    /// The wire word of this channel.
    pub open spec fn spec_as_u16(self) -> u16 {
        match self {
            DataPathChannel::SingleChannel { channel } => channel as u16,
            DataPathChannel::ChannelMap(map) => map.spec_into_bits(),
        }
    }

    /// The channel survives its wire word.
    pub open spec fn wf(self) -> bool {
        Self::spec_from_u16(self.spec_as_u16()) == self
    }

    /// Reads a channel from its wire word.
    pub fn from_u16(value: u16) -> (r: DataPathChannel)
        ensures
            r == Self::spec_from_u16(value),
    {
        if (value >> 0u16) & 1 == 1 {
            DataPathChannel::ChannelMap(ChannelMap::from_bits(value))
        } else {
            DataPathChannel::SingleChannel { channel: value as u8 }
        }
    }

    /// Writes the channel as its wire word.
    pub fn as_u16(&self) -> (r: u16)
        ensures
            r == self.spec_as_u16(),
    {
        match *self {
            DataPathChannel::SingleChannel { channel } => channel as u16,
            DataPathChannel::ChannelMap(map) => map.into_bits(),
        }
    }
}

/// The unicast options word: commands a peer sends another peer directly.
#[derive(Debug, Clone, Copy, PartialEq, Eq, Structural, Default)]
pub struct UnicastOptions {
    /// Bit 1.
    pub start_airplay: bool,
    /// Bit 3.
    pub cache_request: bool,
    /// Bit 5.
    pub jumpstart_dfs_proxy: bool,
    /// Bit 6.
    pub airplay_on_dfs_channel: bool,
    /// Bit 9.
    pub start_sidecar: bool,
    /// Bit 10.
    pub sidecar_bg_request: bool,
    /// Bit 11.
    pub sidecar_fg_request: bool,
    /// Bit 12.
    pub stop_sidecar: bool,
    /// Bit 13.
    pub start_multi_peer_steering: bool,
    /// Bit 14.
    pub start_real_time_mode: bool,
    /// Bit 15.
    pub stop_real_time_mode: bool,
    /// Bit 16.
    pub start_airplay_recovery: bool,
    /// Bit 17.
    pub start_ht_mode: bool,
    /// Bit 18.
    pub stop_ht_mode: bool,
    /// Bit 19.
    pub stop_airplay: bool,
    /// Bit 20.
    pub failed_multi_peer_steering: bool,
    /// Bits 21 through 23.
    pub unknown: u8,
    /// Bit 24.
    pub start_rtg_ensemble: bool,
    /// Bit 25.
    pub stop_rtg_ensemble: bool,
    /// Bit 26.
    pub start_airplay_in_rtg_mode: bool,
    /// Bit 27.
    pub stop_airplay_in_rtg_mode: bool,
    /// Bit 28.
    pub start_sidecar_in_rtg_mode: bool,
    /// Bit 29.
    pub stop_sidecar_in_rtg_mode: bool,
    /// Bit 30.
    pub start_remote_camera: bool,
    /// Bit 31.
    pub stop_remote_camera: bool,
}

impl UnicastOptions {
    /// The options packed in the given word; the uncovered bits are
    /// ignored.
    pub open spec fn spec_from_bits(x: u32) -> UnicastOptions {
        UnicastOptions {
            start_airplay: x & 0x2u32 == 0x2,
            cache_request: x & 0x8u32 == 0x8,
            jumpstart_dfs_proxy: x & 0x20u32 == 0x20,
            airplay_on_dfs_channel: x & 0x40u32 == 0x40,
            start_sidecar: x & 0x200u32 == 0x200,
            sidecar_bg_request: x & 0x400u32 == 0x400,
            sidecar_fg_request: x & 0x800u32 == 0x800,
            stop_sidecar: x & 0x1000u32 == 0x1000,
            start_multi_peer_steering: x & 0x2000u32 == 0x2000,
            start_real_time_mode: x & 0x4000u32 == 0x4000,
            stop_real_time_mode: x & 0x8000u32 == 0x8000,
            start_airplay_recovery: x & 0x10000u32 == 0x10000,
            start_ht_mode: x & 0x20000u32 == 0x20000,
            stop_ht_mode: x & 0x40000u32 == 0x40000,
            stop_airplay: x & 0x80000u32 == 0x80000,
            failed_multi_peer_steering: x & 0x100000u32 == 0x100000,
            unknown: ((x >> 21) & 7) as u8,
            start_rtg_ensemble: x & 0x1000000u32 == 0x1000000,
            stop_rtg_ensemble: x & 0x2000000u32 == 0x2000000,
            start_airplay_in_rtg_mode: x & 0x4000000u32 == 0x4000000,
            stop_airplay_in_rtg_mode: x & 0x8000000u32 == 0x8000000,
            start_sidecar_in_rtg_mode: x & 0x10000000u32 == 0x10000000,
            stop_sidecar_in_rtg_mode: x & 0x20000000u32 == 0x20000000,
            start_remote_camera: x & 0x40000000u32 == 0x40000000,
            stop_remote_camera: x & 0x80000000u32 == 0x80000000,
        }
    }

    /// The low half of the packed word: the options at bits 1 through 20.
    pub open spec fn spec_into_bits_lo(self) -> u32 {
        flag32(self.start_airplay, 0x2) | flag32(self.cache_request, 0x8) | flag32(
            self.jumpstart_dfs_proxy,
            0x20,
        ) | flag32(self.airplay_on_dfs_channel, 0x40) | flag32(self.start_sidecar, 0x200) | flag32(
            self.sidecar_bg_request,
            0x400,
        ) | flag32(self.sidecar_fg_request, 0x800) | flag32(self.stop_sidecar, 0x1000) | flag32(
            self.start_multi_peer_steering,
            0x2000,
        ) | flag32(self.start_real_time_mode, 0x4000) | flag32(self.stop_real_time_mode, 0x8000)
            | flag32(self.start_airplay_recovery, 0x10000) | flag32(self.start_ht_mode, 0x20000)
            | flag32(self.stop_ht_mode, 0x40000) | flag32(self.stop_airplay, 0x80000) | flag32(
            self.failed_multi_peer_steering,
            0x100000,
        )
    }

    /// The high half of the packed word: the unknown bits and the options
    /// at bits 24 through 31.
    pub open spec fn spec_into_bits_hi(self) -> u32 {
        (((self.unknown & 7) as u32) << 21) | flag32(self.start_rtg_ensemble, 0x1000000) | flag32(
            self.stop_rtg_ensemble,
            0x2000000,
        ) | flag32(self.start_airplay_in_rtg_mode, 0x4000000) | flag32(
            self.stop_airplay_in_rtg_mode,
            0x8000000,
        ) | flag32(self.start_sidecar_in_rtg_mode, 0x10000000) | flag32(
            self.stop_sidecar_in_rtg_mode,
            0x20000000,
        ) | flag32(self.start_remote_camera, 0x40000000) | flag32(
            self.stop_remote_camera,
            0x80000000,
        )
    }

    /// The word packing these options.
    pub open spec fn spec_into_bits(self) -> u32 {
        self.spec_into_bits_lo() | self.spec_into_bits_hi()
    }

    /// The options survive packing.
    pub open spec fn wf(self) -> bool {
        Self::spec_from_bits(self.spec_into_bits()) == self
    }

    /// Unpacks an options word.
    #[verifier::rlimit(60)]
    pub fn from_bits(x: u32) -> (r: UnicastOptions)
        ensures
            r == Self::spec_from_bits(x),
    {
        UnicastOptions {
            start_airplay: x & 0x2u32 == 0x2,
            cache_request: x & 0x8u32 == 0x8,
            jumpstart_dfs_proxy: x & 0x20u32 == 0x20,
            airplay_on_dfs_channel: x & 0x40u32 == 0x40,
            start_sidecar: x & 0x200u32 == 0x200,
            sidecar_bg_request: x & 0x400u32 == 0x400,
            sidecar_fg_request: x & 0x800u32 == 0x800,
            stop_sidecar: x & 0x1000u32 == 0x1000,
            start_multi_peer_steering: x & 0x2000u32 == 0x2000,
            start_real_time_mode: x & 0x4000u32 == 0x4000,
            stop_real_time_mode: x & 0x8000u32 == 0x8000,
            start_airplay_recovery: x & 0x10000u32 == 0x10000,
            start_ht_mode: x & 0x20000u32 == 0x20000,
            stop_ht_mode: x & 0x40000u32 == 0x40000,
            stop_airplay: x & 0x80000u32 == 0x80000,
            failed_multi_peer_steering: x & 0x100000u32 == 0x100000,
            unknown: ((x >> 21u32) & 7) as u8,
            start_rtg_ensemble: x & 0x1000000u32 == 0x1000000,
            stop_rtg_ensemble: x & 0x2000000u32 == 0x2000000,
            start_airplay_in_rtg_mode: x & 0x4000000u32 == 0x4000000,
            stop_airplay_in_rtg_mode: x & 0x8000000u32 == 0x8000000,
            start_sidecar_in_rtg_mode: x & 0x10000000u32 == 0x10000000,
            stop_sidecar_in_rtg_mode: x & 0x20000000u32 == 0x20000000,
            start_remote_camera: x & 0x40000000u32 == 0x40000000,
            stop_remote_camera: x & 0x80000000u32 == 0x80000000,
        }
    }

    /// Packs the low half of the word.
    fn into_bits_lo(self) -> (r: u32)
        ensures
            r == self.spec_into_bits_lo(),
    {
        flag32_val(self.start_airplay, 0x2) | flag32_val(self.cache_request, 0x8) | flag32_val(
            self.jumpstart_dfs_proxy,
            0x20,
        ) | flag32_val(self.airplay_on_dfs_channel, 0x40) | flag32_val(self.start_sidecar, 0x200)
            | flag32_val(self.sidecar_bg_request, 0x400) | flag32_val(
            self.sidecar_fg_request,
            0x800,
        ) | flag32_val(self.stop_sidecar, 0x1000) | flag32_val(
            self.start_multi_peer_steering,
            0x2000,
        ) | flag32_val(self.start_real_time_mode, 0x4000) | flag32_val(
            self.stop_real_time_mode,
            0x8000,
        ) | flag32_val(self.start_airplay_recovery, 0x10000) | flag32_val(
            self.start_ht_mode,
            0x20000,
        ) | flag32_val(self.stop_ht_mode, 0x40000) | flag32_val(self.stop_airplay, 0x80000)
            | flag32_val(self.failed_multi_peer_steering, 0x100000)
    }

    /// Packs the high half of the word.
    fn into_bits_hi(self) -> (r: u32)
        ensures
            r == self.spec_into_bits_hi(),
    {
        (((self.unknown & 7) as u32) << 21u32) | flag32_val(self.start_rtg_ensemble, 0x1000000)
            | flag32_val(self.stop_rtg_ensemble, 0x2000000) | flag32_val(
            self.start_airplay_in_rtg_mode,
            0x4000000,
        ) | flag32_val(self.stop_airplay_in_rtg_mode, 0x8000000) | flag32_val(
            self.start_sidecar_in_rtg_mode,
            0x10000000,
        ) | flag32_val(self.stop_sidecar_in_rtg_mode, 0x20000000) | flag32_val(
            self.start_remote_camera,
            0x40000000,
        ) | flag32_val(self.stop_remote_camera, 0x80000000)
    }

    /// Packs the options into their word.
    pub fn into_bits(self) -> (r: u32)
        ensures
            r == self.spec_into_bits(),
    {
        self.into_bits_lo() | self.into_bits_hi()
    }
}

} // verus!
