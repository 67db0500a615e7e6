//! The two flag words of the data path state TLV. Most of their bits gate
//! the presence of an optional field that follows.
use vstd::prelude::*;

use crate::bytes::{flag16, flag16_val};

verus! {

/// The base 16-bit flag word of the data path state.
#[derive(Debug, Clone, Copy, PartialEq, Eq, Structural, Default)]
pub struct DataPathFlags {
    /// Bit 0; gates the infrastructure BSSID and channel field.
    pub infra_bssid_channel_present: bool,
    /// Bit 1; gates the infrastructure address field.
    pub infra_address_present: bool,
    /// Bit 2; gates the AWDL address field.
    pub awdl_address_present: bool,
    /// Bit 3.
    pub rsdb_support: bool,
    /// Bit 4.
    pub is_umi: bool,
    /// Bit 5.
    pub dualband_support: bool,
    /// Bit 6.
    pub airplay_sink: bool,
    /// Bit 7.
    pub follow_channel_sequence: bool,
    /// Bit 8; gates the country code field.
    pub country_code_present: bool,
    /// Bit 9; gates the channel map field.
    pub channel_map_present: bool,
    /// Bit 10.
    pub airplay_solo_mode_support: bool,
    /// Bit 11.
    pub umi_support: bool,
    /// Bit 12; gates the unicast options field.
    pub unicast_options_present: bool,
    /// Bit 13.
    pub is_realtime: bool,
    /// Bit 14.
    pub rangeable: bool,
    /// Bit 15; gates the extended flag word.
    pub extended_flags: bool,
}

impl DataPathFlags {
    /// The flags packed in the given word.
    pub open spec fn spec_from_bits(x: u16) -> DataPathFlags {
        DataPathFlags {
            infra_bssid_channel_present: (x >> 0) & 1 == 1,
            infra_address_present: (x >> 1) & 1 == 1,
            awdl_address_present: (x >> 2) & 1 == 1,
            rsdb_support: (x >> 3) & 1 == 1,
            is_umi: (x >> 4) & 1 == 1,
            dualband_support: (x >> 5) & 1 == 1,
            airplay_sink: (x >> 6) & 1 == 1,
            follow_channel_sequence: (x >> 7) & 1 == 1,
            country_code_present: (x >> 8) & 1 == 1,
            channel_map_present: (x >> 9) & 1 == 1,
            airplay_solo_mode_support: (x >> 10) & 1 == 1,
            umi_support: (x >> 11) & 1 == 1,
            unicast_options_present: (x >> 12) & 1 == 1,
            is_realtime: (x >> 13) & 1 == 1,
            rangeable: (x >> 14) & 1 == 1,
            extended_flags: (x >> 15) & 1 == 1,
        }
    }

    /// The word packing these flags.
    pub open spec fn spec_into_bits(self) -> u16 {
        flag16(self.infra_bssid_channel_present, 1) | flag16(self.infra_address_present, 2)
            | flag16(self.awdl_address_present, 4) | flag16(self.rsdb_support, 8) | flag16(
            self.is_umi,
            0x10,
        ) | flag16(self.dualband_support, 0x20) | flag16(self.airplay_sink, 0x40) | flag16(
            self.follow_channel_sequence,
            0x80,
        ) | flag16(self.country_code_present, 0x100) | flag16(self.channel_map_present, 0x200)
            | flag16(self.airplay_solo_mode_support, 0x400) | flag16(self.umi_support, 0x800)
            | flag16(self.unicast_options_present, 0x1000) | flag16(self.is_realtime, 0x2000)
            | flag16(self.rangeable, 0x4000) | flag16(self.extended_flags, 0x8000)
    }

    /// The flags survive packing.
    pub open spec fn wf(self) -> bool {
        Self::spec_from_bits(self.spec_into_bits()) == self
    }

    /// Unpacks a flag word.
    pub fn from_bits(x: u16) -> (r: DataPathFlags)
        ensures
            r == Self::spec_from_bits(x),
    {
        DataPathFlags {
            infra_bssid_channel_present: (x >> 0u16) & 1 == 1,
            infra_address_present: (x >> 1u16) & 1 == 1,
            awdl_address_present: (x >> 2u16) & 1 == 1,
            rsdb_support: (x >> 3u16) & 1 == 1,
            is_umi: (x >> 4u16) & 1 == 1,
            dualband_support: (x >> 5u16) & 1 == 1,
            airplay_sink: (x >> 6u16) & 1 == 1,
            follow_channel_sequence: (x >> 7u16) & 1 == 1,
            country_code_present: (x >> 8u16) & 1 == 1,
            channel_map_present: (x >> 9u16) & 1 == 1,
            airplay_solo_mode_support: (x >> 10u16) & 1 == 1,
            umi_support: (x >> 11u16) & 1 == 1,
            unicast_options_present: (x >> 12u16) & 1 == 1,
            is_realtime: (x >> 13u16) & 1 == 1,
            rangeable: (x >> 14u16) & 1 == 1,
            extended_flags: (x >> 15u16) & 1 == 1,
        }
    }

    /// Packs the flags into their word.
    pub fn into_bits(self) -> (r: u16)
        ensures
            r == self.spec_into_bits(),
    {
        flag16_val(self.infra_bssid_channel_present, 1) | flag16_val(self.infra_address_present, 2)
            | flag16_val(self.awdl_address_present, 4) | flag16_val(self.rsdb_support, 8)
            | flag16_val(self.is_umi, 0x10) | flag16_val(self.dualband_support, 0x20) | flag16_val(
            self.airplay_sink,
            0x40,
        ) | flag16_val(self.follow_channel_sequence, 0x80) | flag16_val(
            self.country_code_present,
            0x100,
        ) | flag16_val(self.channel_map_present, 0x200) | flag16_val(
            self.airplay_solo_mode_support,
            0x400,
        ) | flag16_val(self.umi_support, 0x800) | flag16_val(self.unicast_options_present, 0x1000)
            | flag16_val(self.is_realtime, 0x2000) | flag16_val(self.rangeable, 0x4000)
            | flag16_val(self.extended_flags, 0x8000)
    }
}

/// The extended 16-bit flag word, present when the top bit of the base word
/// is set; itself a second flag-gated optional-field region.
#[derive(Debug, Clone, Copy, PartialEq, Eq, Structural, Default)]
pub struct DataPathExtendedFlags {
    /// Bit 0; gates the log trigger id field.
    pub log_trigger_id_present: bool,
    /// Bit 1.
    pub ranging_discovery_supported: bool,
    /// Bit 2; gates the RLFC field.
    pub rlfc_present: bool,
    /// Bit 3.
    pub is_social_channel_map_supported: bool,
    /// Bit 4.
    pub dynamic_sdb_active: bool,
    /// Bit 5; gates the statistics block.
    pub stats_present: bool,
    /// Bit 6.
    pub dfs_proxy_support: bool,
    /// Bit 8.
    pub high_efficiency_support: bool,
    /// Bit 9.
    pub is_sidekick_hub: bool,
    /// Bit 10.
    pub fast_discovery_active: bool,
    /// Bit 11.
    pub wifi_six_e_support: bool,
    /// Bit 12.
    pub ultra_low_latency_infra_support: bool,
    /// Bit 13.
    pub pro_mode_active: bool,
    /// Bits 14 and 15.
    pub unknown: u8,
}

impl DataPathExtendedFlags {
    /// The flags packed in the given word; bit 7 is ignored.
    pub open spec fn spec_from_bits(x: u16) -> DataPathExtendedFlags {
        DataPathExtendedFlags {
            log_trigger_id_present: (x >> 0) & 1 == 1,
            ranging_discovery_supported: (x >> 1) & 1 == 1,
            rlfc_present: (x >> 2) & 1 == 1,
            is_social_channel_map_supported: (x >> 3) & 1 == 1,
            dynamic_sdb_active: (x >> 4) & 1 == 1,
            stats_present: (x >> 5) & 1 == 1,
            dfs_proxy_support: (x >> 6) & 1 == 1,
            high_efficiency_support: (x >> 8) & 1 == 1,
            is_sidekick_hub: (x >> 9) & 1 == 1,
            fast_discovery_active: (x >> 10) & 1 == 1,
            wifi_six_e_support: (x >> 11) & 1 == 1,
            ultra_low_latency_infra_support: (x >> 12) & 1 == 1,
            pro_mode_active: (x >> 13) & 1 == 1,
            unknown: ((x >> 14) & 3) as u8,
        }
    }

    /// The word packing these flags.
    pub open spec fn spec_into_bits(self) -> u16 {
        flag16(self.log_trigger_id_present, 1) | flag16(self.ranging_discovery_supported, 2)
            | flag16(self.rlfc_present, 4) | flag16(self.is_social_channel_map_supported, 8)
            | flag16(self.dynamic_sdb_active, 0x10) | flag16(self.stats_present, 0x20) | flag16(
            self.dfs_proxy_support,
            0x40,
        ) | flag16(self.high_efficiency_support, 0x100) | flag16(self.is_sidekick_hub, 0x200)
            | flag16(self.fast_discovery_active, 0x400) | flag16(self.wifi_six_e_support, 0x800)
            | flag16(self.ultra_low_latency_infra_support, 0x1000) | flag16(
            self.pro_mode_active,
            0x2000,
        ) | (((self.unknown & 3) as u16) << 14)
    }

    /// The flags survive packing.
    pub open spec fn wf(self) -> bool {
        Self::spec_from_bits(self.spec_into_bits()) == self
    }

    /// Unpacks an extended flag word.
    pub fn from_bits(x: u16) -> (r: DataPathExtendedFlags)
        ensures
            r == Self::spec_from_bits(x),
    {
        DataPathExtendedFlags {
            log_trigger_id_present: (x >> 0u16) & 1 == 1,
            ranging_discovery_supported: (x >> 1u16) & 1 == 1,
            rlfc_present: (x >> 2u16) & 1 == 1,
            is_social_channel_map_supported: (x >> 3u16) & 1 == 1,
            dynamic_sdb_active: (x >> 4u16) & 1 == 1,
            stats_present: (x >> 5u16) & 1 == 1,
            dfs_proxy_support: (x >> 6u16) & 1 == 1,
            high_efficiency_support: (x >> 8u16) & 1 == 1,
            is_sidekick_hub: (x >> 9u16) & 1 == 1,
            fast_discovery_active: (x >> 10u16) & 1 == 1,
            wifi_six_e_support: (x >> 11u16) & 1 == 1,
            ultra_low_latency_infra_support: (x >> 12u16) & 1 == 1,
            pro_mode_active: (x >> 13u16) & 1 == 1,
            unknown: ((x >> 14u16) & 3) as u8,
        }
    }

    /// Packs the flags into their word.
    pub fn into_bits(self) -> (r: u16)
        ensures
            r == self.spec_into_bits(),
    {
        flag16_val(self.log_trigger_id_present, 1) | flag16_val(
            self.ranging_discovery_supported,
            2,
        ) | flag16_val(self.rlfc_present, 4) | flag16_val(self.is_social_channel_map_supported, 8)
            | flag16_val(self.dynamic_sdb_active, 0x10) | flag16_val(self.stats_present, 0x20)
            | flag16_val(self.dfs_proxy_support, 0x40) | flag16_val(
            self.high_efficiency_support,
            0x100,
        ) | flag16_val(self.is_sidekick_hub, 0x200) | flag16_val(self.fast_discovery_active, 0x400)
            | flag16_val(self.wifi_six_e_support, 0x800) | flag16_val(
            self.ultra_low_latency_infra_support,
            0x1000,
        ) | flag16_val(self.pro_mode_active, 0x2000) | (((self.unknown & 3) as u16) << 14u16)
    }
}

} // verus!
