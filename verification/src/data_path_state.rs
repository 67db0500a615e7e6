//! The data path state TLV: a 16-bit flag word in which most bits gate the
//! presence of an optional field, read strictly in flag-bit order, with a
//! second flag-gated region behind the extended-flags bit.
use vstd::prelude::*;

use crate::bytes::{read_u16_le, read_u32_le, u16_le, u16_le_bytes, u32_le, u32_le_bytes, write_u16_le, write_u32_le};
use crate::data_path_flags::{DataPathExtendedFlags, DataPathFlags};
use crate::data_path_misc::{DataPathChannel, DataPathStats};
use crate::election_parameters::{mac_at, read_mac, write_mac};
use crate::parser::ParserError;

verus! {

/// The data path state of a peer.
#[derive(Debug, Clone, Copy, PartialEq, Eq, Default)]
pub struct DataPathStateTLV {
    /// The base flag word; its presence bits are derived from the optional
    /// fields on encode.
    pub flags: DataPathFlags,
    /// The country code: two letters and a zero byte on the wire.
    pub country_code: Option<[u8; 2]>,
    /// The single channel or channel map.
    pub channel_map: Option<DataPathChannel>,
    /// The BSSID of the infrastructure network and its channel.
    pub infra_bssid_channel: Option<([u8; 6], u16)>,
    /// The MAC address of the peer on the infrastructure network.
    pub infra_address: Option<[u8; 6]>,
    /// The AWDL interface address of the peer.
    pub awdl_address: Option<[u8; 6]>,
    /// The unicast options, a length-prefixed block of four bytes.
    pub unicast_options: Option<crate::data_path_misc::UnicastOptions>,
    /// Four further unicast option bytes when the block is eight bytes long.
    pub unicast_options_ext: Option<u32>,
    /// The extended flag word.
    pub extended_flags: Option<DataPathExtendedFlags>,
    /// The logging trigger id.
    pub log_trigger_id: Option<u16>,
    /// The RLFC counter.
    pub rlfc: Option<u32>,
    /// The statistics block.
    pub stats: Option<DataPathStats>,
}

impl DataPathStateTLV {
    /// The base flag word that is actually written: the stored word with
    /// every presence bit derived from whether its field is there.
    pub open spec fn derived_flags(self) -> DataPathFlags {
        DataPathFlags {
            infra_bssid_channel_present: self.infra_bssid_channel is Some,
            infra_address_present: self.infra_address is Some,
            awdl_address_present: self.awdl_address is Some,
            country_code_present: self.country_code is Some,
            channel_map_present: self.channel_map is Some,
            unicast_options_present: self.unicast_options is Some
                || self.unicast_options_ext is Some,
            extended_flags: self.derived_extended_flags() is Some,
            ..self.flags
        }
    }

    /// The extended flag word that goes on the wire: present when stored
    /// or when one of its gated fields is, with each gate bit set exactly
    /// when its field is.
    pub open spec fn derived_extended_flags(self) -> Option<DataPathExtendedFlags> {
        if self.log_trigger_id is Some || self.rlfc is Some || self.stats is Some {
            let base = if self.extended_flags is Some {
                self.extended_flags->0
            } else {
                DataPathExtendedFlags {
                    log_trigger_id_present: false,
                    ranging_discovery_supported: false,
                    rlfc_present: false,
                    is_social_channel_map_supported: false,
                    dynamic_sdb_active: false,
                    stats_present: false,
                    dfs_proxy_support: false,
                    high_efficiency_support: false,
                    is_sidekick_hub: false,
                    fast_discovery_active: false,
                    wifi_six_e_support: false,
                    ultra_low_latency_infra_support: false,
                    pro_mode_active: false,
                    unknown: 0,
                }
            };
            Some(
                DataPathExtendedFlags {
                    log_trigger_id_present: self.log_trigger_id is Some,
                    rlfc_present: self.rlfc is Some,
                    stats_present: self.stats is Some,
                    ..base
                },
            )
        } else {
            self.extended_flags
        }
    }

    /// The bytes of the optional unicast options block, length prefix
    /// included.
    pub open spec fn unicast_serial(self) -> Seq<u8> {
        match (self.unicast_options, self.unicast_options_ext) {
            (Some(uo), None) => u16_le_bytes(4) + u32_le_bytes(uo.spec_into_bits()),
            (Some(uo), Some(ext)) => u16_le_bytes(8) + u32_le_bytes(uo.spec_into_bits())
                + u32_le_bytes(ext),
            (None, Some(ext)) => u16_le_bytes(8) + u32_le_bytes(0) + u32_le_bytes(ext),
            (None, None) => Seq::empty(),
        }
    }

    /// The bytes of the extended region: the extended flag word and its
    /// gated fields, in gate-bit order.
    pub open spec fn extended_serial(self) -> Seq<u8> {
        match self.derived_extended_flags() {
            Some(e) => u16_le_bytes(e.spec_into_bits()) + (match self.log_trigger_id {
                Some(lt) => u16_le_bytes(lt),
                None => Seq::empty(),
            }) + (match self.rlfc {
                Some(r) => u32_le_bytes(r),
                None => Seq::empty(),
            }) + (match self.stats {
                Some(st) => st.spec_serial(),
                None => Seq::empty(),
            }),
            None => Seq::empty(),
        }
    }

    /// The payload bytes: the derived flag word, then every present field
    /// in flag-bit order — country code, channel map, infrastructure BSSID
    /// and channel, infrastructure address, AWDL address, unicast options,
    /// and the extended region.
    pub open spec fn spec_serial(self) -> Seq<u8> {
        u16_le_bytes(self.derived_flags().spec_into_bits()) + (match self.country_code {
            Some(cc) => seq![cc[0], cc[1], 0u8],
            None => Seq::empty(),
        }) + (match self.channel_map {
            Some(cm) => u16_le_bytes(cm.spec_as_u16()),
            None => Seq::empty(),
        }) + (match self.infra_bssid_channel {
            Some(bc) => bc.0@ + u16_le_bytes(bc.1),
            None => Seq::empty(),
        }) + (match self.infra_address {
            Some(a) => a@,
            None => Seq::empty(),
        }) + (match self.awdl_address {
            Some(a) => a@,
            None => Seq::empty(),
        }) + self.unicast_serial() + self.extended_serial()
    }

    /// Flags and fields agree, and every nested word survives its packing:
    /// exactly the values whose encoding decodes back to themselves.
    pub open spec fn wf(self) -> bool {
        &&& self.flags.wf()
        &&& self.flags.country_code_present == self.country_code is Some
        &&& self.flags.channel_map_present == self.channel_map is Some
        &&& self.flags.infra_bssid_channel_present == self.infra_bssid_channel is Some
        &&& self.flags.infra_address_present == self.infra_address is Some
        &&& self.flags.awdl_address_present == self.awdl_address is Some
        &&& self.flags.unicast_options_present == self.unicast_options is Some
        &&& self.flags.extended_flags == self.extended_flags is Some
        &&& (self.unicast_options_ext is Some ==> self.unicast_options is Some)
        &&& (self.unicast_options is Some ==> (self.unicast_options->0).wf())
        &&& (self.channel_map is Some ==> (self.channel_map->0).wf())
        &&& match self.extended_flags {
            None => self.log_trigger_id is None && self.rlfc is None && self.stats is None,
            Some(e) => {
                &&& e.wf()
                &&& e.log_trigger_id_present == self.log_trigger_id is Some
                &&& e.rlfc_present == self.rlfc is Some
                &&& e.stats_present == self.stats is Some
            },
        }
    }
}

/// The base flag word of the payload.
pub open spec fn dps_flags(b: Seq<u8>) -> DataPathFlags {
    DataPathFlags::spec_from_bits(u16_le(b[0], b[1]))
}

/// The layout of the fixed-order optional fields before the unicast block:
/// the flag word and the offsets of the channel map, the infrastructure
/// BSSID, the infrastructure address, the AWDL address, and the unicast
/// block.
pub open spec fn dps_layout(b: Seq<u8>) -> (DataPathFlags, int, int, int, int, int) {
    let flags = dps_flags(b);
    let o_cm = 2 + if flags.country_code_present {
        3int
    } else {
        0int
    };
    let o_bc = o_cm + if flags.channel_map_present {
        2int
    } else {
        0int
    };
    let o_ia = o_bc + if flags.infra_bssid_channel_present {
        8int
    } else {
        0int
    };
    let o_aa = o_ia + if flags.infra_address_present {
        6int
    } else {
        0int
    };
    let o_uni = o_aa + if flags.awdl_address_present {
        6int
    } else {
        0int
    };
    (flags, o_cm, o_bc, o_ia, o_aa, o_uni)
}

/// Where the channel map field starts: after the flags and the optional
/// country code.
pub open spec fn dps_off_cm(b: Seq<u8>) -> int {
    dps_layout(b).1
}

/// Where the infrastructure BSSID field starts.
pub open spec fn dps_off_bssid(b: Seq<u8>) -> int {
    dps_layout(b).2
}

/// Where the infrastructure address field starts.
pub open spec fn dps_off_infra(b: Seq<u8>) -> int {
    dps_layout(b).3
}

/// Where the AWDL address field starts.
pub open spec fn dps_off_awdl(b: Seq<u8>) -> int {
    dps_layout(b).4
}

/// Where the unicast options block starts.
pub open spec fn dps_off_uni(b: Seq<u8>) -> int {
    dps_layout(b).5
}

/// The declared length of the unicast options block.
pub open spec fn dps_uni_len(b: Seq<u8>) -> int {
    u16_le(b[dps_off_uni(b)], b[dps_off_uni(b) + 1]) as int
}

/// The layout of the extended region: the offsets of the extended flag
/// word, the log trigger id, the RLFC field, and the statistics block,
/// together with the extended flag word itself.
pub open spec fn dps_ext_layout(b: Seq<u8>) -> (int, DataPathExtendedFlags, int, int, int) {
    let layout = dps_layout(b);
    let o_ext = layout.5 + if !layout.0.unicast_options_present {
        0int
    } else {
        2 + u16_le(b[layout.5], b[layout.5 + 1]) as int
    };
    let ext = DataPathExtendedFlags::spec_from_bits(u16_le(b[o_ext], b[o_ext + 1]));
    let o_log = o_ext + 2;
    let o_rlfc = o_log + if ext.log_trigger_id_present {
        2int
    } else {
        0int
    };
    let o_stats = o_rlfc + if ext.rlfc_present {
        4int
    } else {
        0int
    };
    (o_ext, ext, o_log, o_rlfc, o_stats)
}

/// Where the extended region starts.
pub open spec fn dps_off_ext(b: Seq<u8>) -> int {
    dps_ext_layout(b).0
}

/// The extended flag word of the payload.
pub open spec fn dps_ext(b: Seq<u8>) -> DataPathExtendedFlags {
    dps_ext_layout(b).1
}

/// Where the log trigger id field starts.
pub open spec fn dps_off_log(b: Seq<u8>) -> int {
    dps_ext_layout(b).2
}

/// Where the RLFC field starts.
pub open spec fn dps_off_rlfc(b: Seq<u8>) -> int {
    dps_ext_layout(b).3
}

/// Where the statistics block starts.
pub open spec fn dps_off_stats(b: Seq<u8>) -> int {
    dps_ext_layout(b).4
}

impl DataPathStateTLV {
    /// Parses a data path state payload, reading each optional field in
    /// flag-bit order. Trailing bytes are ignored.
    pub open spec fn spec_parse(b: Seq<u8>) -> Result<DataPathStateTLV, ParserError> {
        let flags = dps_flags(b);
        if b.len() < 2 {
            Err(ParserError::TooLittleData((2 - b.len()) as usize))
        } else if flags.country_code_present && b.len() < dps_off_cm(b) {
            Err(ParserError::TooLittleData((dps_off_cm(b) - b.len()) as usize))
        } else if flags.channel_map_present && b.len() < dps_off_bssid(b) {
            Err(ParserError::TooLittleData((dps_off_bssid(b) - b.len()) as usize))
        } else if flags.infra_bssid_channel_present && b.len() < dps_off_infra(b) {
            Err(ParserError::TooLittleData((dps_off_infra(b) - b.len()) as usize))
        } else if flags.infra_address_present && b.len() < dps_off_awdl(b) {
            Err(ParserError::TooLittleData((dps_off_awdl(b) - b.len()) as usize))
        } else if flags.awdl_address_present && b.len() < dps_off_uni(b) {
            Err(ParserError::TooLittleData((dps_off_uni(b) - b.len()) as usize))
        } else if flags.unicast_options_present && b.len() < dps_off_uni(b) + 2 {
            Err(ParserError::TooLittleData((dps_off_uni(b) + 2 - b.len()) as usize))
        } else if flags.unicast_options_present && dps_uni_len(b) != 4 && dps_uni_len(b) != 8 {
            Err(ParserError::ValueNotUnderstood)
        } else if flags.unicast_options_present && b.len() < dps_off_ext(b) {
            Err(ParserError::TooLittleData((dps_off_ext(b) - b.len()) as usize))
        } else if flags.extended_flags && b.len() < dps_off_ext(b) + 2 {
            Err(ParserError::TooLittleData((dps_off_ext(b) + 2 - b.len()) as usize))
        } else if flags.extended_flags && dps_ext(b).log_trigger_id_present && b.len() < dps_off_rlfc(b) {
            Err(ParserError::TooLittleData((dps_off_rlfc(b) - b.len()) as usize))
        } else if flags.extended_flags && dps_ext(b).rlfc_present && b.len() < dps_off_stats(b) {
            Err(ParserError::TooLittleData((dps_off_stats(b) - b.len()) as usize))
        } else if flags.extended_flags && dps_ext(b).stats_present && b.len() < dps_off_stats(b)
            + 12 {
            Err(ParserError::TooLittleData((dps_off_stats(b) + 12 - b.len()) as usize))
        } else {
            Ok(
                DataPathStateTLV {
                    flags,
                    country_code: if flags.country_code_present {
                        Some([b[2], b[3]])
                    } else {
                        None
                    },
                    channel_map: if flags.channel_map_present {
                        Some(
                            DataPathChannel::spec_from_u16(
                                u16_le(b[dps_off_cm(b)], b[dps_off_cm(b) + 1]),
                            ),
                        )
                    } else {
                        None
                    },
                    infra_bssid_channel: if flags.infra_bssid_channel_present {
                        Some(
                            (
                                mac_at(b, dps_off_bssid(b)),
                                u16_le(b[dps_off_bssid(b) + 6], b[dps_off_bssid(b) + 7]),
                            ),
                        )
                    } else {
                        None
                    },
                    infra_address: if flags.infra_address_present {
                        Some(mac_at(b, dps_off_infra(b)))
                    } else {
                        None
                    },
                    awdl_address: if flags.awdl_address_present {
                        Some(mac_at(b, dps_off_awdl(b)))
                    } else {
                        None
                    },
                    unicast_options: if flags.unicast_options_present {
                        Some(
                            crate::data_path_misc::UnicastOptions::spec_from_bits(
                                u32_le(
                                    b[dps_off_uni(b) + 2],
                                    b[dps_off_uni(b) + 3],
                                    b[dps_off_uni(b) + 4],
                                    b[dps_off_uni(b) + 5],
                                ),
                            ),
                        )
                    } else {
                        None
                    },
                    unicast_options_ext: if flags.unicast_options_present && dps_uni_len(b) == 8 {
                        Some(
                            u32_le(
                                b[dps_off_uni(b) + 6],
                                b[dps_off_uni(b) + 7],
                                b[dps_off_uni(b) + 8],
                                b[dps_off_uni(b) + 9],
                            ),
                        )
                    } else {
                        None
                    },
                    extended_flags: if flags.extended_flags {
                        Some(dps_ext(b))
                    } else {
                        None
                    },
                    log_trigger_id: if flags.extended_flags && dps_ext(b).log_trigger_id_present {
                        Some(u16_le(b[dps_off_log(b)], b[dps_off_log(b) + 1]))
                    } else {
                        None
                    },
                    rlfc: if flags.extended_flags && dps_ext(b).rlfc_present {
                        Some(
                            u32_le(
                                b[dps_off_rlfc(b)],
                                b[dps_off_rlfc(b) + 1],
                                b[dps_off_rlfc(b) + 2],
                                b[dps_off_rlfc(b) + 3],
                            ),
                        )
                    } else {
                        None
                    },
                    stats: if flags.extended_flags && dps_ext(b).stats_present {
                        Some(DataPathStats::spec_parse_at(b, dps_off_stats(b)))
                    } else {
                        None
                    },
                },
            )
        }
    }

    /// Decodes the payload of a data path state TLV.
    #[verifier::rlimit(100)]
    pub fn from_bytes(b: &[u8]) -> (r: Result<DataPathStateTLV, ParserError>)
        ensures
            r == Self::spec_parse(b@),
    {
        if b.len() < 2 {
            return Err(ParserError::TooLittleData(2 - b.len()));
        }
        let flags = DataPathFlags::from_bits(read_u16_le(b, 0));
        let mut off: usize = 2;
        let country_code: Option<[u8; 2]> = if flags.country_code_present {
            if b.len() < off + 3 {
                return Err(ParserError::TooLittleData(off + 3 - b.len()));
            }
            let cc: [u8; 2] = [b[2], b[3]];
            off = off + 3;
            Some(cc)
        } else {
            None
        };
        assert(off == dps_off_cm(b@));
        let channel_map: Option<DataPathChannel> = if flags.channel_map_present {
            if b.len() < off + 2 {
                return Err(ParserError::TooLittleData(off + 2 - b.len()));
            }
            let cm = DataPathChannel::from_u16(read_u16_le(b, off));
            off = off + 2;
            Some(cm)
        } else {
            None
        };
        assert(off == dps_off_bssid(b@));
        let infra_bssid_channel: Option<([u8; 6], u16)> = if flags.infra_bssid_channel_present {
            if b.len() < off + 8 {
                return Err(ParserError::TooLittleData(off + 8 - b.len()));
            }
            let mac = read_mac(b, off);
            let ch = read_u16_le(b, off + 6);
            off = off + 8;
            Some((mac, ch))
        } else {
            None
        };
        assert(off == dps_off_infra(b@));
        let infra_address: Option<[u8; 6]> = if flags.infra_address_present {
            if b.len() < off + 6 {
                return Err(ParserError::TooLittleData(off + 6 - b.len()));
            }
            let mac = read_mac(b, off);
            off = off + 6;
            Some(mac)
        } else {
            None
        };
        assert(off == dps_off_awdl(b@));
        let awdl_address: Option<[u8; 6]> = if flags.awdl_address_present {
            if b.len() < off + 6 {
                return Err(ParserError::TooLittleData(off + 6 - b.len()));
            }
            let mac = read_mac(b, off);
            off = off + 6;
            Some(mac)
        } else {
            None
        };
        assert(off == dps_off_uni(b@));
        let mut unicast_options: Option<crate::data_path_misc::UnicastOptions> = None;
        let mut unicast_options_ext: Option<u32> = None;
        if flags.unicast_options_present {
            if b.len() < off + 2 {
                return Err(ParserError::TooLittleData(off + 2 - b.len()));
            }
            let ulen = read_u16_le(b, off) as usize;
            if ulen != 4 && ulen != 8 {
                return Err(ParserError::ValueNotUnderstood);
            }
            if b.len() < off + 2 + ulen {
                return Err(ParserError::TooLittleData(off + 2 + ulen - b.len()));
            }
            unicast_options = Some(
                crate::data_path_misc::UnicastOptions::from_bits(read_u32_le(b, off + 2)),
            );
            if ulen == 8 {
                unicast_options_ext = Some(read_u32_le(b, off + 6));
            }
            off = off + 2 + ulen;
        }
        assert(off == dps_off_ext(b@));
        let mut extended_flags: Option<DataPathExtendedFlags> = None;
        let mut log_trigger_id: Option<u16> = None;
        let mut rlfc: Option<u32> = None;
        let mut stats: Option<DataPathStats> = None;
        if flags.extended_flags {
            if b.len() < off + 2 {
                return Err(ParserError::TooLittleData(off + 2 - b.len()));
            }
            let ext = DataPathExtendedFlags::from_bits(read_u16_le(b, off));
            extended_flags = Some(ext);
            off = off + 2;
            assert(off == dps_off_log(b@));
            if ext.log_trigger_id_present {
                if b.len() < off + 2 {
                    return Err(ParserError::TooLittleData(off + 2 - b.len()));
                }
                log_trigger_id = Some(read_u16_le(b, off));
                off = off + 2;
            }
            assert(off == dps_off_rlfc(b@));
            if ext.rlfc_present {
                if b.len() < off + 4 {
                    return Err(ParserError::TooLittleData(off + 4 - b.len()));
                }
                rlfc = Some(read_u32_le(b, off));
                off = off + 4;
            }
            assert(off == dps_off_stats(b@));
            if ext.stats_present {
                if b.len() < off + 12 {
                    return Err(ParserError::TooLittleData(off + 12 - b.len()));
                }
                stats = Some(DataPathStats::read_at(b, off));
            }
        }
        Ok(
            DataPathStateTLV {
                flags,
                country_code,
                channel_map,
                infra_bssid_channel,
                infra_address,
                awdl_address,
                unicast_options,
                unicast_options_ext,
                extended_flags,
                log_trigger_id,
                rlfc,
                stats,
            },
        )
    }

    /// Appends the unicast options block, if one is present.
    fn write_unicast(&self, out: &mut Vec<u8>)
        ensures
            final(out)@ == old(out)@ + self.unicast_serial(),
    {
        match (self.unicast_options, self.unicast_options_ext) {
            (Some(uo), None) => {
                write_u16_le(out, 4);
                write_u32_le(out, uo.into_bits());
            },
            (Some(uo), Some(ext)) => {
                write_u16_le(out, 8);
                write_u32_le(out, uo.into_bits());
                write_u32_le(out, ext);
            },
            (None, Some(ext)) => {
                write_u16_le(out, 8);
                write_u32_le(out, 0);
                write_u32_le(out, ext);
            },
            (None, None) => {},
        }
        assert(out@ =~= old(out)@ + self.unicast_serial());
    }

    /// Appends the extended region, if one is present.
    fn write_extended(&self, out: &mut Vec<u8>, ext: Option<DataPathExtendedFlags>)
        requires
            ext == self.derived_extended_flags(),
        ensures
            final(out)@ == old(out)@ + self.extended_serial(),
    {
        if let Some(e) = ext {
            let ghost e0 = old(out)@ + u16_le_bytes(e.spec_into_bits());
            let ghost e1 = e0 + (match self.log_trigger_id {
                Some(lt) => u16_le_bytes(lt),
                None => Seq::<u8>::empty(),
            });
            let ghost e2 = e1 + (match self.rlfc {
                Some(r) => u32_le_bytes(r),
                None => Seq::<u8>::empty(),
            });
            write_u16_le(out, e.into_bits());
            assert(out@ =~= e0);
            if let Some(lt) = self.log_trigger_id {
                write_u16_le(out, lt);
            }
            assert(out@ =~= e1);
            if let Some(r) = self.rlfc {
                write_u32_le(out, r);
            }
            assert(out@ =~= e2);
            if let Some(st) = self.stats {
                st.write_to(out);
            }
            assert(out@ =~= old(out)@ + self.extended_serial());
        } else {
            assert(out@ =~= old(out)@ + self.extended_serial());
        }
    }

    /// The extended flag word that will be written, computed from the
    /// stored word and the present fields.
    fn derive_extended(&self) -> (r: Option<DataPathExtendedFlags>)
        ensures
            r == self.derived_extended_flags(),
    {
        if self.log_trigger_id.is_some() || self.rlfc.is_some() || self.stats.is_some() {
            let base = match self.extended_flags {
                Some(e) => e,
                None => DataPathExtendedFlags {
                    log_trigger_id_present: false,
                    ranging_discovery_supported: false,
                    rlfc_present: false,
                    is_social_channel_map_supported: false,
                    dynamic_sdb_active: false,
                    stats_present: false,
                    dfs_proxy_support: false,
                    high_efficiency_support: false,
                    is_sidekick_hub: false,
                    fast_discovery_active: false,
                    wifi_six_e_support: false,
                    ultra_low_latency_infra_support: false,
                    pro_mode_active: false,
                    unknown: 0,
                },
            };
            Some(
                DataPathExtendedFlags {
                    log_trigger_id_present: self.log_trigger_id.is_some(),
                    rlfc_present: self.rlfc.is_some(),
                    stats_present: self.stats.is_some(),
                    ..base
                },
            )
        } else {
            self.extended_flags
        }
    }

    /// Encodes the payload of a data path state TLV; every presence flag is
    /// derived from whether its field is set, never from the stored flag
    /// word, so flags and data cannot diverge.
    #[verifier::rlimit(100)]
    pub fn to_bytes(&self) -> (r: Vec<u8>)
        ensures
            r@ == self.spec_serial(),
    {
        let mut out: Vec<u8> = Vec::new();
        let extended_flags = self.derive_extended();
        let flags = DataPathFlags {
            infra_bssid_channel_present: self.infra_bssid_channel.is_some(),
            infra_address_present: self.infra_address.is_some(),
            awdl_address_present: self.awdl_address.is_some(),
            country_code_present: self.country_code.is_some(),
            channel_map_present: self.channel_map.is_some(),
            unicast_options_present: self.unicast_options.is_some()
                || self.unicast_options_ext.is_some(),
            extended_flags: extended_flags.is_some(),
            ..self.flags
        };
        assert(flags == self.derived_flags());
        let ghost s0 = u16_le_bytes(self.derived_flags().spec_into_bits());
        let ghost s1 = s0 + (match self.country_code {
            Some(cc) => seq![cc[0], cc[1], 0u8],
            None => Seq::<u8>::empty(),
        });
        let ghost s2 = s1 + (match self.channel_map {
            Some(cm) => u16_le_bytes(cm.spec_as_u16()),
            None => Seq::<u8>::empty(),
        });
        let ghost s3 = s2 + (match self.infra_bssid_channel {
            Some(bc) => bc.0@ + u16_le_bytes(bc.1),
            None => Seq::<u8>::empty(),
        });
        let ghost s4 = s3 + (match self.infra_address {
            Some(a) => a@,
            None => Seq::<u8>::empty(),
        });
        let ghost s5 = s4 + (match self.awdl_address {
            Some(a) => a@,
            None => Seq::<u8>::empty(),
        });
        write_u16_le(&mut out, flags.into_bits());
        assert(out@ =~= s0);
        if let Some(cc) = self.country_code {
            out.push(cc[0]);
            out.push(cc[1]);
            out.push(0);
        }
        assert(out@ =~= s1);
        if let Some(cm) = self.channel_map {
            write_u16_le(&mut out, cm.as_u16());
        }
        assert(out@ =~= s2);
        if let Some((mac, ch)) = self.infra_bssid_channel {
            write_mac(&mut out, &mac);
            write_u16_le(&mut out, ch);
        }
        assert(out@ =~= s3);
        if let Some(mac) = self.infra_address {
            write_mac(&mut out, &mac);
        }
        assert(out@ =~= s4);
        if let Some(mac) = self.awdl_address {
            write_mac(&mut out, &mac);
        }
        assert(out@ =~= s5);
        self.write_unicast(&mut out);
        assert(out@ =~= s5 + self.unicast_serial());
        self.write_extended(&mut out, extended_flags);
        assert(out@ =~= (s5 + self.unicast_serial()) + self.extended_serial());
        assert(out@ =~= self.spec_serial());
        out
    }
}

} // verus!
