//! The synchronization parameters TLV: the timing state of a peer's
//! availability windows, a fixed 33-byte header followed by an embedded
//! channel sequence.
use vstd::prelude::*;

use crate::bytes::{
    lemma_u16_le_round_trip, read_u16_le, u16_le, u16_le_bytes, write_u16_le,
};
use crate::channel_sequence::{ChannelSequenceTLV, ChannelSequenceTLVView};
use crate::election_parameters::{lemma_mac_round_trip, mac_at, read_mac, write_mac};
use crate::parser::ParserError;

verus! {

/// The synchronization parameters of the peer.
#[derive(Debug, Clone, PartialEq, Eq)]
pub struct SynchronizationParametersTLV {
    pub next_channel: u8,
    pub tx_counter: u16,
    pub master_channel: u8,
    pub guard_time: u8,
    pub aw_period: u16,
    pub af_period: u16,
    pub awdl_flags: u16,
    pub aw_ext_length: u16,
    pub aw_common_length: u16,
    pub remaining_aw_length: u16,
    pub min_ext_count: u8,
    pub max_multicast_ext_count: u8,
    pub max_unicast_ext_count: u8,
    pub max_af_ext_count: u8,
    pub master_address: [u8; 6],
    pub presence_mode: u8,
    pub aw_seq_number: u16,
    pub ap_beacon_alignment_delta: u16,
    /// Not carried as a TLV of its own here, but laid out identically.
    pub channel_sequence: ChannelSequenceTLV,
}

/// The mathematical value of a [`SynchronizationParametersTLV`].
#[verifier::ext_equal]
pub struct SynchronizationParametersTLVView {
    pub next_channel: u8,
    pub tx_counter: u16,
    pub master_channel: u8,
    pub guard_time: u8,
    pub aw_period: u16,
    pub af_period: u16,
    pub awdl_flags: u16,
    pub aw_ext_length: u16,
    pub aw_common_length: u16,
    pub remaining_aw_length: u16,
    pub min_ext_count: u8,
    pub max_multicast_ext_count: u8,
    pub max_unicast_ext_count: u8,
    pub max_af_ext_count: u8,
    pub master_address: [u8; 6],
    pub presence_mode: u8,
    pub aw_seq_number: u16,
    pub ap_beacon_alignment_delta: u16,
    pub channel_sequence: ChannelSequenceTLVView,
}

impl View for SynchronizationParametersTLV {
    type V = SynchronizationParametersTLVView;

    open spec fn view(&self) -> SynchronizationParametersTLVView {
        SynchronizationParametersTLVView {
            next_channel: self.next_channel,
            tx_counter: self.tx_counter,
            master_channel: self.master_channel,
            guard_time: self.guard_time,
            aw_period: self.aw_period,
            af_period: self.af_period,
            awdl_flags: self.awdl_flags,
            aw_ext_length: self.aw_ext_length,
            aw_common_length: self.aw_common_length,
            remaining_aw_length: self.remaining_aw_length,
            min_ext_count: self.min_ext_count,
            max_multicast_ext_count: self.max_multicast_ext_count,
            max_unicast_ext_count: self.max_unicast_ext_count,
            max_af_ext_count: self.max_af_ext_count,
            master_address: self.master_address,
            presence_mode: self.presence_mode,
            aw_seq_number: self.aw_seq_number,
            ap_beacon_alignment_delta: self.ap_beacon_alignment_delta,
            channel_sequence: self.channel_sequence@,
        }
    }
}

impl SynchronizationParametersTLVView {
    /// The embedded channel sequence is well-formed.
    pub open spec fn wf(self) -> bool {
        self.channel_sequence.wf()
    }
}

impl SynchronizationParametersTLV {
    /// The embedded channel sequence is well-formed.
    pub open spec fn wf(&self) -> bool {
        self@.wf()
    }

    /// Parses a synchronization parameters payload: the fixed 33-byte
    /// header, then the embedded channel sequence over the rest.
    pub open spec fn spec_parse(b: Seq<u8>) -> Result<
        SynchronizationParametersTLVView,
        ParserError,
    > {
        if b.len() < 33 {
            Err(ParserError::TooLittleData((33 - b.len()) as usize))
        } else {
            match ChannelSequenceTLV::spec_parse(b.skip(33)) {
                Ok(cs) => Ok(
                    SynchronizationParametersTLVView {
                        next_channel: b[0],
                        tx_counter: u16_le(b[1], b[2]),
                        master_channel: b[3],
                        guard_time: b[4],
                        aw_period: u16_le(b[5], b[6]),
                        af_period: u16_le(b[7], b[8]),
                        awdl_flags: u16_le(b[9], b[10]),
                        aw_ext_length: u16_le(b[11], b[12]),
                        aw_common_length: u16_le(b[13], b[14]),
                        remaining_aw_length: u16_le(b[15], b[16]),
                        min_ext_count: b[17],
                        max_multicast_ext_count: b[18],
                        max_unicast_ext_count: b[19],
                        max_af_ext_count: b[20],
                        master_address: mac_at(b, 21),
                        presence_mode: b[27],
                        aw_seq_number: u16_le(b[29], b[30]),
                        ap_beacon_alignment_delta: u16_le(b[31], b[32]),
                        channel_sequence: cs,
                    },
                ),
                Err(e) => Err(e),
            }
        }
    }

    /// The payload bytes: the header with one reserved zero byte after the
    /// presence mode, then the channel sequence with two padding bytes.
    pub open spec fn spec_serial(v: SynchronizationParametersTLVView) -> Seq<u8> {
        seq![v.next_channel] + u16_le_bytes(v.tx_counter) + seq![v.master_channel, v.guard_time]
            + u16_le_bytes(v.aw_period) + u16_le_bytes(v.af_period) + u16_le_bytes(v.awdl_flags)
            + u16_le_bytes(v.aw_ext_length) + u16_le_bytes(v.aw_common_length) + u16_le_bytes(
            v.remaining_aw_length,
        ) + seq![v.min_ext_count, v.max_multicast_ext_count, v.max_unicast_ext_count, v.max_af_ext_count]
            + v.master_address@ + seq![v.presence_mode, 0u8] + u16_le_bytes(v.aw_seq_number)
            + u16_le_bytes(v.ap_beacon_alignment_delta) + ChannelSequenceTLV::spec_serial_padded(
            v.channel_sequence,
            2,
        )
    }

    /// Decodes the payload of a synchronization parameters TLV.
    pub fn from_bytes(b: &[u8]) -> (r: Result<SynchronizationParametersTLV, ParserError>)
        ensures
            match r {
                Ok(v) => Self::spec_parse(b@) == Ok::<_, ParserError>(v@) && v.wf(),
                Err(e) => Self::spec_parse(b@) == Err::<SynchronizationParametersTLVView, _>(e),
            },
    {
        if b.len() < 33 {
            return Err(ParserError::TooLittleData(33 - b.len()));
        }
        let cs_slice = vstd::slice::slice_subrange(b, 33, b.len());
        assert(cs_slice@ =~= b@.skip(33));
        let channel_sequence = match ChannelSequenceTLV::from_bytes(cs_slice) {
            Ok(cs) => cs,
            Err(e) => {
                return Err(e);
            },
        };
        Ok(
            SynchronizationParametersTLV {
                next_channel: b[0],
                tx_counter: read_u16_le(b, 1),
                master_channel: b[3],
                guard_time: b[4],
                aw_period: read_u16_le(b, 5),
                af_period: read_u16_le(b, 7),
                awdl_flags: read_u16_le(b, 9),
                aw_ext_length: read_u16_le(b, 11),
                aw_common_length: read_u16_le(b, 13),
                remaining_aw_length: read_u16_le(b, 15),
                min_ext_count: b[17],
                max_multicast_ext_count: b[18],
                max_unicast_ext_count: b[19],
                max_af_ext_count: b[20],
                master_address: read_mac(b, 21),
                presence_mode: b[27],
                aw_seq_number: read_u16_le(b, 29),
                ap_beacon_alignment_delta: read_u16_le(b, 31),
                channel_sequence,
            },
        )
    }

    /// Encodes the payload of a synchronization parameters TLV.
    pub fn to_bytes(&self) -> (r: Vec<u8>)
        requires
            self.wf(),
        ensures
            r@ == Self::spec_serial(self@),
    {
        let mut out: Vec<u8> = Vec::new();
        out.push(self.next_channel);
        write_u16_le(&mut out, self.tx_counter);
        out.push(self.master_channel);
        out.push(self.guard_time);
        write_u16_le(&mut out, self.aw_period);
        write_u16_le(&mut out, self.af_period);
        write_u16_le(&mut out, self.awdl_flags);
        write_u16_le(&mut out, self.aw_ext_length);
        write_u16_le(&mut out, self.aw_common_length);
        write_u16_le(&mut out, self.remaining_aw_length);
        out.push(self.min_ext_count);
        out.push(self.max_multicast_ext_count);
        out.push(self.max_unicast_ext_count);
        out.push(self.max_af_ext_count);
        write_mac(&mut out, &self.master_address);
        out.push(self.presence_mode);
        out.push(0);
        write_u16_le(&mut out, self.aw_seq_number);
        write_u16_le(&mut out, self.ap_beacon_alignment_delta);
        self.channel_sequence.write_padded(&mut out, 2);
        assert(out@ =~= Self::spec_serial(self@));
        out
    }
}

/// A serialized well-formed synchronization parameters TLV parses back to
/// itself.
#[verifier::rlimit(60)]
pub proof fn lemma_sync_parameters_round_trip(v: SynchronizationParametersTLVView)
    requires
        v.wf(),
    ensures
        SynchronizationParametersTLV::spec_parse(SynchronizationParametersTLV::spec_serial(v))
            == Ok::<_, ParserError>(v),
{
    let b = SynchronizationParametersTLV::spec_serial(v);
    assert(b.len() == 33 + ChannelSequenceTLV::spec_serial_padded(v.channel_sequence, 2).len());
    lemma_u16_le_round_trip(v.tx_counter);
    lemma_u16_le_round_trip(v.aw_period);
    lemma_u16_le_round_trip(v.af_period);
    lemma_u16_le_round_trip(v.awdl_flags);
    lemma_u16_le_round_trip(v.aw_ext_length);
    lemma_u16_le_round_trip(v.aw_common_length);
    lemma_u16_le_round_trip(v.remaining_aw_length);
    lemma_u16_le_round_trip(v.aw_seq_number);
    lemma_u16_le_round_trip(v.ap_beacon_alignment_delta);
    assert(b.subrange(21, 27) =~= v.master_address@);
    lemma_mac_round_trip(b, 21, v.master_address);
    assert(b.skip(33) =~= ChannelSequenceTLV::spec_serial_padded(v.channel_sequence, 2));
    crate::channel_sequence::lemma_channel_sequence_tlv_round_trip_padded(v.channel_sequence, 2);
    assert(SynchronizationParametersTLV::spec_parse(b) matches Ok(p) && p =~= v);
}

} // verus!
