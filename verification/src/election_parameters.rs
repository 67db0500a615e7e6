//! The two election-parameter TLVs: fixed-offset descriptions of a peer's
//! position in the mesh master election, 21 bytes in the original layout and
//! 40 bytes in the V2 layout.
use vstd::prelude::*;

use crate::bytes::{
    lemma_u16_le_round_trip, lemma_u32_le_round_trip, read_u16_le, read_u32_le, u16_le,
    u16_le_bytes, u32_le, u32_le_bytes, write_u16_le, write_u32_le,
};
use crate::parser::ParserError;

verus! {

/// The six bytes of a MAC address starting at `at`.
pub open spec fn mac_at(b: Seq<u8>, at: int) -> [u8; 6]
    recommends
        0 <= at,
        at + 6 <= b.len(),
{
    [b[at], b[at + 1], b[at + 2], b[at + 3], b[at + 4], b[at + 5]]
}

/// Reads the six bytes of a MAC address starting at `at`.
pub fn read_mac(b: &[u8], at: usize) -> (r: [u8; 6])
    requires
        at + 6 <= b@.len(),
    ensures
        r == mac_at(b@, at as int),
{
    let r: [u8; 6] = [b[at], b[at + 1], b[at + 2], b[at + 3], b[at + 4], b[at + 5]];
    assert(r =~= mac_at(b@, at as int));
    r
}

/// Appends the six bytes of a MAC address.
pub fn write_mac(out: &mut Vec<u8>, mac: &[u8; 6])
    ensures
        final(out)@ == old(out)@ + mac@,
{
    let s = vstd::array::array_as_slice(mac);
    crate::bytes::write_slice_range(out, s, 0, 6);
    assert(mac@.subrange(0, 6) =~= mac@);
}

/// A serialized MAC address reads back to itself.
pub proof fn lemma_mac_round_trip(b: Seq<u8>, at: int, mac: [u8; 6])
    requires
        0 <= at,
        at + 6 <= b.len(),
        b.subrange(at, at + 6) == mac@,
    ensures
        mac_at(b, at) == mac,
{
    assert(b.subrange(at, at + 6)[0] == b[at]);
    assert(b.subrange(at, at + 6)[1] == b[at + 1]);
    assert(b.subrange(at, at + 6)[2] == b[at + 2]);
    assert(b.subrange(at, at + 6)[3] == b[at + 3]);
    assert(b.subrange(at, at + 6)[4] == b[at + 4]);
    assert(b.subrange(at, at + 6)[5] == b[at + 5]);
    assert(mac_at(b, at)@ =~= mac@);
}

/// A TLV describing the election parameters of a peer; a fixed 21-byte
/// layout.
#[derive(Debug, Clone, Copy, PartialEq, Eq, Default)]
pub struct ElectionParametersTLV {
    /// Flags; meaning unknown.
    pub flags: u8,
    /// An identifier; in practice always zero.
    pub id: u16,
    /// Distance to the mesh master.
    pub distance_to_master: u8,
    /// Address of the master.
    pub master_address: [u8; 6],
    /// Self metric of the master.
    pub master_metric: u32,
    /// Own self metric.
    pub self_metric: u32,
}

impl ElectionParametersTLV {
    /// The number of payload bytes of this TLV.
    pub fn size_in_bytes() -> (r: usize)
        ensures
            r == 21,
    {
        21
    }

    /// Parses the fixed 21-byte layout: flags, id, distance, one reserved
    /// byte, master address, master metric, self metric. Trailing bytes are
    /// ignored.
    pub open spec fn spec_parse(b: Seq<u8>) -> Result<ElectionParametersTLV, ParserError> {
        if b.len() < 21 {
            Err(ParserError::TooLittleData((21 - b.len()) as usize))
        } else {
            Ok(
                ElectionParametersTLV {
                    flags: b[0],
                    id: u16_le(b[1], b[2]),
                    distance_to_master: b[3],
                    master_address: mac_at(b, 5),
                    master_metric: u32_le(b[11], b[12], b[13], b[14]),
                    self_metric: u32_le(b[15], b[16], b[17], b[18]),
                },
            )
        }
    }

    /// The 21 payload bytes; the reserved byte and the trailing two bytes
    /// are emitted as zero.
    pub open spec fn spec_serial(self) -> Seq<u8> {
        seq![self.flags] + u16_le_bytes(self.id) + seq![self.distance_to_master, 0u8]
            + self.master_address@ + u32_le_bytes(self.master_metric) + u32_le_bytes(
            self.self_metric,
        ) + seq![0u8, 0u8]
    }

    /// Decodes the payload of an election parameters TLV.
    pub fn from_bytes(b: &[u8]) -> (r: Result<ElectionParametersTLV, ParserError>)
        ensures
            r == Self::spec_parse(b@),
    {
        if b.len() < 21 {
            return Err(ParserError::TooLittleData(21 - b.len()));
        }
        Ok(
            ElectionParametersTLV {
                flags: b[0],
                id: read_u16_le(b, 1),
                distance_to_master: b[3],
                master_address: read_mac(b, 5),
                master_metric: read_u32_le(b, 11),
                self_metric: read_u32_le(b, 15),
            },
        )
    }

    /// Encodes the payload of an election parameters TLV.
    pub fn to_bytes(&self) -> (r: Vec<u8>)
        ensures
            r@ == self.spec_serial(),
    {
        let mut out: Vec<u8> = Vec::new();
        out.push(self.flags);
        write_u16_le(&mut out, self.id);
        out.push(self.distance_to_master);
        out.push(0);
        write_mac(&mut out, &self.master_address);
        write_u32_le(&mut out, self.master_metric);
        write_u32_le(&mut out, self.self_metric);
        out.push(0);
        out.push(0);
        assert(out@ =~= self.spec_serial());
        out
    }
}

/// A serialized election parameters TLV parses back to itself.
pub proof fn lemma_election_parameters_round_trip(v: ElectionParametersTLV)
    ensures
        ElectionParametersTLV::spec_parse(v.spec_serial()) == Ok::<_, ParserError>(v),
{
    let b = v.spec_serial();
    lemma_u16_le_round_trip(v.id);
    lemma_u32_le_round_trip(v.master_metric);
    lemma_u32_le_round_trip(v.self_metric);
    assert(b.subrange(5, 11) =~= v.master_address@);
    lemma_mac_round_trip(b, 5, v.master_address);
}

/// Another TLV describing the election parameters of the peer; a fixed
/// 40-byte layout.
#[derive(Debug, Clone, Copy, PartialEq, Eq, Default)]
pub struct ElectionParametersV2TLV {
    /// MAC address of the master.
    pub master_address: [u8; 6],
    /// MAC address of the peer this peer is syncing to.
    pub sync_address: [u8; 6],
    /// Counter value of the master.
    pub master_counter: u32,
    /// Distance to the current master.
    pub distance_to_master: u32,
    /// Metric of the master.
    pub master_metric: u32,
    /// Self metric of the peer.
    pub self_metric: u32,
    /// Always zero, but found in some captures.
    pub election_id: u32,
    /// Self counter of the peer.
    pub self_counter: u32,
}

impl ElectionParametersV2TLV {
    /// The number of payload bytes of this TLV.
    pub fn size_in_bytes() -> (r: usize)
        ensures
            r == 40,
    {
        40
    }

    /// Parses the fixed 40-byte layout: the two addresses, then the
    /// counters and metrics, with four reserved bytes before the self
    /// counter. Trailing bytes are ignored.
    pub open spec fn spec_parse(b: Seq<u8>) -> Result<ElectionParametersV2TLV, ParserError> {
        if b.len() < 40 {
            Err(ParserError::TooLittleData((40 - b.len()) as usize))
        } else {
            Ok(
                ElectionParametersV2TLV {
                    master_address: mac_at(b, 0),
                    sync_address: mac_at(b, 6),
                    master_counter: u32_le(b[12], b[13], b[14], b[15]),
                    distance_to_master: u32_le(b[16], b[17], b[18], b[19]),
                    master_metric: u32_le(b[20], b[21], b[22], b[23]),
                    self_metric: u32_le(b[24], b[25], b[26], b[27]),
                    election_id: u32_le(b[28], b[29], b[30], b[31]),
                    self_counter: u32_le(b[36], b[37], b[38], b[39]),
                },
            )
        }
    }

    /// The 40 payload bytes; the four reserved bytes are emitted as zero.
    pub open spec fn spec_serial(self) -> Seq<u8> {
        self.master_address@ + self.sync_address@ + u32_le_bytes(self.master_counter)
            + u32_le_bytes(self.distance_to_master) + u32_le_bytes(self.master_metric)
            + u32_le_bytes(self.self_metric) + u32_le_bytes(self.election_id) + seq![
            0u8,
            0u8,
            0u8,
            0u8,
        ] + u32_le_bytes(self.self_counter)
    }

    /// Decodes the payload of a V2 election parameters TLV.
    pub fn from_bytes(b: &[u8]) -> (r: Result<ElectionParametersV2TLV, ParserError>)
        ensures
            r == Self::spec_parse(b@),
    {
        if b.len() < 40 {
            return Err(ParserError::TooLittleData(40 - b.len()));
        }
        Ok(
            ElectionParametersV2TLV {
                master_address: read_mac(b, 0),
                sync_address: read_mac(b, 6),
                master_counter: read_u32_le(b, 12),
                distance_to_master: read_u32_le(b, 16),
                master_metric: read_u32_le(b, 20),
                self_metric: read_u32_le(b, 24),
                election_id: read_u32_le(b, 28),
                self_counter: read_u32_le(b, 36),
            },
        )
    }

    /// Encodes the payload of a V2 election parameters TLV.
    pub fn to_bytes(&self) -> (r: Vec<u8>)
        ensures
            r@ == self.spec_serial(),
    {
        let mut out: Vec<u8> = Vec::new();
        write_mac(&mut out, &self.master_address);
        write_mac(&mut out, &self.sync_address);
        write_u32_le(&mut out, self.master_counter);
        write_u32_le(&mut out, self.distance_to_master);
        write_u32_le(&mut out, self.master_metric);
        write_u32_le(&mut out, self.self_metric);
        write_u32_le(&mut out, self.election_id);
        out.push(0);
        out.push(0);
        out.push(0);
        out.push(0);
        write_u32_le(&mut out, self.self_counter);
        assert(out@ =~= self.spec_serial());
        out
    }
}

/// A serialized V2 election parameters TLV parses back to itself.
#[verifier::rlimit(60)]
pub proof fn lemma_election_parameters_v2_round_trip(v: ElectionParametersV2TLV)
    ensures
        ElectionParametersV2TLV::spec_parse(v.spec_serial()) == Ok::<_, ParserError>(v),
{
    let b = v.spec_serial();
    assert(b.len() == 40);
    lemma_u32_le_round_trip(v.master_counter);
    lemma_u32_le_round_trip(v.distance_to_master);
    lemma_u32_le_round_trip(v.master_metric);
    lemma_u32_le_round_trip(v.self_metric);
    lemma_u32_le_round_trip(v.election_id);
    lemma_u32_le_round_trip(v.self_counter);
    assert(b.subrange(0, 6) =~= v.master_address@);
    lemma_mac_round_trip(b, 0, v.master_address);
    assert(b.subrange(6, 12) =~= v.sync_address@);
    lemma_mac_round_trip(b, 6, v.sync_address);
}

} // verus!
