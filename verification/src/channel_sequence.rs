//! The channel sequence: the fixed 16-entry channel hopping schedule a peer
//! advertises, and the TLV that carries it.
use vstd::prelude::*;

use crate::bytes::{lemma_u16_le_round_trip, read_u16_le, u16_le, u16_le_bytes, write_u16_le};
use crate::channel::{Channel, ChannelEncoding, LegacyFlags};
use crate::parser::ParserError;

verus! {

/// The channels of a sequence, in one of the three encodings; a well-formed
/// sequence holds exactly sixteen entries, all of the same encoding.
#[derive(Debug, Clone, PartialEq, Eq)]
pub enum ChannelSequence {
    /// Just the channel number per entry.
    Simple(Vec<u8>),
    /// Channel flags and the channel number per entry.
    Legacy(Vec<(LegacyFlags, u8)>),
    /// The channel number and its operating class per entry.
    OpClass(Vec<(u8, u8)>),
}

/// The mathematical value of a [`ChannelSequence`].
#[verifier::ext_equal]
pub enum ChannelSequenceView {
    Simple(Seq<u8>),
    Legacy(Seq<(LegacyFlags, u8)>),
    OpClass(Seq<(u8, u8)>),
}

impl View for ChannelSequence {
    type V = ChannelSequenceView;

    open spec fn view(&self) -> ChannelSequenceView {
        match self {
            ChannelSequence::Simple(v) => ChannelSequenceView::Simple(v@),
            ChannelSequence::Legacy(v) => ChannelSequenceView::Legacy(v@),
            ChannelSequence::OpClass(v) => ChannelSequenceView::OpClass(v@),
        }
    }
}

impl ChannelSequenceView {
    /// The channel encoding of the sequence.
    pub open spec fn encoding(self) -> ChannelEncoding {
        match self {
            ChannelSequenceView::Simple(_) => ChannelEncoding::Simple,
            ChannelSequenceView::Legacy(_) => ChannelEncoding::Legacy,
            ChannelSequenceView::OpClass(_) => ChannelEncoding::OpClass,
        }
    }

    /// Exactly sixteen entries, and every legacy flag byte survives
    /// packing.
    pub open spec fn wf(self) -> bool {
        match self {
            ChannelSequenceView::Simple(v) => v.len() == 16,
            ChannelSequenceView::Legacy(v) => v.len() == 16 && forall|i: int|
                0 <= i < 16 ==> (#[trigger] v[i]).0.wf(),
            ChannelSequenceView::OpClass(v) => v.len() == 16,
        }
    }

    /// The channel bytes of the sequence: one byte per entry in the simple
    /// encoding, two in the others.
    pub open spec fn serial(self) -> Seq<u8> {
        match self {
            ChannelSequenceView::Simple(v) => v,
            ChannelSequenceView::Legacy(v) => Seq::new(
                (v.len() * 2) as nat,
                |i: int|
                    if i % 2 == 0 {
                        v[i / 2].0.spec_into_bits()
                    } else {
                        v[i / 2].1
                    },
            ),
            ChannelSequenceView::OpClass(v) => Seq::new(
                (v.len() * 2) as nat,
                |i: int|
                    if i % 2 == 0 {
                        v[i / 2].0
                    } else {
                        v[i / 2].1
                    },
            ),
        }
    }
}

/// Parses the sixteen channels of a sequence in the given encoding from the
/// front of `b`; an unknown encoding cannot be interpreted.
pub open spec fn channel_sequence_parse(b: Seq<u8>, encoding: ChannelEncoding) -> Result<
    ChannelSequenceView,
    ParserError,
> {
    match encoding {
        ChannelEncoding::Simple => {
            if b.len() < 16 {
                Err(ParserError::TooLittleData((16 - b.len()) as usize))
            } else {
                Ok(ChannelSequenceView::Simple(b.take(16)))
            }
        },
        ChannelEncoding::Legacy => {
            if b.len() < 32 {
                Err(ParserError::TooLittleData((32 - b.len()) as usize))
            } else {
                Ok(
                    ChannelSequenceView::Legacy(
                        Seq::new(
                            16,
                            |i: int| (LegacyFlags::spec_from_bits(b[2 * i]), b[2 * i + 1]),
                        ),
                    ),
                )
            }
        },
        ChannelEncoding::OpClass => {
            if b.len() < 32 {
                Err(ParserError::TooLittleData((32 - b.len()) as usize))
            } else {
                Ok(ChannelSequenceView::OpClass(Seq::new(16, |i: int| (b[2 * i], b[2 * i + 1]))))
            }
        },
        ChannelEncoding::Unknown(_) => Err(ParserError::ValueNotUnderstood),
    }
}

/// A serialized well-formed sequence parses back to itself under its own
/// encoding.
pub proof fn lemma_channel_sequence_round_trip(v: ChannelSequenceView)
    requires
        v.wf(),
    ensures
        channel_sequence_parse(v.serial(), v.encoding()) == Ok::<_, ParserError>(v),
{
    let b = v.serial();
    match v {
        ChannelSequenceView::Simple(s) => {
            assert(b.take(16) =~= s);
        },
        ChannelSequenceView::Legacy(s) => {
            let parsed = Seq::new(
                16,
                |i: int| (LegacyFlags::spec_from_bits(b[2 * i]), b[2 * i + 1]),
            );
            assert forall|i: int| 0 <= i < 16 implies parsed[i] == s[i] by {
                assert((2 * i) % 2 == 0 && (2 * i) / 2 == i && (2 * i + 1) % 2 == 1 && (2 * i + 1)
                    / 2 == i) by (nonlinear_arith);
                assert(b[2 * i] == s[i].0.spec_into_bits());
                assert(b[2 * i + 1] == s[i].1);
                assert(s[i].0.wf());
            }
            assert(parsed =~= s);
        },
        ChannelSequenceView::OpClass(s) => {
            let parsed = Seq::new(16, |i: int| (b[2 * i], b[2 * i + 1]));
            assert forall|i: int| 0 <= i < 16 implies parsed[i] == s[i] by {
                assert((2 * i) % 2 == 0 && (2 * i) / 2 == i && (2 * i + 1) % 2 == 1 && (2 * i + 1)
                    / 2 == i) by (nonlinear_arith);
            }
            assert(parsed =~= s);
        },
    }
}

impl ChannelSequence {
    /// The channel encoding of the channel sequence.
    pub fn channel_encoding(&self) -> (r: ChannelEncoding)
        ensures
            r == self@.encoding(),
    {
        match self {
            ChannelSequence::Simple(_) => ChannelEncoding::Simple,
            ChannelSequence::Legacy(_) => ChannelEncoding::Legacy,
            ChannelSequence::OpClass(_) => ChannelEncoding::OpClass,
        }
    }

    /// Generates a sequence repeating the given channel sixteen times.
    pub fn fixed_channel_sequence(channel: Channel) -> (r: ChannelSequence)
        ensures
            r@.encoding() == channel.spec_channel_encoding(),
            channel.wf() ==> r@.wf(),
    {
        match channel {
            Channel::Simple { channel } => {
                let mut v: Vec<u8> = Vec::new();
                let mut i: usize = 0;
                while i < 16
                    invariant
                        i <= 16,
                        v@.len() == i,
                        forall|j: int| 0 <= j < i ==> v@[j] == channel,
                    decreases 16 - i,
                {
                    v.push(channel);
                    i = i + 1;
                }
                ChannelSequence::Simple(v)
            },
            Channel::Legacy { flags, channel } => {
                let mut v: Vec<(LegacyFlags, u8)> = Vec::new();
                let mut i: usize = 0;
                while i < 16
                    invariant
                        i <= 16,
                        v@.len() == i,
                        forall|j: int| 0 <= j < i ==> v@[j] == (flags, channel),
                    decreases 16 - i,
                {
                    v.push((flags, channel));
                    i = i + 1;
                }
                ChannelSequence::Legacy(v)
            },
            Channel::OpClass { channel, opclass } => {
                let mut v: Vec<(u8, u8)> = Vec::new();
                let mut i: usize = 0;
                while i < 16
                    invariant
                        i <= 16,
                        v@.len() == i,
                        forall|j: int| 0 <= j < i ==> v@[j] == (channel, opclass),
                    decreases 16 - i,
                {
                    v.push((channel, opclass));
                    i = i + 1;
                }
                ChannelSequence::OpClass(v)
            },
        }
    }

    /// Decodes sixteen channels in the given encoding from the front of
    /// `b[at..]`.
    pub fn from_bytes_at(b: &[u8], at: usize, encoding: ChannelEncoding) -> (r: Result<
        ChannelSequence,
        ParserError,
    >)
        requires
            at <= b@.len(),
        ensures
            match r {
                Ok(v) => channel_sequence_parse(b@.skip(at as int), encoding) == Ok::<
                    _,
                    ParserError,
                >(v@) && v@.wf(),
                Err(e) => channel_sequence_parse(b@.skip(at as int), encoding) == Err::<
                    ChannelSequenceView,
                    _,
                >(e),
            },
    {
        let ghost tail = b@.skip(at as int);
        match encoding {
            ChannelEncoding::Simple => {
                if b.len() - at < 16 {
                    return Err(ParserError::TooLittleData(16 - (b.len() - at)));
                }
                let mut v: Vec<u8> = Vec::new();
                let mut i: usize = 0;
                while i < 16
                    invariant
                        i <= 16,
                        at + 16 <= b@.len() <= usize::MAX,
                        v@ == b@.subrange(at as int, at + i),
                    decreases 16 - i,
                {
                    v.push(b[at + i]);
                    assert(v@ =~= b@.subrange(at as int, at + i + 1));
                    i = i + 1;
                }
                assert(tail.take(16) =~= b@.subrange(at as int, at + 16));
                Ok(ChannelSequence::Simple(v))
            },
            ChannelEncoding::Legacy => {
                if b.len() - at < 32 {
                    return Err(ParserError::TooLittleData(32 - (b.len() - at)));
                }
                let mut v: Vec<(LegacyFlags, u8)> = Vec::new();
                let mut i: usize = 0;
                while i < 16
                    invariant
                        i <= 16,
                        at + 32 <= b@.len() <= usize::MAX,
                        v@.len() == i,
                        forall|j: int|
                            0 <= j < i ==> #[trigger] v@[j] == (
                                LegacyFlags::spec_from_bits(b@[at + 2 * j]),
                                b@[at + 2 * j + 1],
                            ),
                        forall|j: int| 0 <= j < i ==> (#[trigger] v@[j]).0.wf(),
                    decreases 16 - i,
                {
                    let flags = LegacyFlags::from_bits(b[at + 2 * i]);
                    v.push((flags, b[at + 2 * i + 1]));
                    i = i + 1;
                }
                proof {
                    let parsed = Seq::new(
                        16,
                        |j: int| (LegacyFlags::spec_from_bits(tail[2 * j]), tail[2 * j + 1]),
                    );
                    assert forall|j: int| 0 <= j < 16 implies parsed[j] == v@[j] by {
                        assert(tail[2 * j] == b@[at + 2 * j]);
                        assert(tail[2 * j + 1] == b@[at + 2 * j + 1]);
                    }
                    assert(parsed =~= v@);
                }
                Ok(ChannelSequence::Legacy(v))
            },
            ChannelEncoding::OpClass => {
                if b.len() - at < 32 {
                    return Err(ParserError::TooLittleData(32 - (b.len() - at)));
                }
                let mut v: Vec<(u8, u8)> = Vec::new();
                let mut i: usize = 0;
                while i < 16
                    invariant
                        i <= 16,
                        at + 32 <= b@.len() <= usize::MAX,
                        v@.len() == i,
                        forall|j: int|
                            0 <= j < i ==> #[trigger] v@[j] == (b@[at + 2 * j], b@[at + 2 * j + 1]),
                    decreases 16 - i,
                {
                    v.push((b[at + 2 * i], b[at + 2 * i + 1]));
                    i = i + 1;
                }
                proof {
                    let parsed = Seq::new(16, |j: int| (tail[2 * j], tail[2 * j + 1]));
                    assert forall|j: int| 0 <= j < 16 implies parsed[j] == v@[j] by {
                        assert(tail[2 * j] == b@[at + 2 * j]);
                        assert(tail[2 * j + 1] == b@[at + 2 * j + 1]);
                    }
                    assert(parsed =~= v@);
                }
                Ok(ChannelSequence::OpClass(v))
            },
            ChannelEncoding::Unknown(_) => Err(ParserError::ValueNotUnderstood),
        }
    }

    /// Appends the channel bytes of the sequence.
    pub fn write_to(&self, out: &mut Vec<u8>)
        ensures
            final(out)@ == old(out)@ + self@.serial(),
    {
        match self {
            ChannelSequence::Simple(v) => {
                crate::bytes::write_slice_range(out, v.as_slice(), 0, v.len());
                assert(v@.subrange(0, v@.len() as int) =~= v@);
            },
            ChannelSequence::Legacy(v) => {
                let mut i: usize = 0;
                while i < v.len()
                    invariant
                        i <= v@.len(),
                        out@.len() == old(out)@.len() + 2 * i,
                        out@.subrange(0, old(out)@.len() as int) == old(out)@,
                        forall|j: int|
                            0 <= j < i ==> out@[old(out)@.len() + 2 * j] == (
                            #[trigger] v@[j]).0.spec_into_bits() && out@[old(out)@.len() + 2 * j
                                + 1] == v@[j].1,
                    decreases v@.len() - i,
                {
                    let (flags, chan) = v[i];
                    out.push(flags.into_bits());
                    out.push(chan);
                    assert(out@.subrange(0, old(out)@.len() as int) =~= old(out)@);
                    i = i + 1;
                }
                assert(out@ =~= old(out)@ + self@.serial());
            },
            ChannelSequence::OpClass(v) => {
                let mut i: usize = 0;
                while i < v.len()
                    invariant
                        i <= v@.len(),
                        out@.len() == old(out)@.len() + 2 * i,
                        out@.subrange(0, old(out)@.len() as int) == old(out)@,
                        forall|j: int|
                            0 <= j < i ==> out@[old(out)@.len() + 2 * j] == (#[trigger] v@[j]).0
                                && out@[old(out)@.len() + 2 * j + 1] == v@[j].1,
                    decreases v@.len() - i,
                {
                    let (chan, opclass) = v[i];
                    out.push(chan);
                    out.push(opclass);
                    assert(out@.subrange(0, old(out)@.len() as int) =~= old(out)@);
                    i = i + 1;
                }
                assert(out@ =~= old(out)@ + self@.serial());
            },
        }
    }
}

/// The channel sequence TLV: a six-byte header, the sixteen channels, and
/// three bytes of padding.
#[derive(Debug, Clone, PartialEq, Eq)]
pub struct ChannelSequenceTLV {
    /// The amount of duplicates in the channel sequence.
    pub duplicate_count: u8,
    /// The amount of availability windows spent on one channel; stored on
    /// the wire as one less than its value.
    pub step_count: u8,
    /// A fill marker of unknown meaning; `0xffff` on captured frames.
    pub fill_channel: u16,
    /// The channels.
    pub channel_sequence: ChannelSequence,
}

/// The mathematical value of a [`ChannelSequenceTLV`].
#[verifier::ext_equal]
pub struct ChannelSequenceTLVView {
    pub duplicate_count: u8,
    pub step_count: u8,
    pub fill_channel: u16,
    pub channel_sequence: ChannelSequenceView,
}

impl View for ChannelSequenceTLV {
    type V = ChannelSequenceTLVView;

    open spec fn view(&self) -> ChannelSequenceTLVView {
        ChannelSequenceTLVView {
            duplicate_count: self.duplicate_count,
            step_count: self.step_count,
            fill_channel: self.fill_channel,
            channel_sequence: self.channel_sequence@,
        }
    }
}

impl ChannelSequenceTLVView {
    /// The step count fits its decremented wire byte and the sequence is
    /// well-formed.
    pub open spec fn wf(self) -> bool {
        1 <= self.step_count && self.channel_sequence.wf()
    }
}

impl ChannelSequenceTLV {
    /// The step count fits its decremented wire byte and the sequence is
    /// well-formed.
    pub open spec fn wf(&self) -> bool {
        self@.wf()
    }

    /// Parses a channel sequence payload: the stored channel count, which
    /// must give sixteen, the encoding, the duplicate count, the stored
    /// step count, the fill marker, and the channels. The trailing padding
    /// is ignored.
    pub open spec fn spec_parse(b: Seq<u8>) -> Result<ChannelSequenceTLVView, ParserError> {
        if b.len() < 6 {
            Err(ParserError::TooLittleData((6 - b.len()) as usize))
        } else if b[0] + 1 != 16 {
            Err(ParserError::ValueNotUnderstood)
        } else if b[3] == 255 {
            Err(ParserError::ValueNotUnderstood)
        } else {
            match channel_sequence_parse(b.skip(6), ChannelEncoding::spec_from_bits(b[1])) {
                Ok(cs) => Ok(
                    ChannelSequenceTLVView {
                        duplicate_count: b[2],
                        step_count: (b[3] + 1) as u8,
                        fill_channel: u16_le(b[4], b[5]),
                        channel_sequence: cs,
                    },
                ),
                Err(e) => Err(e),
            }
        }
    }

    /// The payload bytes with a given number of zero padding bytes after
    /// the channels: the header stores the counts decremented.
    pub open spec fn spec_serial_padded(v: ChannelSequenceTLVView, pad: nat) -> Seq<u8> {
        seq![15u8, v.channel_sequence.encoding().spec_into_bits(), v.duplicate_count, (v.step_count
            - 1) as u8] + u16_le_bytes(v.fill_channel) + v.channel_sequence.serial() + Seq::new(
            pad,
            |i: int| 0u8,
        )
    }

    /// The payload bytes: the header with the counts stored decremented,
    /// the channels, and three zero bytes of padding.
    pub open spec fn spec_serial(v: ChannelSequenceTLVView) -> Seq<u8> {
        Self::spec_serial_padded(v, 3)
    }

    /// Decodes the payload of a channel sequence TLV.
    pub fn from_bytes(b: &[u8]) -> (r: Result<ChannelSequenceTLV, ParserError>)
        ensures
            match r {
                Ok(v) => Self::spec_parse(b@) == Ok::<_, ParserError>(v@) && v.wf(),
                Err(e) => Self::spec_parse(b@) == Err::<ChannelSequenceTLVView, _>(e),
            },
    {
        if b.len() < 6 {
            return Err(ParserError::TooLittleData(6 - b.len()));
        }
        if b[0] != 15 {
            return Err(ParserError::ValueNotUnderstood);
        }
        if b[3] == 255 {
            return Err(ParserError::ValueNotUnderstood);
        }
        let encoding = ChannelEncoding::from_bits(b[1]);
        match ChannelSequence::from_bytes_at(b, 6, encoding) {
            Ok(channel_sequence) => Ok(
                ChannelSequenceTLV {
                    duplicate_count: b[2],
                    step_count: b[3] + 1,
                    fill_channel: read_u16_le(b, 4),
                    channel_sequence,
                },
            ),
            Err(e) => Err(e),
        }
    }

    /// Appends the payload of the TLV with the given number of zero
    /// padding bytes after the channels.
    pub fn write_padded(&self, out: &mut Vec<u8>, pad: usize)
        requires
            self.wf(),
        ensures
            final(out)@ == old(out)@ + Self::spec_serial_padded(self@, pad as nat),
    {
        out.push(15);
        out.push(self.channel_sequence.channel_encoding().into_bits());
        out.push(self.duplicate_count);
        out.push(self.step_count - 1);
        write_u16_le(out, self.fill_channel);
        self.channel_sequence.write_to(out);
        crate::bytes::write_repeated(out, 0, pad);
        assert(out@ =~= old(out)@ + Self::spec_serial_padded(self@, pad as nat));
    }

    /// Encodes the payload of a channel sequence TLV.
    pub fn to_bytes(&self) -> (r: Vec<u8>)
        requires
            self.wf(),
        ensures
            r@ == Self::spec_serial(self@),
    {
        let mut out: Vec<u8> = Vec::new();
        self.write_padded(&mut out, 3);
        assert(out@ =~= Self::spec_serial(self@));
        out
    }
}

/// A serialized well-formed channel sequence TLV parses back to itself,
/// whatever amount of zero padding follows its channels.
pub proof fn lemma_channel_sequence_tlv_round_trip_padded(v: ChannelSequenceTLVView, pad: nat)
    requires
        v.wf(),
    ensures
        ChannelSequenceTLV::spec_parse(ChannelSequenceTLV::spec_serial_padded(v, pad)) == Ok::<
            _,
            ParserError,
        >(v),
{
    let b = ChannelSequenceTLV::spec_serial_padded(v, pad);
    let cs = v.channel_sequence.serial();
    assert(b.len() == 6 + pad + cs.len());
    assert(b[0] == 15 && b[2] == v.duplicate_count && b[3] == (v.step_count - 1) as u8);
    assert(b[1] == v.channel_sequence.encoding().spec_into_bits());
    assert(ChannelEncoding::spec_from_bits(b[1]) == v.channel_sequence.encoding());
    lemma_u16_le_round_trip(v.fill_channel);
    assert(b[4] == u16_le_bytes(v.fill_channel)[0] && b[5] == u16_le_bytes(v.fill_channel)[1]);
    assert(b.skip(6) =~= cs + Seq::new(pad, |i: int| 0u8));
    lemma_channel_sequence_round_trip(v.channel_sequence);
    lemma_channel_sequence_parse_extra(cs, Seq::new(pad, |i: int| 0u8), v.channel_sequence);
    assert(ChannelSequenceTLV::spec_parse(b) == Ok::<_, ParserError>(
        ChannelSequenceTLVView {
            duplicate_count: v.duplicate_count,
            step_count: ((v.step_count - 1) as u8 + 1) as u8,
            fill_channel: u16_le(b[4], b[5]),
            channel_sequence: v.channel_sequence,
        },
    ));
    assert(ChannelSequenceTLVView {
        duplicate_count: v.duplicate_count,
        step_count: ((v.step_count - 1) as u8 + 1) as u8,
        fill_channel: v.fill_channel,
        channel_sequence: v.channel_sequence,
    } =~= v);
}

/// A serialized well-formed channel sequence TLV parses back to itself.
pub proof fn lemma_channel_sequence_tlv_round_trip(v: ChannelSequenceTLVView)
    requires
        v.wf(),
    ensures
        ChannelSequenceTLV::spec_parse(ChannelSequenceTLV::spec_serial(v)) == Ok::<
            _,
            ParserError,
        >(v),
{
    lemma_channel_sequence_tlv_round_trip_padded(v, 3);
}

/// Parsing a channel sequence only looks at the first sixteen entries:
/// appending extra bytes does not change the result.
pub proof fn lemma_channel_sequence_parse_extra(
    cs: Seq<u8>,
    extra: Seq<u8>,
    v: ChannelSequenceView,
)
    requires
        channel_sequence_parse(cs, v.encoding()) == Ok::<_, ParserError>(v),
    ensures
        channel_sequence_parse(cs + extra, v.encoding()) == Ok::<_, ParserError>(v),
{
    let b = cs + extra;
    match v.encoding() {
        ChannelEncoding::Simple => {
            assert(b.take(16) =~= cs.take(16));
        },
        ChannelEncoding::Legacy => {
            let p1 = Seq::new(16, |i: int| (LegacyFlags::spec_from_bits(b[2 * i]), b[2 * i + 1]));
            let p2 = Seq::new(16, |i: int| (LegacyFlags::spec_from_bits(cs[2 * i]), cs[2 * i + 1]));
            assert forall|i: int| 0 <= i < 16 implies p1[i] == p2[i] by {
                assert(2 * i < 32 && 2 * i + 1 < 32) by (nonlinear_arith)
                    requires
                        0 <= i < 16,
                ;
            }
            assert(p1 =~= p2);
        },
        ChannelEncoding::OpClass => {
            let p1 = Seq::new(16, |i: int| (b[2 * i], b[2 * i + 1]));
            let p2 = Seq::new(16, |i: int| (cs[2 * i], cs[2 * i + 1]));
            assert forall|i: int| 0 <= i < 16 implies p1[i] == p2[i] by {
                assert(2 * i < 32 && 2 * i + 1 < 32) by (nonlinear_arith)
                    requires
                        0 <= i < 16,
                ;
            }
            assert(p1 =~= p2);
        },
        ChannelEncoding::Unknown(_) => {},
    }
}

} // verus!
