//! A string in the format used by AWDL: the raw bytes preceded by a one-byte
//! length prefix.
use vstd::prelude::*;

use crate::parser::ParserError;

verus! {

/// A string in the format used by AWDL.
/// On the wire the bytes are preceded by a length byte.
#[derive(Debug, Clone, PartialEq, Eq, Hash, Default)]
pub struct AWDLStr(pub Vec<u8>);

impl View for AWDLStr {
    type V = Seq<u8>;

    open spec fn view(&self) -> Seq<u8> {
        self.0@
    }
}

impl DeepView for AWDLStr {
    type V = Seq<u8>;

    open spec fn deep_view(&self) -> Seq<u8> {
        self.0@
    }
}

/// The encoding of one string: a length byte followed by the bytes.
pub open spec fn str_serial(s: Seq<u8>) -> Seq<u8> {
    seq![s.len() as u8] + s
}

/// A string fits the format when its length fits the one-byte prefix.
pub open spec fn str_wf(s: Seq<u8>) -> bool {
    s.len() <= 255
}

/// Parses one length-prefixed string from the front of `b`, returning it with
/// the number of bytes consumed.
pub open spec fn str_parse(b: Seq<u8>) -> Result<(Seq<u8>, int), ParserError> {
    if b.len() < 1 {
        Err(ParserError::TooLittleData(1))
    } else {
        let l = b[0] as int;
        if b.len() < 1 + l {
            Err(ParserError::TooLittleData((1 + l - b.len()) as usize))
        } else {
            Ok((b.subrange(1, 1 + l), 1 + l))
        }
    }
}

/// A serialized string parses back to itself and consumes exactly its bytes.
pub proof fn lemma_str_round_trip(s: Seq<u8>)
    requires
        str_wf(s),
    ensures
        str_parse(str_serial(s)) == Ok::<_, ParserError>((s, str_serial(s).len() as int)),
{
    let b = str_serial(s);
    assert(b[0] == s.len() as u8);
    assert(b.subrange(1, 1 + s.len() as int) =~= s);
}

impl AWDLStr {
    /// The number of bytes this string occupies on the wire.
    pub fn size_in_bytes(&self) -> (r: usize)
        requires
            self@.len() + 1 <= usize::MAX,
        ensures
            r == self@.len() + 1,
    {
        self.0.len() + 1
    }

    /// The string fits the format: its length fits the one-byte prefix.
    pub open spec fn wf(&self) -> bool {
        str_wf(self@)
    }

    /// Reads one length-prefixed string from the front of `b[at..]`,
    /// returning it with the position one past its last byte.
    pub fn from_bytes_at(b: &[u8], at: usize) -> (r: Result<(AWDLStr, usize), ParserError>)
        requires
            at <= b@.len(),
        ensures
            match r {
                Ok((s, end)) => {
                    &&& str_parse(b@.skip(at as int)) == Ok::<_, ParserError>(
                        (s@, end - at),
                    )
                    &&& at < end <= b@.len()
                    &&& s.wf()
                },
                Err(e) => str_parse(b@.skip(at as int)) == Err::<(Seq<u8>, int), _>(e),
            },
    {
        let ghost tail = b@.skip(at as int);
        if b.len() - at < 1 {
            return Err(ParserError::TooLittleData(1));
        }
        let l = b[at] as usize;
        if b.len() - at - 1 < l {
            assert(1 + tail[0] - tail.len() == 1 + l - (b@.len() - at));
            return Err(ParserError::TooLittleData(1 + l - (b.len() - at)));
        }
        let end = at + 1 + l;
        let mut label: Vec<u8> = Vec::new();
        let mut i: usize = at + 1;
        while i < end
            invariant
                at + 1 <= i <= end <= b@.len(),
                end == at + 1 + l,
                label@ == b@.subrange(at + 1, i as int),
            decreases end - i,
        {
            label.push(b[i]);
            assert(label@ =~= b@.subrange(at + 1, i + 1));
            i = i + 1;
        }
        assert(tail.subrange(1, 1 + l) =~= b@.subrange(at + 1, at + 1 + l));
        Ok((AWDLStr(label), end))
    }

    /// Decodes a string from the whole of `b`; trailing bytes are an error.
    pub fn from_bytes(b: &[u8]) -> (r: Result<AWDLStr, ParserError>)
        ensures
            match r {
                Ok(s) => {
                    &&& str_parse(b@) matches Ok(p) && p.0 == s@ && p.1 == b@.len()
                    &&& s.wf()
                },
                Err(ParserError::ValueNotUnderstood) => str_parse(b@) matches Ok(p) && p.1
                    != b@.len(),
                Err(e) => str_parse(b@) == Err::<(Seq<u8>, int), _>(e),
            },
    {
        assert(b@.skip(0) =~= b@);
        match Self::from_bytes_at(b, 0) {
            Ok((s, end)) => {
                if end == b.len() {
                    Ok(s)
                } else {
                    Err(ParserError::ValueNotUnderstood)
                }
            },
            Err(e) => Err(e),
        }
    }

    /// Appends the length byte and the bytes of the string.
    pub fn write_to(&self, out: &mut Vec<u8>)
        requires
            self.wf(),
        ensures
            final(out)@ == old(out)@ + str_serial(self@),
    {
        out.push(self.0.len() as u8);
        let mut i: usize = 0;
        while i < self.0.len()
            invariant
                i <= self.0@.len() <= 255,
                out@ == old(out)@ + seq![self.0@.len() as u8] + self.0@.subrange(0, i as int),
            decreases self.0@.len() - i,
        {
            out.push(self.0[i]);
            assert(out@ =~= old(out)@ + seq![self.0@.len() as u8] + self.0@.subrange(0, i + 1));
            i = i + 1;
        }
        assert(out@ =~= old(out)@ + str_serial(self@));
    }

    /// Encodes the string as its length byte followed by its bytes.
    pub fn to_bytes(&self) -> (r: Vec<u8>)
        requires
            self.wf(),
        ensures
            r@ == str_serial(self@),
    {
        let mut out: Vec<u8> = Vec::new();
        self.write_to(&mut out);
        assert(out@ =~= str_serial(self@));
        out
    }
}

} // verus!
