//! The synchronization tree TLV: a run of six-byte MAC addresses, the mesh
//! master first, in descending priority. The count is implicit in the
//! payload length.
use vstd::prelude::*;

use crate::election_parameters::{lemma_mac_round_trip, mac_at, read_mac, write_mac};

verus! {

/// Reads consecutive six-byte MAC addresses from the front of a slice; a
/// trailing remainder shorter than six bytes is ignored.
#[derive(Debug, Clone, Copy)]
pub struct ReadMACIterator<'a> {
    /// The bytes the addresses are read from.
    pub bytes: &'a [u8],
    /// The position of the next unread address.
    pub offset: usize,
}

impl<'a> ReadMACIterator<'a> {
    /// Starts reading at the front of `bytes`.
    pub fn new(bytes: &'a [u8]) -> (r: Self)
        ensures
            r.bytes@ == bytes@,
            r.offset == 0,
    {
        Self { bytes, offset: 0 }
    }

    /// Reads the next address, if six bytes remain.
    pub fn next(&mut self) -> (r: Option<[u8; 6]>)
        ensures
            final(self).bytes@ == old(self).bytes@,
            match r {
                Some(mac) => {
                    &&& old(self).offset + 6 <= old(self).bytes@.len()
                    &&& mac == mac_at(old(self).bytes@, old(self).offset as int)
                    &&& final(self).offset == old(self).offset + 6
                },
                None => {
                    &&& old(self).offset + 6 > old(self).bytes@.len()
                    &&& final(self).offset == old(self).offset
                },
            },
    {
        if self.offset <= self.bytes.len() && self.bytes.len() - self.offset >= 6 {
            let mac = read_mac(self.bytes, self.offset);
            self.offset = self.offset + 6;
            Some(mac)
        } else {
            None
        }
    }
}

/// This describes the structure of the AWDL mesh.
/// The contained MAC addresses are in descending order, with the first one
/// being the mesh master and the following ones sync masters.
#[derive(Debug, Clone, PartialEq, Eq, Default)]
pub struct SyncTreeTLV {
    /// The addresses.
    pub tree: Vec<[u8; 6]>,
}

impl View for SyncTreeTLV {
    type V = Seq<[u8; 6]>;

    open spec fn view(&self) -> Seq<[u8; 6]> {
        self.tree@
    }
}

/// Parses a payload as consecutive six-byte addresses; a remainder shorter
/// than six bytes is discarded, so this never fails.
pub open spec fn sync_tree_parse(b: Seq<u8>) -> Seq<[u8; 6]>
    decreases b.len(),
{
    if b.len() < 6 {
        Seq::empty()
    } else {
        seq![mac_at(b, 0)] + sync_tree_parse(b.skip(6))
    }
}

/// The concatenated bytes of the addresses.
pub open spec fn sync_tree_serial(t: Seq<[u8; 6]>) -> Seq<u8>
    decreases t.len(),
{
    if t.len() == 0 {
        Seq::empty()
    } else {
        t[0]@ + sync_tree_serial(t.skip(1))
    }
}

/// Serializing a tree is concatenation-homomorphic.
pub proof fn lemma_sync_tree_serial_append(a: Seq<[u8; 6]>, b: Seq<[u8; 6]>)
    ensures
        sync_tree_serial(a + b) == sync_tree_serial(a) + sync_tree_serial(b),
    decreases a.len(),
{
    if a.len() == 0 {
        assert(a + b =~= b);
        assert(sync_tree_serial(a) + sync_tree_serial(b) =~= sync_tree_serial(b));
    } else {
        assert((a + b).skip(1) =~= a.skip(1) + b);
        lemma_sync_tree_serial_append(a.skip(1), b);
        assert(sync_tree_serial(a + b) =~= sync_tree_serial(a) + sync_tree_serial(b));
    }
}

/// A serialized tree parses back to exactly its addresses.
pub proof fn lemma_sync_tree_round_trip(t: Seq<[u8; 6]>)
    ensures
        sync_tree_parse(sync_tree_serial(t)) == t,
    decreases t.len(),
{
    if t.len() == 0 {
        assert(sync_tree_parse(sync_tree_serial(t)) =~= t);
    } else {
        let b = sync_tree_serial(t);
        assert(b.len() == 6 + sync_tree_serial(t.skip(1)).len()) by {
            assert(b == t[0]@ + sync_tree_serial(t.skip(1)));
        }
        assert(b.subrange(0, 6) =~= t[0]@);
        lemma_mac_round_trip(b, 0, t[0]);
        assert(b.skip(6) =~= sync_tree_serial(t.skip(1)));
        lemma_sync_tree_round_trip(t.skip(1));
        assert(seq![t[0]] + t.skip(1) =~= t);
    }
}

impl SyncTreeTLV {
    /// Decodes the payload of a synchronization tree TLV; never fails.
    pub fn from_bytes(b: &[u8]) -> (r: SyncTreeTLV)
        ensures
            r@ == sync_tree_parse(b@),
    {
        let mut tree: Vec<[u8; 6]> = Vec::new();
        let mut pos: usize = 0;
        proof {
            assert(b@.skip(0) =~= b@);
            assert(Seq::<[u8; 6]>::empty() + sync_tree_parse(b@) =~= sync_tree_parse(b@));
        }
        while b.len() - pos >= 6
            invariant
                pos <= b@.len(),
                pos == tree@.len() * 6,
                sync_tree_parse(b@) == tree@ + sync_tree_parse(b@.skip(pos as int)),
            decreases b@.len() - pos,
        {
            let mac = read_mac(b, pos);
            let ghost old_tree = tree@;
            tree.push(mac);
            proof {
                let tail = b@.skip(pos as int);
                assert(tail.len() >= 6);
                assert(mac_at(tail, 0) =~= mac_at(b@, pos as int));
                assert(tail.skip(6) =~= b@.skip(pos + 6));
                assert(old_tree + (seq![mac] + sync_tree_parse(b@.skip(pos + 6))) =~= tree@
                    + sync_tree_parse(b@.skip(pos + 6)));
            }
            pos = pos + 6;
        }
        assert(sync_tree_parse(b@.skip(pos as int)) =~= Seq::<[u8; 6]>::empty());
        assert(tree@ + Seq::<[u8; 6]>::empty() =~= tree@);
        SyncTreeTLV { tree }
    }

    /// Encodes the payload: the addresses back to back.
    pub fn to_bytes(&self) -> (r: Vec<u8>)
        ensures
            r@ == sync_tree_serial(self@),
    {
        let mut out: Vec<u8> = Vec::new();
        let mut i: usize = 0;
        while i < self.tree.len()
            invariant
                i <= self.tree@.len(),
                out@ == sync_tree_serial(self.tree@.take(i as int)),
            decreases self.tree@.len() - i,
        {
            write_mac(&mut out, &self.tree[i]);
            proof {
                lemma_sync_tree_serial_append(self.tree@.take(i as int), seq![self.tree@[i as int]]);
                assert(self.tree@.take(i as int) + seq![self.tree@[i as int]] =~= self.tree@.take(
                    i + 1,
                ));
                let single = seq![self.tree@[i as int]];
                assert(single.skip(1) =~= Seq::<[u8; 6]>::empty());
                assert(sync_tree_serial(single.skip(1)) =~= Seq::<u8>::empty());
                assert(sync_tree_serial(single) =~= self.tree@[i as int]@);
            }
            i = i + 1;
        }
        assert(self.tree@.take(self.tree@.len() as int) =~= self.tree@);
        out
    }
}

} // verus!
