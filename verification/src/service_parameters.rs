//! The service parameters TLV: a sparse set of byte-sized values encoded as
//! a 32-bit presence mask over buckets of eight values, followed by one
//! packed membership byte per non-empty bucket.
use vstd::prelude::*;

use crate::bytes::{
    lemma_u16_le_round_trip, lemma_u32_le_round_trip, read_u16_le, read_u32_le, u16_le,
    u16_le_bytes, u32_le, u32_le_bytes, write_u16_le, write_u32_le,
};
use crate::parser::ParserError;

verus! {

/// Bit `k` of a 32-bit word.
pub open spec fn bit32(m: u32, k: u32) -> bool {
    (m >> k) & 1 == 1
}

/// Bit `j` of a byte.
pub open spec fn bit8(m: u8, j: u8) -> bool {
    (m >> j) & 1 == 1
}

/// The bucket a value falls in: its upper five bits.
pub open spec fn bucket_of(v: u8) -> u32 {
    (v >> 3) as u32
}

/// The position of a value within its bucket: its lower three bits.
pub open spec fn bit_of(v: u8) -> u8 {
    v & 7
}

/// A bit of an or is a bit of either side.
proof fn lemma_or32_bit(a: u32, b: u32, k: u32)
    ensures
        bit32(a | b, k) == (bit32(a, k) || bit32(b, k)),
{
    assert((((a | b) >> k) & 1 == 1) == (((a >> k) & 1 == 1) || ((b >> k) & 1 == 1))) by (bit_vector);
}

/// A shifted one has exactly one bit.
proof fn lemma_shl32_bit(k: u32, i: u32)
    requires
        k < 32,
        i < 32,
    ensures
        bit32(1u32 << k, i) == (i == k),
{
    assert((((1u32 << k) >> i) & 1 == 1) == (i == k)) by (bit_vector)
        requires
            k < 32 && i < 32,
    ;
}

/// A bit of an or is a bit of either side, for bytes.
proof fn lemma_or8_bit(a: u8, b: u8, j: u8)
    ensures
        bit8(a | b, j) == (bit8(a, j) || bit8(b, j)),
{
    assert((((a | b) >> j) & 1 == 1) == (((a >> j) & 1 == 1) || ((b >> j) & 1 == 1))) by (bit_vector);
}

/// A shifted one has exactly one bit, for bytes.
proof fn lemma_shl8_bit(j: u8, i: u8)
    requires
        j < 8,
        i < 8,
    ensures
        bit8(1u8 << j, i) == (i == j),
{
    assert((((1u8 << j) >> i) & 1 == 1) == (i == j)) by (bit_vector)
        requires
            j < 8 && i < 8,
    ;
}

/// Zero has no bits.
proof fn lemma_zero_bit(k: u32, j: u8)
    ensures
        !bit32(0, k),
        !bit8(0, j),
{
    assert(!((0u32 >> k) & 1 == 1)) by (bit_vector);
    assert(!((0u8 >> j) & 1 == 1)) by (bit_vector);
}

/// Every value is its bucket times eight plus its bit position.
proof fn lemma_value_split(v: u8)
    ensures
        bucket_of(v) < 32,
        bit_of(v) < 8,
        v == bucket_of(v) * 8 + bit_of(v),
{
    assert((v >> 3) < 32 && (v & 7) < 8 && v == (v >> 3) * 8 + (v & 7)) by (bit_vector);
}

/// Or is commutative, associative, and has zero as unit, on both widths.
proof fn lemma_or_algebra(a: u32, b: u32, c: u32, x: u8, y: u8, z: u8)
    ensures
        a | b == b | a,
        a | (b | c) == (a | b) | c,
        a | 0 == a,
        x | y == y | x,
        x | (y | z) == (x | y) | z,
        x | 0u8 == x,
{
    assert(a | b == b | a && a | (b | c) == (a | b) | c && a | 0 == a) by (bit_vector);
    assert(x | y == y | x && x | (y | z) == (x | y) | z && x | 0u8 == x) by (bit_vector);
}

/// The values are strictly increasing.
pub open spec fn sorted_strict(vs: Seq<u8>) -> bool {
    forall|i: int, j: int| 0 <= i < j < vs.len() ==> #[trigger] vs[i] < #[trigger] vs[j]
}

/// The presence mask of a run of values: one bit per occupied bucket.
pub open spec fn mask_of(vs: Seq<u8>) -> u32
    decreases vs.len(),
{
    if vs.len() == 0 {
        0
    } else {
        (1u32 << bucket_of(vs[0])) | mask_of(vs.skip(1))
    }
}

/// The membership byte of one bucket: one bit per value in it.
pub open spec fn bucket_byte(vs: Seq<u8>, k: u32) -> u8
    decreases vs.len(),
{
    if vs.len() == 0 {
        0
    } else {
        (if bucket_of(vs[0]) == k {
            1u8 << bit_of(vs[0])
        } else {
            0u8
        }) | bucket_byte(vs.skip(1), k)
    }
}

/// The membership bytes of the buckets from `k` upward, one per occupied
/// bucket, in ascending bucket order.
pub open spec fn mask_bytes(vs: Seq<u8>, k: u32) -> Seq<u8>
    decreases 32 - k,
{
    if k >= 32 {
        Seq::empty()
    } else {
        (if bit32(mask_of(vs), k) {
            seq![bucket_byte(vs, k)]
        } else {
            Seq::empty()
        }) + mask_bytes(vs, (k + 1) as u32)
    }
}

/// The values encoded by one membership byte, from bit `j` upward.
pub open spec fn byte_values(byte: u8, k: u32, j: u8) -> Seq<u8>
    decreases 8 - j,
    when j <= 8 && k < 32
{
    if j >= 8 {
        Seq::empty()
    } else {
        (if bit8(byte, j) {
            seq![(k * 8 + j) as u8]
        } else {
            Seq::empty()
        }) + byte_values(byte, k, (j + 1) as u8)
    }
}

/// Parses the membership bytes for the buckets from `k` upward: each set
/// mask bit consumes one byte and contributes its values.
pub open spec fn parse_buckets(b: Seq<u8>, mask: u32, k: u32) -> Result<Seq<u8>, ParserError>
    decreases 32 - k,
{
    if k >= 32 {
        Ok(Seq::empty())
    } else if !bit32(mask, k) {
        parse_buckets(b, mask, (k + 1) as u32)
    } else if b.len() == 0 {
        Err(ParserError::TooLittleData(1))
    } else {
        match parse_buckets(b.skip(1), mask, (k + 1) as u32) {
            Ok(rest) => Ok(byte_values(b[0], k, 0) + rest),
            Err(e) => Err(e),
        }
    }
}

/// A bucket's mask bit is set exactly when some value falls in it.
proof fn lemma_mask_bit(vs: Seq<u8>, k: u32)
    requires
        k < 32,
    ensures
        bit32(mask_of(vs), k) <==> exists|i: int| 0 <= i < vs.len() && bucket_of(#[trigger] vs[i]) == k,
    decreases vs.len(),
{
    if vs.len() == 0 {
        lemma_zero_bit(k, 0);
    } else {
        lemma_value_split(vs[0]);
        lemma_or32_bit(1u32 << bucket_of(vs[0]), mask_of(vs.skip(1)), k);
        lemma_shl32_bit(bucket_of(vs[0]), k);
        lemma_mask_bit(vs.skip(1), k);
        if bit32(mask_of(vs), k) {
            if bucket_of(vs[0]) == k {
                assert(bucket_of(vs[0]) == k && 0 < vs.len());
            } else {
                let i = choose|i: int| 0 <= i < vs.skip(1).len() && bucket_of(#[trigger] vs.skip(
                    1,
                )[i]) == k;
                assert(vs.skip(1)[i] == vs[i + 1]);
            }
        }
        if exists|i: int| 0 <= i < vs.len() && bucket_of(#[trigger] vs[i]) == k {
            let i = choose|i: int| 0 <= i < vs.len() && bucket_of(#[trigger] vs[i]) == k;
            if i > 0 {
                assert(vs.skip(1)[i - 1] == vs[i]);
            }
        }
    }
}

/// A bucket byte's bit `j` is set exactly when the value `8 k + j` occurs.
proof fn lemma_bucket_byte_bit(vs: Seq<u8>, k: u32, j: u8)
    requires
        k < 32,
        j < 8,
    ensures
        bit8(bucket_byte(vs, k), j) <==> vs.contains((k * 8 + j) as u8),
    decreases vs.len(),
{
    let target = (k * 8 + j) as u8;
    if vs.len() == 0 {
        lemma_zero_bit(0, j);
    } else {
        let head_term: u8 = if bucket_of(vs[0]) == k {
            1u8 << bit_of(vs[0])
        } else {
            0u8
        };
        lemma_value_split(vs[0]);
        lemma_or8_bit(head_term, bucket_byte(vs.skip(1), k), j);
        if bucket_of(vs[0]) == k {
            lemma_shl8_bit(bit_of(vs[0]), j);
        } else {
            lemma_zero_bit(0, j);
        }
        lemma_bucket_byte_bit(vs.skip(1), k, j);
        assert(bit8(head_term, j) <==> vs[0] == target);
        if bit8(bucket_byte(vs, k), j) {
            if bit8(head_term, j) {
                assert(vs.contains(target));
            } else {
                let i = choose|i: int| 0 <= i < vs.skip(1).len() && vs.skip(1)[i] == target;
                assert(vs[i + 1] == target);
                assert(vs.contains(target));
            }
        }
        if vs.contains(target) {
            let i = choose|i: int| 0 <= i < vs.len() && vs[i] == target;
            if i > 0 {
                assert(vs.skip(1)[i - 1] == target);
                assert(vs.skip(1).contains(target));
            }
        }
    }
}

/// The values of one byte are strictly increasing, lie in the bucket's
/// range, and are exactly the bits that are set.
proof fn lemma_byte_values_props(byte: u8, k: u32, j: u8)
    requires
        k < 32,
        j <= 8,
    ensures
        sorted_strict(byte_values(byte, k, j)),
        forall|x: u8|
            byte_values(byte, k, j).contains(x) <==> exists|i: u8|
                j <= i < 8 && bit8(byte, i) && x == (k * 8 + i) as u8,
        forall|x: u8| #[trigger]
            byte_values(byte, k, j).contains(x) ==> k * 8 + j <= x < k * 8 + 8,
    decreases 8 - j,
{
    if j >= 8 {
        assert(forall|x: u8| !byte_values(byte, k, j).contains(x));
    } else {
        lemma_byte_values_props(byte, k, (j + 1) as u8);
        let rest = byte_values(byte, k, (j + 1) as u8);
        let cur = byte_values(byte, k, j);
        if bit8(byte, j) {
            let head = (k * 8 + j) as u8;
            assert(cur == seq![head] + rest);
            assert(cur[0] == head);
            assert forall|x: u8| #[trigger] cur.contains(x) implies (exists|i: u8|
                j <= i < 8 && bit8(byte, i) && x == (k * 8 + i) as u8) && k * 8 + j <= x < k * 8
                + 8 by {
                let ix = choose|ix: int| 0 <= ix < cur.len() && cur[ix] == x;
                if ix == 0 {
                    assert(bit8(byte, j) && x == (k * 8 + j) as u8);
                } else {
                    assert(rest[ix - 1] == x);
                    assert(rest.contains(x));
                }
            }
            assert forall|x: u8|
                (exists|i: u8|
                    j <= i < 8 && bit8(byte, i) && x == (k * 8 + i) as u8) implies #[trigger] cur.contains(
                x,
            ) by {
                let i = choose|i: u8| j <= i < 8 && bit8(byte, i) && x == (k * 8 + i) as u8;
                if i == j {
                    assert(cur[0] == x);
                } else {
                    assert(rest.contains(x));
                    let ix = choose|ix: int| 0 <= ix < rest.len() && rest[ix] == x;
                    assert(cur[ix + 1] == x);
                }
            }
            assert forall|a: int, b: int| 0 <= a < b < cur.len() implies cur[a] < cur[b] by {
                if a == 0 {
                    assert(rest[b - 1] == cur[b]);
                    assert(rest.contains(rest[b - 1]));
                } else {
                    assert(cur[a] == rest[a - 1] && cur[b] == rest[b - 1]);
                }
            }
        } else {
            assert(cur =~= rest);
            assert forall|x: u8|
                (exists|i: u8| j <= i < 8 && bit8(byte, i) && x == (k * 8 + i) as u8)
                    implies #[trigger] cur.contains(x) by {
                let i = choose|i: u8| j <= i < 8 && bit8(byte, i) && x == (k * 8 + i) as u8;
                assert(i != j);
                assert(rest.contains(x));
            }
        }
    }
}

/// The values with bucket `k`, in their original order.
pub open spec fn filter_eq(vs: Seq<u8>, k: u32) -> Seq<u8>
    decreases vs.len(),
{
    if vs.len() == 0 {
        Seq::empty()
    } else {
        (if bucket_of(vs[0]) == k {
            seq![vs[0]]
        } else {
            Seq::empty()
        }) + filter_eq(vs.skip(1), k)
    }
}

/// The values with bucket at least `k`, in their original order.
pub open spec fn filter_ge(vs: Seq<u8>, k: u32) -> Seq<u8>
    decreases vs.len(),
{
    if vs.len() == 0 {
        Seq::empty()
    } else {
        (if bucket_of(vs[0]) >= k {
            seq![vs[0]]
        } else {
            Seq::empty()
        }) + filter_ge(vs.skip(1), k)
    }
}

/// Every value has bucket at least zero, so the zero filter keeps all.
proof fn lemma_filter_ge_zero(vs: Seq<u8>)
    ensures
        filter_ge(vs, 0) == vs,
    decreases vs.len(),
{
    if vs.len() == 0 {
        assert(filter_ge(vs, 0) =~= vs);
    } else {
        lemma_filter_ge_zero(vs.skip(1));
        assert(filter_ge(vs, 0) =~= vs);
    }
}

/// Membership in the bucket filter.
proof fn lemma_filter_eq_contains(vs: Seq<u8>, k: u32)
    ensures
        forall|x: u8| #[trigger]
            filter_eq(vs, k).contains(x) <==> (vs.contains(x) && bucket_of(x) == k),
        sorted_strict(vs) ==> sorted_strict(filter_eq(vs, k)),
    decreases vs.len(),
{
    let f = filter_eq(vs, k);
    if vs.len() == 0 {
        assert(forall|x: u8| !f.contains(x) && !vs.contains(x));
    } else {
        lemma_filter_eq_contains(vs.skip(1), k);
        let rest = filter_eq(vs.skip(1), k);
        assert forall|x: u8| #[trigger] f.contains(x) implies (vs.contains(x) && bucket_of(x)
            == k) by {
            let ix = choose|ix: int| 0 <= ix < f.len() && f[ix] == x;
            if bucket_of(vs[0]) == k && ix == 0 {
                assert(vs[0] == x);
            } else {
                let off: int = if bucket_of(vs[0]) == k {
                    1
                } else {
                    0
                };
                assert(rest[ix - off] == x);
                assert(rest.contains(x));
                let iy = choose|iy: int| 0 <= iy < vs.skip(1).len() && vs.skip(1)[iy] == x;
                assert(vs[iy + 1] == x);
            }
        }
        assert forall|x: u8| vs.contains(x) && bucket_of(x) == k implies #[trigger] f.contains(
            x,
        ) by {
            let i = choose|i: int| 0 <= i < vs.len() && vs[i] == x;
            if i == 0 {
                assert(f[0] == x);
            } else {
                assert(vs.skip(1)[i - 1] == x);
                assert(vs.skip(1).contains(x));
                assert(rest.contains(x));
                let ix = choose|ix: int| 0 <= ix < rest.len() && rest[ix] == x;
                let off: int = if bucket_of(vs[0]) == k {
                    1
                } else {
                    0
                };
                assert(f[ix + off] == x);
            }
        }
        if sorted_strict(vs) {
            assert(sorted_strict(vs.skip(1))) by {
                assert(forall|a: int, b: int|
                    0 <= a < b < vs.skip(1).len() ==> vs.skip(1)[a] == vs[a + 1] && vs.skip(1)[b]
                        == vs[b + 1]);
            }
            assert forall|a: int, b: int| 0 <= a < b < f.len() implies f[a] < f[b] by {
                if bucket_of(vs[0]) == k {
                    if a == 0 {
                        assert(f[b] == rest[b - 1]);
                        assert(rest.contains(rest[b - 1]));
                        assert(vs.skip(1).contains(f[b]));
                        let iy = choose|iy: int|
                            0 <= iy < vs.skip(1).len() && vs.skip(1)[iy] == f[b];
                        assert(vs[iy + 1] == f[b]);
                        assert(vs[0] < vs[iy + 1]);
                    } else {
                        assert(f[a] == rest[a - 1] && f[b] == rest[b - 1]);
                    }
                } else {
                    assert(f[a] == rest[a] && f[b] == rest[b]);
                }
            }
        }
    }
}

/// For sorted values, the filter from `k` splits into the bucket `k` filter
/// followed by the filter from `k + 1`.
proof fn lemma_filter_split(vs: Seq<u8>, k: u32)
    requires
        sorted_strict(vs),
        k < 32,
    ensures
        filter_ge(vs, k) == filter_eq(vs, k) + filter_ge(vs, (k + 1) as u32),
    decreases vs.len(),
{
    if vs.len() == 0 {
        assert(filter_ge(vs, k) =~= filter_eq(vs, k) + filter_ge(vs, (k + 1) as u32));
    } else {
        assert(sorted_strict(vs.skip(1))) by {
            assert(forall|a: int, b: int|
                0 <= a < b < vs.skip(1).len() ==> vs.skip(1)[a] == vs[a + 1] && vs.skip(1)[b]
                    == vs[b + 1]);
        }
        lemma_filter_split(vs.skip(1), k);
        if bucket_of(vs[0]) > k {
            // No value in the tail can fall in bucket k either, because the
            // values only grow.
            assert(filter_eq(vs, k) =~= Seq::<u8>::empty()) by {
                lemma_filter_eq_contains(vs, k);
                assert forall|x: u8| !(#[trigger] filter_eq(vs, k).contains(x)) by {
                    if vs.contains(x) && bucket_of(x) == k {
                        let i = choose|i: int| 0 <= i < vs.len() && vs[i] == x;
                        if i > 0 {
                            assert(vs[0] < vs[i]);
                        }
                        lemma_value_split(vs[0]);
                        lemma_value_split(x);
                        let h = vs[0];
                        assert(bucket_of(h) <= bucket_of(x)) by {
                            assert(h <= x);
                            assert((h >> 3) <= (x >> 3)) by (bit_vector)
                                requires
                                    h <= x,
                            ;
                        }
                    }
                }
                if filter_eq(vs, k).len() > 0 {
                    assert(filter_eq(vs, k).contains(filter_eq(vs, k)[0]));
                }
            }
            assert(filter_eq(vs.skip(1), k) =~= Seq::<u8>::empty()) by {
                assert(filter_eq(vs, k) == filter_eq(vs.skip(1), k));
            }
            assert(filter_ge(vs, k) =~= filter_eq(vs, k) + filter_ge(vs, (k + 1) as u32));
        } else {
            assert(filter_ge(vs, k) =~= filter_eq(vs, k) + filter_ge(vs, (k + 1) as u32));
        }
    }
}

/// Two strictly increasing runs with the same members are equal.
proof fn lemma_sorted_eq(a: Seq<u8>, b: Seq<u8>)
    requires
        sorted_strict(a),
        sorted_strict(b),
        forall|x: u8| a.contains(x) <==> b.contains(x),
    ensures
        a == b,
    decreases a.len(),
{
    if a.len() == 0 {
        if b.len() > 0 {
            assert(b.contains(b[0]));
            assert(a.contains(b[0]));
        }
        assert(a =~= b);
    } else {
        assert(a.contains(a[0]));
        assert(b.contains(a[0]));
        assert(b.len() > 0);
        assert(a.contains(b[0]));
        // The heads are both the unique minimum of the common member set.
        let ia = choose|i: int| 0 <= i < a.len() && a[i] == b[0];
        let ib = choose|i: int| 0 <= i < b.len() && b[i] == a[0];
        assert(a[0] <= a[ia] && b[0] <= b[ib]);
        assert(a[0] == b[0]);
        assert(sorted_strict(a.skip(1)) && sorted_strict(b.skip(1))) by {
            assert(forall|x: int, y: int|
                0 <= x < y < a.skip(1).len() ==> a.skip(1)[x] == a[x + 1] && a.skip(1)[y]
                    == a[y + 1]);
            assert(forall|x: int, y: int|
                0 <= x < y < b.skip(1).len() ==> b.skip(1)[x] == b[x + 1] && b.skip(1)[y]
                    == b[y + 1]);
        }
        assert forall|x: u8| #[trigger] a.skip(1).contains(x) implies b.skip(1).contains(x) by {
            let i = choose|i: int| 0 <= i < a.skip(1).len() && a.skip(1)[i] == x;
            assert(a[i + 1] == x);
            assert(a.contains(x));
            assert(b.contains(x));
            let j = choose|j: int| 0 <= j < b.len() && b[j] == x;
            assert(a[0] < x);
            assert(j != 0);
            assert(b.skip(1)[j - 1] == x);
        }
        assert forall|x: u8| #[trigger] b.skip(1).contains(x) implies a.skip(1).contains(x) by {
            let i = choose|i: int| 0 <= i < b.skip(1).len() && b.skip(1)[i] == x;
            assert(b[i + 1] == x);
            assert(b.contains(x));
            assert(a.contains(x));
            let j = choose|j: int| 0 <= j < a.len() && a[j] == x;
            assert(b[0] < x);
            assert(j != 0);
            assert(a.skip(1)[j - 1] == x);
        }
        lemma_sorted_eq(a.skip(1), b.skip(1));
        assert(a.skip(1).len() == b.skip(1).len());
        assert forall|i: int| 0 <= i < a.len() implies a[i] == b[i] by {
            if i > 0 {
                assert(a.skip(1)[i - 1] == a[i]);
                assert(b.skip(1)[i - 1] == b[i]);
            }
        }
        assert(a =~= b);
    }
}

/// For sorted values, the bucket byte decodes to exactly the bucket's
/// filter.
proof fn lemma_byte_values_eq_filter(vs: Seq<u8>, k: u32)
    requires
        sorted_strict(vs),
        k < 32,
    ensures
        byte_values(bucket_byte(vs, k), k, 0) == filter_eq(vs, k),
{
    let byte = bucket_byte(vs, k);
    let bv = byte_values(byte, k, 0);
    let f = filter_eq(vs, k);
    lemma_byte_values_props(byte, k, 0);
    lemma_filter_eq_contains(vs, k);
    assert forall|x: u8| #[trigger] bv.contains(x) implies f.contains(x) by {
        let i = choose|i: u8| 0 <= i < 8 && bit8(byte, i) && x == (k * 8 + i) as u8;
        lemma_bucket_byte_bit(vs, k, i);
        lemma_value_split(x);
        assert(x == k * 8 + i);
        assert(bucket_of(x) == k && bit_of(x) == i) by {
            assert(x == k * 8 + i && k < 32 && i < 8 ==> (x >> 3) == k && (x & 7) == i)
                by (bit_vector);
        }
    }
    assert forall|x: u8| #[trigger] f.contains(x) implies bv.contains(x) by {
        lemma_value_split(x);
        let i = bit_of(x);
        lemma_bucket_byte_bit(vs, k, i);
        assert(vs.contains((k * 8 + i) as u8)) by {
            assert(x == bucket_of(x) * 8 + bit_of(x));
        }
        assert(bit8(byte, i));
        assert(exists|i2: u8| 0 <= i2 < 8 && bit8(byte, i2) && x == (k * 8 + i2) as u8);
    }
    lemma_sorted_eq(bv, f);
}

/// The central decomposition: the serialized membership bytes from bucket
/// `k` upward parse back to exactly the filtered values, whatever bytes
/// follow them.
proof fn lemma_parse_buckets_round(vs: Seq<u8>, k: u32, extra: Seq<u8>)
    requires
        sorted_strict(vs),
        k <= 32,
    ensures
        parse_buckets(mask_bytes(vs, k) + extra, mask_of(vs), k) == Ok::<_, ParserError>(
            filter_ge(vs, k),
        ),
    decreases 32 - k,
{
    if k >= 32 {
        assert(mask_bytes(vs, k) + extra =~= extra);
        assert(filter_ge(vs, k) =~= Seq::<u8>::empty()) by {
            if filter_ge(vs, k).len() > 0 {
                lemma_filter_ge_members(vs, k);
            }
        }
    } else {
        lemma_filter_split(vs, k);
        if bit32(mask_of(vs), k) {
            let b = mask_bytes(vs, k) + extra;
            assert(b[0] == bucket_byte(vs, k));
            assert(b.len() > 0);
            assert(b.skip(1) =~= mask_bytes(vs, (k + 1) as u32) + extra);
            lemma_parse_buckets_round(vs, (k + 1) as u32, extra);
            lemma_byte_values_eq_filter(vs, k);
            assert(parse_buckets(b, mask_of(vs), k) == Ok::<_, ParserError>(
                byte_values(b[0], k, 0) + filter_ge(vs, (k + 1) as u32),
            ));
        } else {
            assert(mask_bytes(vs, k) + extra =~= mask_bytes(vs, (k + 1) as u32) + extra);
            lemma_parse_buckets_round(vs, (k + 1) as u32, extra);
            assert(filter_eq(vs, k) =~= Seq::<u8>::empty()) by {
                lemma_filter_eq_contains(vs, k);
                if filter_eq(vs, k).len() > 0 {
                    let x = filter_eq(vs, k)[0];
                    assert(filter_eq(vs, k).contains(x));
                    assert(vs.contains(x) && bucket_of(x) == k);
                    let i = choose|i: int| 0 <= i < vs.len() && vs[i] == x;
                    lemma_mask_bit(vs, k);
                }
            }
            assert(filter_eq(vs, k) + filter_ge(vs, (k + 1) as u32) =~= filter_ge(
                vs,
                (k + 1) as u32,
            ));
        }
    }
}

/// Every member of the filter from `k` has bucket at least `k`; for `k` of
/// 32 there are none.
proof fn lemma_filter_ge_members(vs: Seq<u8>, k: u32)
    ensures
        forall|x: u8| #[trigger] filter_ge(vs, k).contains(x) ==> vs.contains(x) && bucket_of(x)
            >= k,
        k >= 32 ==> filter_ge(vs, k).len() == 0,
    decreases vs.len(),
{
    if vs.len() == 0 {
    } else {
        lemma_filter_ge_members(vs.skip(1), k);
        let f = filter_ge(vs, k);
        let rest = filter_ge(vs.skip(1), k);
        assert forall|x: u8| #[trigger] f.contains(x) implies vs.contains(x) && bucket_of(x)
            >= k by {
            let ix = choose|ix: int| 0 <= ix < f.len() && f[ix] == x;
            if bucket_of(vs[0]) >= k && ix == 0 {
                assert(vs[0] == x);
            } else {
                let off: int = if bucket_of(vs[0]) >= k {
                    1
                } else {
                    0
                };
                assert(rest[ix - off] == x);
                assert(rest.contains(x));
                let iy = choose|iy: int| 0 <= iy < vs.skip(1).len() && vs.skip(1)[iy] == x;
                assert(vs[iy + 1] == x);
            }
        }
        if k >= 32 {
            lemma_value_split(vs[0]);
        }
    }
}

/// Whatever the bucket parser accepts is strictly increasing, with every
/// value in a bucket at or above `k`.
proof fn lemma_parse_buckets_sorted(b: Seq<u8>, mask: u32, k: u32)
    requires
        k <= 32,
    ensures
        parse_buckets(b, mask, k) matches Ok(vs) ==> sorted_strict(vs) && forall|x: u8| #[trigger]
            vs.contains(x) ==> bucket_of(x) >= k,
    decreases 32 - k,
{
    if k >= 32 {
    } else if !bit32(mask, k) {
        lemma_parse_buckets_sorted(b, mask, (k + 1) as u32);
    } else if b.len() == 0 {
    } else {
        lemma_parse_buckets_sorted(b.skip(1), mask, (k + 1) as u32);
        if parse_buckets(b, mask, k) is Ok {
            let vs = parse_buckets(b, mask, k)->Ok_0;
            let head = byte_values(b[0], k, 0);
            let rest = parse_buckets(b.skip(1), mask, (k + 1) as u32)->Ok_0;
            lemma_byte_values_props(b[0], k, 0);
            assert(vs == head + rest);
            assert forall|x: u8| #[trigger] vs.contains(x) implies bucket_of(x) >= k by {
                let i = choose|i: int| 0 <= i < vs.len() && vs[i] == x;
                if i < head.len() {
                    assert(head.contains(x));
                    assert(k * 8 <= x);
                    lemma_value_split(x);
                    assert(x == bucket_of(x) * 8 + bit_of(x));
                } else {
                    assert(rest[i - head.len()] == x);
                    assert(rest.contains(x));
                }
            }
            assert forall|i: int, j: int| 0 <= i < j < vs.len() implies vs[i] < vs[j] by {
                if j < head.len() {
                } else if i >= head.len() {
                    assert(vs[i] == rest[i - head.len()] && vs[j] == rest[j - head.len()]);
                } else {
                    assert(head.contains(vs[i]));
                    assert(rest.contains(rest[j - head.len()]));
                    assert(vs[j] == rest[j - head.len()]);
                    assert(bucket_of(vs[j]) >= k + 1);
                    lemma_value_split(vs[j]);
                    assert(vs[i] < (k + 1) * 8);
                }
            }
        }
    }
}

/// We don't know what these values mean, but we do know how to decode and
/// encode them.
#[derive(Debug, Clone, PartialEq, Eq, Default)]
pub struct ServiceParametersTLV {
    /// An increment causes a DNS flush at the peer.
    pub sui: u16,
    /// The encoded values, in strictly increasing order.
    pub encoded_values: Vec<u8>,
}

/// The mathematical value of a [`ServiceParametersTLV`].
#[verifier::ext_equal]
pub struct ServiceParametersTLVView {
    pub sui: u16,
    pub encoded_values: Seq<u8>,
}

impl View for ServiceParametersTLV {
    type V = ServiceParametersTLVView;

    open spec fn view(&self) -> ServiceParametersTLVView {
        ServiceParametersTLVView { sui: self.sui, encoded_values: self.encoded_values@ }
    }
}

impl ServiceParametersTLVView {
    /// The values are strictly increasing, which pins the set and its
    /// byte-exact encoding down together.
    pub open spec fn wf(self) -> bool {
        sorted_strict(self.encoded_values)
    }
}

impl ServiceParametersTLV {
    /// The values are strictly increasing.
    pub open spec fn wf(&self) -> bool {
        self@.wf()
    }

    /// Parses a service parameters payload: three padding bytes, the
    /// little-endian `sui`, the 32-bit presence mask, and one membership
    /// byte per set mask bit.
    pub open spec fn spec_parse(b: Seq<u8>) -> Result<ServiceParametersTLVView, ParserError> {
        if b.len() < 9 {
            Err(ParserError::TooLittleData((9 - b.len()) as usize))
        } else {
            match parse_buckets(b.skip(9), u32_le(b[5], b[6], b[7], b[8]), 0) {
                Ok(vs) => Ok(
                    ServiceParametersTLVView { sui: u16_le(b[3], b[4]), encoded_values: vs },
                ),
                Err(e) => Err(e),
            }
        }
    }

    /// The payload bytes: three zero padding bytes, the `sui`, the presence
    /// mask derived from the values, and the membership bytes of the
    /// occupied buckets in ascending order.
    pub open spec fn spec_serial(v: ServiceParametersTLVView) -> Seq<u8> {
        seq![0u8, 0u8, 0u8] + u16_le_bytes(v.sui) + u32_le_bytes(mask_of(v.encoded_values))
            + mask_bytes(v.encoded_values, 0)
    }

    /// Decodes the payload of a service parameters TLV.
    pub fn from_bytes(b: &[u8]) -> (r: Result<ServiceParametersTLV, ParserError>)
        ensures
            match r {
                Ok(v) => Self::spec_parse(b@) == Ok::<_, ParserError>(v@) && v.wf(),
                Err(e) => Self::spec_parse(b@) == Err::<ServiceParametersTLVView, _>(e),
            },
    {
        if b.len() < 9 {
            return Err(ParserError::TooLittleData(9 - b.len()));
        }
        let sui = read_u16_le(b, 3);
        let mask = read_u32_le(b, 5);
        let ghost whole = b@.skip(9);
        let mut values: Vec<u8> = Vec::new();
        let mut idx: usize = 9;
        let mut k: u32 = 0;
        proof {
            assert(b@.skip(9) =~= whole);
        }
        while k < 32
            invariant
                k <= 32,
                9 <= idx <= b@.len() <= usize::MAX,
                whole == b@.skip(9),
                mask == u32_le(b@[5], b@[6], b@[7], b@[8]),
                forall|rest: Seq<u8>|
                    parse_buckets(b@.skip(idx as int), mask, k) == Ok::<_, ParserError>(rest)
                        ==> parse_buckets(whole, mask, 0) == Ok::<_, ParserError>(
                        values@ + rest,
                    ),
                forall|e: ParserError|
                    parse_buckets(b@.skip(idx as int), mask, k) == Err::<Seq<u8>, _>(e)
                        ==> parse_buckets(whole, mask, 0) == Err::<Seq<u8>, _>(e),
            decreases 32 - k,
        {
            let ghost remaining = b@.skip(idx as int);
            if (mask >> k) & 1 == 1 {
                if idx >= b.len() {
                    proof {
                        assert(remaining.len() == 0);
                        assert(parse_buckets(remaining, mask, k) == Err::<Seq<u8>, _>(
                            ParserError::TooLittleData(1),
                        ));
                    }
                    return Err(ParserError::TooLittleData(1));
                }
                let byte = b[idx];
                let ghost vals_before = values@;
                let mut j: u8 = 0;
                while j < 8
                    invariant
                        j <= 8,
                        k < 32,
                        vals_before + byte_values(byte, k, 0) == values@ + byte_values(
                            byte,
                            k,
                            j,
                        ),
                    decreases 8 - j,
                {
                    if (byte >> j) & 1 == 1 {
                        values.push((k as u8) * 8 + j);
                        proof {
                            assert(values@ + byte_values(byte, k, (j + 1) as u8) =~= vals_before
                                + byte_values(byte, k, 0));
                        }
                    } else {
                        proof {
                            assert(byte_values(byte, k, j) =~= byte_values(byte, k, (j + 1) as u8));
                        }
                    }
                    j = j + 1;
                }
                proof {
                    assert(byte_values(byte, k, 8) =~= Seq::<u8>::empty());
                    assert(values@ =~= vals_before + byte_values(byte, k, 0));
                    assert(remaining[0] == byte);
                    assert(remaining.skip(1) =~= b@.skip(idx + 1));
                    assert forall|rest: Seq<u8>|
                        parse_buckets(b@.skip(idx + 1), mask, (k + 1) as u32) == Ok::<
                            _,
                            ParserError,
                        >(rest) implies parse_buckets(whole, mask, 0) == Ok::<_, ParserError>(
                        values@ + rest,
                    ) by {
                        assert(parse_buckets(remaining, mask, k) == Ok::<_, ParserError>(
                            byte_values(byte, k, 0) + rest,
                        ));
                        assert(vals_before + (byte_values(byte, k, 0) + rest) =~= values@ + rest);
                    }
                }
                idx = idx + 1;
            } else {
                proof {
                    assert(parse_buckets(remaining, mask, k) == parse_buckets(
                        remaining,
                        mask,
                        (k + 1) as u32,
                    ));
                }
            }
            k = k + 1;
        }
        proof {
            assert(parse_buckets(b@.skip(idx as int), mask, 32) == Ok::<_, ParserError>(
                Seq::<u8>::empty(),
            ));
            assert(values@ + Seq::<u8>::empty() =~= values@);
            assert(parse_buckets(whole, mask, 0) == Ok::<_, ParserError>(values@));
            lemma_parse_buckets_sorted(whole, mask, 0);
        }
        Ok(ServiceParametersTLV { sui, encoded_values: values })
    }

    /// Encodes the payload of a service parameters TLV.
    pub fn to_bytes(&self) -> (r: Vec<u8>)
        requires
            self.wf(),
        ensures
            r@ == Self::spec_serial(self@),
    {
        let vs = &self.encoded_values;
        let mut out: Vec<u8> = Vec::new();
        out.push(0);
        out.push(0);
        out.push(0);
        write_u16_le(&mut out, self.sui);
        let mut mask: u32 = 0;
        let mut i: usize = 0;
        proof {
            lemma_or_algebra(mask_of(vs@), 0, 0, 0, 0, 0);
            assert(vs@.skip(0) =~= vs@);
        }
        while i < vs.len()
            invariant
                i <= vs@.len(),
                mask | mask_of(vs@.skip(i as int)) == mask_of(vs@),
            decreases vs@.len() - i,
        {
            let v = vs[i];
            proof {
                lemma_value_split(v);
                assert(vs@.skip(i as int)[0] == v);
                assert(vs@.skip(i as int).skip(1) =~= vs@.skip(i + 1));
                lemma_or_algebra(mask, 1u32 << bucket_of(v), mask_of(vs@.skip(i + 1)), 0, 0, 0);
            }
            mask = mask | (1u32 << ((v >> 3u8) as u32));
            i = i + 1;
        }
        proof {
            assert(vs@.skip(vs@.len() as int) =~= Seq::<u8>::empty());
            lemma_or_algebra(mask, 0, 0, 0, 0, 0);
            assert(mask == mask_of(vs@));
        }
        write_u32_le(&mut out, mask);
        let ghost base = out@;
        let mut k: u32 = 0;
        proof {
            assert(base + mask_bytes(vs@, 0) =~= base + mask_bytes(vs@, 0));
        }
        while k < 32
            invariant
                k <= 32,
                mask == mask_of(vs@),
                out@ + mask_bytes(vs@, k) == base + mask_bytes(vs@, 0),
            decreases 32 - k,
        {
            if (mask >> k) & 1 == 1 {
                let mut byte: u8 = 0;
                let mut i2: usize = 0;
                proof {
                    lemma_or_algebra(0, 0, 0, bucket_byte(vs@, k), 0, 0);
                    assert(vs@.skip(0) =~= vs@);
                }
                while i2 < vs.len()
                    invariant
                        i2 <= vs@.len(),
                        k < 32,
                        byte | bucket_byte(vs@.skip(i2 as int), k) == bucket_byte(vs@, k),
                    decreases vs@.len() - i2,
                {
                    let v = vs[i2];
                    let ghost head_term: u8 = if bucket_of(v) == k {
                        1u8 << bit_of(v)
                    } else {
                        0u8
                    };
                    proof {
                        lemma_value_split(v);
                        assert(vs@.skip(i2 as int)[0] == v);
                        assert(vs@.skip(i2 as int).skip(1) =~= vs@.skip(i2 + 1));
                        lemma_or_algebra(0, 0, 0, byte, head_term, bucket_byte(vs@.skip(i2 + 1), k));
                    }
                    if (v >> 3u8) as u32 == k {
                        byte = byte | (1u8 << (v & 7));
                    } else {
                        proof {
                            lemma_or_algebra(0, 0, 0, byte, 0, 0);
                        }
                    }
                    i2 = i2 + 1;
                }
                proof {
                    assert(vs@.skip(vs@.len() as int) =~= Seq::<u8>::empty());
                    lemma_or_algebra(0, 0, 0, byte, 0, 0);
                    assert(byte == bucket_byte(vs@, k));
                }
                let ghost out_prev = out@;
                out.push(byte);
                proof {
                    assert(mask_bytes(vs@, k) =~= seq![bucket_byte(vs@, k)] + mask_bytes(
                        vs@,
                        (k + 1) as u32,
                    ));
                    assert(out@ + mask_bytes(vs@, (k + 1) as u32) =~= out_prev + mask_bytes(
                        vs@,
                        k,
                    ));
                }
            } else {
                proof {
                    assert(mask_bytes(vs@, k) =~= mask_bytes(vs@, (k + 1) as u32));
                }
            }
            k = k + 1;
        }
        proof {
            assert(mask_bytes(vs@, 32) =~= Seq::<u8>::empty());
            assert(out@ + Seq::<u8>::empty() =~= out@);
            assert(out@ =~= base + mask_bytes(vs@, 0));
            assert(out@ =~= Self::spec_serial(self@));
        }
        out
    }
}

/// A serialized well-formed service parameters TLV parses back to itself:
/// the strictly increasing value run survives the mask-and-bucket encoding
/// byte for byte.
pub proof fn lemma_service_parameters_round_trip(v: ServiceParametersTLVView)
    requires
        v.wf(),
    ensures
        ServiceParametersTLV::spec_parse(ServiceParametersTLV::spec_serial(v)) == Ok::<
            _,
            ParserError,
        >(v),
{
    let b = ServiceParametersTLV::spec_serial(v);
    let vs = v.encoded_values;
    lemma_u16_le_round_trip(v.sui);
    lemma_u32_le_round_trip(mask_of(vs));
    assert(b.len() == 9 + mask_bytes(vs, 0).len());
    assert(b[3] == u16_le_bytes(v.sui)[0] && b[4] == u16_le_bytes(v.sui)[1]);
    assert(b[5] == u32_le_bytes(mask_of(vs))[0] && b[6] == u32_le_bytes(mask_of(vs))[1] && b[7]
        == u32_le_bytes(mask_of(vs))[2] && b[8] == u32_le_bytes(mask_of(vs))[3]);
    assert(u32_le(b[5], b[6], b[7], b[8]) == mask_of(vs));
    assert(b.skip(9) =~= mask_bytes(vs, 0) + Seq::<u8>::empty());
    lemma_parse_buckets_round(vs, 0, Seq::empty());
    lemma_filter_ge_zero(vs);
    assert(ServiceParametersTLV::spec_parse(b) matches Ok(p) && p =~= v);
}

} // verus!
