//! The typed bit-field layer: descriptors for bit ranges inside a 64-bit
//! storage word, the read / write / revert operations on raw words, and the
//! proofs that writes round-trip and leave all other bits untouched.

use vstd::prelude::*;

verus! {

/// A contiguous run of bits inside a storage word: bits `lo .. lo + width`.
#[derive(Clone, Copy, PartialEq, Eq, Structural, Debug)]
pub struct BitRange {
    pub lo: u64,
    pub width: u64,
}

/// A mask with the `width` lowest bits set, for `1 <= width <= 64`.
pub open spec fn low_mask(width: u64) -> u64 {
    0xffff_ffff_ffff_ffffu64 >> ((64 - width) as u64)
}

impl BitRange {
    /// The range lies inside a word of `word_width` bits.
    pub open spec fn wf(self, word_width: u64) -> bool {
        &&& 1 <= self.width <= 64
        &&& self.lo + self.width <= word_width
        &&& word_width <= 64
    }

    /// The bits of the word that belong to this range.
    pub open spec fn mask(self) -> u64 {
        low_mask(self.width) << self.lo
    }
}

/// A single-range bit-field descriptor: where the field sits in the word,
/// whether software may write it, and the architectural default its bits
/// return to on revert. Immutable, defined once per register layout.
#[derive(Clone, Copy, PartialEq, Eq, Structural, Debug)]
pub struct BitField {
    pub range: BitRange,
    pub writable: bool,
    pub default: u64,
}

impl BitField {
    /// The field lies inside a word of `word_width` bits and its default
    /// value fits the field.
    pub open spec fn wf(self, word_width: u64) -> bool {
        &&& self.range.wf(word_width)
        &&& self.default <= low_mask(self.range.width)
    }

    /// A writable field of `width` bits starting at bit `lo`, default zero.
    pub fn rw(lo: u64, width: u64) -> (f: BitField)
        requires
            1 <= width <= 64,
            lo + width <= 64,
        ensures
            f == (BitField { range: (BitRange { lo, width }), writable: true, default: 0 }),
            f.wf(64),
    {
        BitField { range: BitRange { lo, width }, writable: true, default: 0 }
    }

    /// A read-only field of `width` bits starting at bit `lo`.
    pub fn ro(lo: u64, width: u64) -> (f: BitField)
        requires
            1 <= width <= 64,
            lo + width <= 64,
        ensures
            f == (BitField { range: (BitRange { lo, width }), writable: false, default: 0 }),
            f.wf(64),
    {
        BitField { range: BitRange { lo, width }, writable: false, default: 0 }
    }

    /// A writable one-bit flag at bit `lo`, default clear.
    pub fn flag(lo: u64) -> (f: BitField)
        requires
            lo < 64,
        ensures
            f == (BitField { range: (BitRange { lo, width: 1 }), writable: true, default: 0 }),
            f.wf(64),
    {
        BitField { range: BitRange { lo, width: 1 }, writable: true, default: 0 }
    }

    /// A read-only one-bit flag at bit `lo`.
    pub fn flag_ro(lo: u64) -> (f: BitField)
        requires
            lo < 64,
        ensures
            f == (BitField { range: (BitRange { lo, width: 1 }), writable: false, default: 0 }),
            f.wf(64),
    {
        BitField { range: BitRange { lo, width: 1 }, writable: false, default: 0 }
    }
}

/// The value held by the bits `lo .. lo + width` of `w`.
pub open spec fn bits_read(w: u64, lo: u64, width: u64) -> u64 {
    (w >> lo) & low_mask(width)
}

/// `w` with the bits `lo .. lo + width` replaced by the low bits of `v`.
pub open spec fn bits_write(w: u64, lo: u64, width: u64, v: u64) -> u64 {
    (w & !(low_mask(width) << lo)) | ((v & low_mask(width)) << lo)
}

pub open spec fn range_read(w: u64, r: BitRange) -> u64 {
    bits_read(w, r.lo, r.width)
}

pub open spec fn range_write(w: u64, r: BitRange, v: u64) -> u64 {
    bits_write(w, r.lo, r.width, v)
}

/// Exec mirror of `low_mask`.
pub fn low_mask_exec(width: u64) -> (m: u64)
    requires
        1 <= width <= 64,
    ensures
        m == low_mask(width),
{
    0xffff_ffff_ffff_ffffu64 >> (64 - width)
}

/// Extract the value of the bit range `r` from the word `w`.
pub fn read_range(w: u64, r: BitRange) -> (v: u64)
    requires
        r.wf(64),
    ensures
        v == range_read(w, r),
        v <= low_mask(r.width),
{
    proof {
        lemma_read_le_mask(w, r.lo, r.width);
    }
    (w >> r.lo) & low_mask_exec(r.width)
}

/// Replace the bit range `r` of the word `w` by `v`, leaving every bit
/// outside the range as it was.
pub fn write_range(w: u64, r: BitRange, v: u64) -> (w2: u64)
    requires
        r.wf(64),
        v <= low_mask(r.width),
    ensures
        w2 == range_write(w, r, v),
{
    let m = low_mask_exec(r.width);
    (w & !(m << r.lo)) | ((v & m) << r.lo)
}

/// The masks of the word widths this layer stores registers in, and of a
/// one-bit field, written out as numbers.
pub proof fn lemma_low_mask_values()
    ensures
        low_mask(64) == 0xffff_ffff_ffff_ffffu64,
        low_mask(32) == 0xffff_ffffu64,
        low_mask(16) == 0xffffu64,
        low_mask(13) == 0x1fffu64,
        low_mask(12) == 0xfffu64,
        low_mask(8) == 0xffu64,
        low_mask(4) == 0xfu64,
        low_mask(2) == 0x3u64,
        low_mask(1) == 0x1u64,
{
    assert(low_mask(64) == 0xffff_ffff_ffff_ffffu64 && low_mask(32) == 0xffff_ffffu64 && low_mask(
        16,
    ) == 0xffffu64 && low_mask(13) == 0x1fffu64 && low_mask(12) == 0xfffu64 && low_mask(8)
        == 0xffu64 && low_mask(4) == 0xfu64 && low_mask(2) == 0x3u64 && low_mask(1)
        == 0x1u64) by (bit_vector);
}

/// Masking keeps a value at or below the mask.
pub proof fn lemma_and_le(x: u64, m: u64)
    ensures
        x & m <= m,
{
    assert(x & m <= m) by (bit_vector);
}

/// Reading a range yields a value no larger than its mask of low bits.
pub proof fn lemma_read_le_mask(w: u64, lo: u64, width: u64)
    requires
        lo < 64,
        1 <= width <= 64,
    ensures
        bits_read(w, lo, width) <= low_mask(width),
{
    assert(bits_read(w, lo, width) <= low_mask(width)) by (bit_vector)
        requires
            lo < 64,
            1 <= width <= 64,
    ;
}

/// Writing a value into a range and reading the range back yields the value.
pub proof fn lemma_write_read(w: u64, r: BitRange, v: u64)
    requires
        r.wf(64),
        v <= low_mask(r.width),
    ensures
        range_read(range_write(w, r, v), r) == v,
{
    let lo = r.lo;
    let width = r.width;
    assert(bits_read(bits_write(w, lo, width, v), lo, width) == v) by (bit_vector)
        requires
            lo + width <= 64,
            1 <= width <= 64,
            v <= low_mask(width),
    ;
}

/// Writing a range changes nothing outside the range's mask.
pub proof fn lemma_write_outside_mask(w: u64, r: BitRange, v: u64)
    requires
        r.wf(64),
    ensures
        range_write(w, r, v) & !r.mask() == w & !r.mask(),
{
    let lo = r.lo;
    let width = r.width;
    assert(bits_write(w, lo, width, v) & !(low_mask(width) << lo) == w & !(low_mask(width)
        << lo)) by (bit_vector)
        requires
            lo + width <= 64,
            1 <= width <= 64,
    ;
}

/// What a range reads depends only on the bits under the range's mask.
pub proof fn lemma_read_of_masked(w1: u64, w2: u64, r: BitRange)
    requires
        r.wf(64),
        w1 & r.mask() == w2 & r.mask(),
    ensures
        range_read(w1, r) == range_read(w2, r),
{
    let lo = r.lo;
    let width = r.width;
    assert(bits_read(w1, lo, width) == bits_read(w2, lo, width)) by (bit_vector)
        requires
            lo + width <= 64,
            1 <= width <= 64,
            w1 & (low_mask(width) << lo) == w2 & (low_mask(width) << lo),
    ;
}

/// Writing one range leaves the value of any disjoint range as it was.
pub proof fn lemma_write_preserves_disjoint(w: u64, r: BitRange, v: u64, other: BitRange)
    requires
        r.wf(64),
        other.wf(64),
        r.mask() & other.mask() == 0,
    ensures
        range_read(range_write(w, r, v), other) == range_read(w, other),
{
    lemma_write_outside_mask(w, r, v);
    let w2 = range_write(w, r, v);
    let lo = r.lo;
    let width = r.width;
    let olo = other.lo;
    let owidth = other.width;
    assert(w2 & (low_mask(owidth) << olo) == w & (low_mask(owidth) << olo)) by (bit_vector)
        requires
            w2 & !(low_mask(width) << lo) == w & !(low_mask(width) << lo),
            (low_mask(width) << lo) & (low_mask(owidth) << olo) == 0,
    ;
    lemma_read_of_masked(w2, w, other);
}

/// Pre-masking the value written into a range changes nothing: the write
/// masks it anyway.
pub proof fn lemma_write_masked_value(w: u64, r: BitRange, v: u64)
    requires
        r.wf(64),
    ensures
        range_write(w, r, v & low_mask(r.width)) == range_write(w, r, v),
{
    let lo = r.lo;
    let width = r.width;
    assert(bits_write(w, lo, width, v & low_mask(width)) == bits_write(w, lo, width, v))
        by (bit_vector)
        requires
            lo + width <= 64,
            1 <= width <= 64,
    ;
}

/// A value no larger than a mask of low bits is unchanged by that mask.
pub proof fn lemma_le_mask_identity(v: u64, width: u64)
    requires
        1 <= width <= 64,
        v <= low_mask(width),
    ensures
        v & low_mask(width) == v,
{
    assert(v & low_mask(width) == v) by (bit_vector)
        requires
            1 <= width <= 64,
            v <= low_mask(width),
    ;
}

/// A word that fits in `word_width` bits still fits after a write to a range
/// that lies inside those bits.
pub proof fn lemma_write_fits(w: u64, r: BitRange, v: u64, word_width: u64)
    requires
        r.wf(word_width),
        w <= low_mask(word_width),
    ensures
        range_write(w, r, v) <= low_mask(word_width),
{
    let lo = r.lo;
    let width = r.width;
    assert(bits_write(w, lo, width, v) <= low_mask(word_width)) by (bit_vector)
        requires
            lo + width <= word_width,
            1 <= width <= 64,
            word_width <= 64,
            w <= low_mask(word_width),
    ;
}

/// Law: a field write round-trips and touches nothing else. Writing `v`
/// into the field and reading the field back yields `v`, and the whole
/// word is unchanged outside the field's mask.
pub proof fn lemma_field_round_trip(w: u64, f: BitField, v: u64)
    requires
        f.wf(64),
        v <= low_mask(f.range.width),
    ensures
        range_read(range_write(w, f.range, v), f.range) == v,
        range_write(w, f.range, v) & !f.range.mask() == w & !f.range.mask(),
{
    lemma_write_read(w, f.range, v);
    lemma_write_outside_mask(w, f.range, v);
}

/// Law: reverting a field sets exactly the field's bits to its
/// architectural default, whatever they held before, and leaves every bit
/// outside the field's mask unchanged.
pub proof fn lemma_revert_default(w: u64, f: BitField)
    requires
        f.wf(64),
    ensures
        range_read(range_write(w, f.range, f.default), f.range) == f.default,
        range_write(w, f.range, f.default) & !f.range.mask() == w & !f.range.mask(),
{
    lemma_field_round_trip(w, f, f.default);
}

/// A composite bit-field descriptor: a union of disjoint sub-ranges. The
/// first sub-range holds the lowest bits of the logical value, each later
/// one the next bits up.
pub struct CompositeField {
    pub parts: Vec<BitRange>,
    pub writable: bool,
}

impl CompositeField {
    pub open spec fn wf(&self, word_width: u64) -> bool {
        parts_wf(self.parts@, word_width) && self.parts@.len() >= 1
    }

    /// The number of bits of the logical value.
    pub open spec fn value_width(&self) -> int {
        total_width(self.parts@)
    }
}

/// The summed width of the sub-ranges.
pub open spec fn total_width(parts: Seq<BitRange>) -> int
    decreases parts.len(),
{
    if parts.len() == 0 {
        0
    } else {
        parts[0].width + total_width(parts.drop_first())
    }
}

/// Every sub-range lies in the word, their widths sum to at most 64, and
/// no two sub-ranges overlap.
pub open spec fn parts_wf(parts: Seq<BitRange>, word_width: u64) -> bool {
    &&& forall|i: int| 0 <= i < parts.len() ==> (#[trigger] parts[i]).wf(word_width)
    &&& total_width(parts) <= 64
    &&& forall|i: int, j: int|
        0 <= i < j < parts.len() ==> (#[trigger] parts[i]).mask() & (#[trigger] parts[j]).mask()
            == 0
}

/// The union of the sub-ranges' masks.
pub open spec fn comp_mask(parts: Seq<BitRange>) -> u64
    decreases parts.len(),
{
    if parts.len() == 0 {
        0u64
    } else {
        parts[0].mask() | comp_mask(parts.drop_first())
    }
}

/// The logical value a composite field reads: each sub-range's bits in
/// turn, the first in the lowest position.
pub open spec fn comp_read(w: u64, parts: Seq<BitRange>) -> u64
    decreases parts.len(),
{
    if parts.len() == 0 {
        0u64
    } else if parts[0].width >= 64 {
        range_read(w, parts[0])
    } else {
        range_read(w, parts[0]) | (comp_read(w, parts.drop_first()) << parts[0].width)
    }
}

/// The word after a composite write: the low bits of `v` into the first
/// sub-range, the next bits into the next, and so on.
pub open spec fn comp_write(w: u64, parts: Seq<BitRange>, v: u64) -> u64
    decreases parts.len(),
{
    if parts.len() == 0 {
        w
    } else if parts[0].width >= 64 {
        range_write(w, parts[0], v)
    } else {
        comp_write(range_write(w, parts[0], v), parts.drop_first(), v >> parts[0].width)
    }
}

/// The summed width is never negative.
pub proof fn lemma_total_width_nonneg(parts: Seq<BitRange>)
    ensures
        total_width(parts) >= 0,
    decreases parts.len(),
{
    if parts.len() > 0 {
        lemma_total_width_nonneg(parts.drop_first());
    }
}

/// Dropping the first sub-range keeps the rest well-formed.
pub proof fn lemma_parts_wf_drop(parts: Seq<BitRange>, word_width: u64)
    requires
        parts_wf(parts, word_width),
        parts.len() >= 1,
    ensures
        parts_wf(parts.drop_first(), word_width),
        total_width(parts.drop_first()) == total_width(parts) - parts[0].width,
{
    let rest = parts.drop_first();
    assert forall|i: int| 0 <= i < rest.len() implies (#[trigger] rest[i]).wf(word_width) by {
        assert(rest[i] == parts[i + 1]);
    }
    assert forall|i: int, j: int| 0 <= i < j < rest.len() implies (#[trigger] rest[i]).mask() & (
    #[trigger] rest[j]).mask() == 0 by {
        assert(rest[i] == parts[i + 1]);
        assert(rest[j] == parts[j + 1]);
    }
}

/// Disjoint masks stay disjoint in either order.
proof fn lemma_and_zero_comm(a: u64, b: u64)
    requires
        a & b == 0,
    ensures
        b & a == 0,
{
    assert(b & a == 0) by (bit_vector)
        requires
            a & b == 0,
    ;
}

/// A composite write to sub-ranges that are all disjoint from a range
/// leaves that range's value as it was.
pub proof fn lemma_comp_write_preserves_disjoint(
    w: u64,
    parts: Seq<BitRange>,
    v: u64,
    other: BitRange,
)
    requires
        parts_wf(parts, 64),
        other.wf(64),
        forall|i: int| 0 <= i < parts.len() ==> (#[trigger] parts[i]).mask() & other.mask() == 0,
    ensures
        range_read(comp_write(w, parts, v), other) == range_read(w, other),
    decreases parts.len(),
{
    if parts.len() == 0 {
    } else if parts[0].width >= 64 {
        lemma_write_preserves_disjoint(w, parts[0], v, other);
    } else {
        let w2 = range_write(w, parts[0], v);
        lemma_write_preserves_disjoint(w, parts[0], v, other);
        lemma_parts_wf_drop(parts, 64);
        let rest = parts.drop_first();
        assert forall|i: int| 0 <= i < rest.len() implies (#[trigger] rest[i]).mask()
            & other.mask() == 0 by {
            assert(rest[i] == parts[i + 1]);
        }
        lemma_comp_write_preserves_disjoint(w2, rest, v >> parts[0].width, other);
    }
}

/// Chaining two masked-equality steps masks with the union.
proof fn lemma_mask_chain(x: u64, y: u64, z: u64, m1: u64, m2: u64)
    requires
        y & !m1 == x & !m1,
        z & !m2 == y & !m2,
    ensures
        z & !(m1 | m2) == x & !(m1 | m2),
{
    assert(z & !(m1 | m2) == x & !(m1 | m2)) by (bit_vector)
        requires
            y & !m1 == x & !m1,
            z & !m2 == y & !m2,
    ;
}

/// A composite write changes nothing outside the union of its sub-ranges'
/// masks.
pub proof fn lemma_comp_write_outside_mask(w: u64, parts: Seq<BitRange>, v: u64)
    requires
        parts_wf(parts, 64),
    ensures
        comp_write(w, parts, v) & !comp_mask(parts) == w & !comp_mask(parts),
    decreases parts.len(),
{
    if parts.len() == 0 {
        let z = comp_mask(parts);
        assert(w & !z == w & !z);
    } else if parts[0].width >= 64 {
        lemma_write_outside_mask(w, parts[0], v);
        let w2 = range_write(w, parts[0], v);
        let m1 = parts[0].mask();
        let m2 = comp_mask(parts.drop_first());
        assert(w2 & !(m1 | m2) == w & !(m1 | m2)) by (bit_vector)
            requires
                w2 & !m1 == w & !m1,
        ;
    } else {
        let w2 = range_write(w, parts[0], v);
        lemma_write_outside_mask(w, parts[0], v);
        lemma_parts_wf_drop(parts, 64);
        lemma_comp_write_outside_mask(w2, parts.drop_first(), v >> parts[0].width);
        lemma_mask_chain(
            w,
            w2,
            comp_write(w2, parts.drop_first(), v >> parts[0].width),
            parts[0].mask(),
            comp_mask(parts.drop_first()),
        );
    }
}

/// Splitting a value at a bit position and reassembling it is the
/// identity.
proof fn lemma_split_value(v: u64, width: u64)
    requires
        1 <= width < 64,
    ensures
        (v & low_mask(width)) | ((v >> width) << width) == v,
{
    assert((v & low_mask(width)) | ((v >> width) << width) == v) by (bit_vector)
        requires
            1 <= width < 64,
    ;
}

/// A value that fits the whole composite still fits the rest after the
/// first sub-range's bits are shifted away.
proof fn lemma_shr_le_mask(v: u64, t: u64, width: u64)
    requires
        1 <= width < t <= 64,
        v <= low_mask(t),
    ensures
        (v >> width) <= low_mask((t - width) as u64),
{
    assert((v >> width) <= low_mask((t - width) as u64)) by (bit_vector)
        requires
            1 <= width < t <= 64,
            v <= low_mask(t),
    ;
}

/// Law: a composite write round-trips. Writing a value that fits the
/// summed width of the sub-ranges and reading the composite back yields
/// the value, whatever the word held before.
pub proof fn lemma_comp_round_trip(w: u64, parts: Seq<BitRange>, v: u64)
    requires
        parts_wf(parts, 64),
        parts.len() >= 1,
        v <= low_mask(total_width(parts) as u64),
    ensures
        comp_read(comp_write(w, parts, v), parts) == v,
    decreases parts.len(),
{
    let r0 = parts[0];
    let w0 = r0.width;
    let t = total_width(parts) as u64;
    lemma_parts_wf_drop(parts, 64);
    lemma_total_width_nonneg(parts.drop_first());
    lemma_and_le(v, low_mask(w0));
    let w2 = range_write(w, r0, v);
    if parts.len() == 1 {
        assert(total_width(parts.drop_first()) == 0);
        lemma_write_read(w, r0, v & low_mask(w0));
        lemma_write_masked_value(w, r0, v);
        lemma_le_mask_identity(v, w0);
        if w0 < 64 {
            assert(comp_read(w2, parts.drop_first()) == 0);
            assert(v | (0u64 << w0) == v) by (bit_vector)
                requires
                    w0 < 64,
            ;
            assert(comp_write(w2, parts.drop_first(), v >> w0) == w2);
            assert(comp_write(w, parts, v) == w2);
            assert(range_read(w2, r0) == v);
            assert(comp_read(w2, parts) == v);
        } else {
            assert(comp_write(w, parts, v) == w2);
            assert(comp_read(w2, parts) == range_read(w2, r0));
            assert(comp_read(w2, parts) == v);
        }
    } else {
        let rest = parts.drop_first();
        // the remaining sub-ranges carry at least one bit, so the first
        // one cannot fill the word
        lemma_parts_wf_drop(rest, 64);
        lemma_total_width_nonneg(rest.drop_first());
        assert(rest[0].wf(64));
        assert(w0 < 64);
        let vrest = v >> w0;
        let wrest = comp_write(w2, rest, vrest);

        // the first sub-range reads back the value's low bits
        assert forall|i: int| 0 <= i < rest.len() implies (#[trigger] rest[i]).mask() & r0.mask()
            == 0 by {
            assert(parts[0].mask() & parts[i + 1].mask() == 0);
            lemma_and_zero_comm(parts[0].mask(), parts[i + 1].mask());
        }
        lemma_comp_write_preserves_disjoint(w2, rest, vrest, r0);
        lemma_write_read(w, r0, v & low_mask(w0));
        lemma_write_masked_value(w, r0, v);
        lemma_and_le(v, low_mask(w0));
        lemma_le_mask_identity(v & low_mask(w0), w0);
        assert(range_read(wrest, r0) == v & low_mask(w0));

        // the rest reads back the value's high bits
        lemma_shr_le_mask(v, t, w0);
        lemma_comp_round_trip(w2, rest, vrest);
        assert(comp_read(wrest, rest) == vrest);

        lemma_split_value(v, w0);
    }
}

/// Read a composite field out of a word, starting at sub-range `i`: each
/// sub-range in turn, the first occupying the lowest bits of the result.
pub fn read_composite_from(w: u64, parts: &Vec<BitRange>, i: usize) -> (v: u64)
    requires
        i <= parts@.len(),
        parts_wf(parts@.skip(i as int), 64),
    ensures
        v == comp_read(w, parts@.skip(i as int)),
    decreases parts@.len() - i,
{
    if i == parts.len() {
        proof {
            assert(parts@.skip(i as int) =~= Seq::<BitRange>::empty());
        }
        0
    } else {
        let r = parts[i];
        proof {
            assert(parts@.skip(i as int)[0] == parts@[i as int]);
        }
        let first = read_range(w, r);
        if r.width >= 64 {
            first
        } else {
            proof {
                lemma_parts_wf_drop(parts@.skip(i as int), 64);
                assert(parts@.skip(i as int).drop_first() =~= parts@.skip(i as int + 1));
            }
            let rest = read_composite_from(w, parts, i + 1);
            first | (rest << r.width)
        }
    }
}

/// Write a composite field into a word, starting at sub-range `i`: the
/// low bits of `v` into sub-range `i`, the next bits into the next.
pub fn write_composite_from(w: u64, parts: &Vec<BitRange>, i: usize, v: u64) -> (w2: u64)
    requires
        i <= parts@.len(),
        parts_wf(parts@.skip(i as int), 64),
    ensures
        w2 == comp_write(w, parts@.skip(i as int), v),
    decreases parts@.len() - i,
{
    if i == parts.len() {
        proof {
            assert(parts@.skip(i as int) =~= Seq::<BitRange>::empty());
        }
        w
    } else {
        let r = parts[i];
        proof {
            assert(parts@.skip(i as int)[0] == parts@[i as int]);
        }
        let m = low_mask_exec(r.width);
        proof {
            lemma_and_le(v, low_mask(r.width));
            lemma_write_masked_value(w, r, v);
        }
        let w1 = write_range(w, r, v & m);
        if r.width >= 64 {
            w1
        } else {
            proof {
                lemma_parts_wf_drop(parts@.skip(i as int), 64);
                assert(parts@.skip(i as int).drop_first() =~= parts@.skip(i as int + 1));
            }
            write_composite_from(w1, parts, i + 1, v >> r.width)
        }
    }
}

/// Read a whole composite field out of a word.
pub fn read_composite(w: u64, f: &CompositeField) -> (v: u64)
    requires
        f.wf(64),
    ensures
        v == comp_read(w, f.parts@),
{
    proof {
        assert(f.parts@.skip(0) =~= f.parts@);
    }
    read_composite_from(w, &f.parts, 0)
}

/// Write a whole composite field into a word.
pub fn write_composite(w: u64, f: &CompositeField, v: u64) -> (w2: u64)
    requires
        f.wf(64),
        f.writable,
    ensures
        w2 == comp_write(w, f.parts@, v),
{
    proof {
        assert(f.parts@.skip(0) =~= f.parts@);
    }
    write_composite_from(w, &f.parts, 0, v)
}

} // verus!
