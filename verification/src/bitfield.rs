//! Bit fields inside a 32-bit register word.
//!
//! A field is a run of adjacent bits, named by where it starts and how wide
//! it is. `unpack` reads the field out of a word and `pack` writes a value
//! into it; every named register operation of this crate is one or two such
//! calls. The proof functions below are the facts about the pair that the
//! rest of the crate rests on.

use vstd::arithmetic::power2::{lemma2_to64, lemma2_to64_rest, pow2};
use vstd::bits::{
    lemma_u32_low_bits_mask_is_mod, lemma_u32_pow2_no_overflow, lemma_u32_shl_is_mul,
    lemma_u32_shr_is_div, low_bits_mask,
};
use vstd::prelude::*;

verus! {

/// The highest index that a per-port or per-channel field may have.
pub const MAX_INDEX: u8 = 15;

/// The word whose `width` lowest bits are set and no others.
pub open spec fn low_mask(width: u32) -> u32 {
    if width >= 32 {
        0xFFFF_FFFFu32
    } else {
        !(0xFFFF_FFFFu32 << width)
    }
}

/// The word in which exactly the bits of a field of `width` bits at `offset`
/// are set.
pub open spec fn span_mask(offset: u32, width: u32) -> u32 {
    low_mask(width) << offset
}

/// The value that a field of `width` bits at `offset` holds in `word`.
pub open spec fn raw_unpacked(word: u32, offset: u32, width: u32) -> u32 {
    (word >> offset) & low_mask(width)
}

/// `word` with the field of `width` bits at `offset` replaced by the low
/// bits of `value`.
pub open spec fn raw_packed(word: u32, offset: u32, width: u32, value: u32) -> u32 {
    (word & !span_mask(offset, width)) | ((value << offset) & span_mask(offset, width))
}

/// Whether bit `index` of `word` is set.
pub open spec fn bit(word: u32, index: u32) -> bool {
    (word >> index) & 1 == 1
}

/// Whether `index` may select a per-port field: it is at most 15.
pub open spec fn valid_index_spec(index: u8) -> bool {
    index <= MAX_INDEX
}

/// Whether `index` may select a per-port field: it is at most 15. An
/// operation that takes an index is not to be called with any other.
#[verifier::when_used_as_spec(valid_index_spec)]
pub fn valid_index(index: u8) -> (valid: bool)
    ensures
        valid == valid_index_spec(index),
{
    index <= MAX_INDEX
}

/// Where a field lives inside a register word.
#[derive(Clone, Copy, Debug, PartialEq, Eq, Structural)]
pub struct Bitfield {
    /// Position of the field's lowest bit.
    pub offset: u32,
    /// Number of bits of the field.
    pub width: u32,
}

impl Bitfield {
    /// The field has at least one bit and lies inside the word.
    pub open spec fn wf(self) -> bool {
        1 <= self.width && self.offset + self.width <= 32
    }

    /// The field of `width` bits that starts at bit `offset`.
    pub open spec fn at_spec(offset: u32, width: u32) -> Bitfield {
        Bitfield { offset, width }
    }

    /// The one-bit field at bit `position`.
    pub open spec fn flag_spec(position: u32) -> Bitfield {
        Bitfield { offset: position, width: 1 }
    }

    /// The `index`-th of the fields of `width` bits that fill a word from
    /// bit 0 upwards: it starts at bit `index * width`.
    pub open spec fn indexed_spec(width: u32, index: u8) -> Bitfield {
        Bitfield { offset: (index * width) as u32, width }
    }

    /// The largest value that the field can hold.
    pub open spec fn max_value(self) -> u32 {
        low_mask(self.width)
    }

    /// Whether `value` can be stored in the field without loss.
    pub open spec fn fits(self, value: u32) -> bool {
        value <= self.max_value()
    }

    /// The word in which exactly the field's bits are set.
    pub open spec fn span(self) -> u32 {
        span_mask(self.offset, self.width)
    }

    /// Whether bit `index` of a word belongs to the field.
    pub open spec fn covers(self, index: u32) -> bool {
        self.offset <= index && index < self.offset + self.width
    }

    /// The two fields share no bit.
    pub open spec fn disjoint(self, other: Bitfield) -> bool {
        self.offset + self.width <= other.offset || other.offset + other.width <= self.offset
    }

    /// The value that the field holds in `word`.
    pub open spec fn unpacked(self, word: u32) -> u32 {
        raw_unpacked(word, self.offset, self.width)
    }

    /// `word` with the field replaced by the low bits of `value`.
    pub open spec fn packed(self, word: u32, value: u32) -> u32 {
        raw_packed(word, self.offset, self.width, value)
    }

    /// Whether the one-bit field at `position` is set in `word`.
    pub open spec fn is_set(position: u32, word: u32) -> bool {
        Bitfield::flag_spec(position).unpacked(word) == 1
    }

    /// `word` with the one-bit field at `position` set or cleared.
    pub open spec fn with_flag(position: u32, word: u32, on: bool) -> u32 {
        Bitfield::flag_spec(position).packed(word, if on { 1u32 } else { 0u32 })
    }

    /// The field of `width` bits that starts at bit `offset`.
    #[verifier::when_used_as_spec(at_spec)]
    pub fn at(offset: u32, width: u32) -> (field: Bitfield)
        requires
            1 <= width,
            offset + width <= 32,
        ensures
            field == Bitfield::at_spec(offset, width),
            field.wf(),
    {
        Bitfield { offset, width }
    }

    /// The one-bit field at bit `position`.
    #[verifier::when_used_as_spec(flag_spec)]
    pub fn flag(position: u32) -> (field: Bitfield)
        requires
            position < 32,
        ensures
            field == Bitfield::flag_spec(position),
            field.wf(),
    {
        Bitfield { offset: position, width: 1 }
    }

    /// The `index`-th of the fields of `width` bits that fill a word from
    /// bit 0 upwards.
    #[verifier::when_used_as_spec(indexed_spec)]
    pub fn indexed(width: u32, index: u8) -> (field: Bitfield)
        requires
            valid_index(index),
            1 <= width,
            index * width + width <= 32,
        ensures
            field == Bitfield::indexed_spec(width, index),
            field.wf(),
    {
        let position: u32 = index as u32;
        Bitfield { offset: position * width, width }
    }

    /// The word in which exactly the field's bits are set.
    pub fn mask(self) -> (mask: u32)
        requires
            self.wf(),
        ensures
            mask == self.span(),
    {
        let low: u32 = if self.width >= 32 {
            0xFFFF_FFFFu32
        } else {
            !(0xFFFF_FFFFu32 << self.width)
        };
        low << self.offset
    }
}

/// `after` is `before` with the one bit at `position` set to `on`.
pub open spec fn flag_set_to(before: u32, after: u32, position: u32, on: bool) -> bool {
    &&& after == Bitfield::with_flag(position, before, on)
    &&& forall|i: u32| i < 32 ==> #[trigger] bit(after, i) == (if i == position {
        on
    } else {
        bit(before, i)
    })
}

/// `after` is `before` with the field set to `code`, which it then holds,
/// and with every bit outside the field as it was.
pub open spec fn field_set_to(before: u32, after: u32, field: Bitfield, code: u32) -> bool {
    &&& after == field.packed(before, code)
    &&& field.unpacked(after) == code
    &&& forall|i: u32| i < 32 && !field.covers(i) ==> #[trigger] bit(after, i) == bit(before, i)
}

/// Reads the field out of `word`.
pub fn unpack(word: u32, field: Bitfield) -> (value: u32)
    requires
        field.wf(),
    ensures
        value == field.unpacked(word),
        field.fits(value),
        forall|i: u32|
            i < 32 ==> #[trigger] bit(value, i) == (i < field.width && bit(
                word,
                (i + field.offset) as u32,
            )),
{
    proof {
        lemma_unpack_in_range(field, word);
        lemma_unpack_bits(field, word);
    }
    let low: u32 = if field.width >= 32 {
        0xFFFF_FFFFu32
    } else {
        !(0xFFFF_FFFFu32 << field.width)
    };
    (word >> field.offset) & low
}

/// Writes the low bits of `value` into the field of `word`: the field's
/// span is cleared, the shifted value is put in its place, and every bit
/// outside the span stays as it was.
pub fn pack(word: u32, field: Bitfield, value: u32) -> (packed: u32)
    requires
        field.wf(),
    ensures
        packed == field.packed(word, value),
        field.unpacked(packed) == value & field.max_value(),
        field.fits(value) ==> field.unpacked(packed) == value,
        packed & !field.span() == word & !field.span(),
        forall|i: u32| i < 32 ==> #[trigger] bit(packed, i) == (if field.covers(i) {
            bit(value, (i - field.offset) as u32)
        } else {
            bit(word, i)
        }),
{
    proof {
        lemma_pack_then_unpack(field, word, value);
        lemma_pack_keeps_outside(field, word, value);
        lemma_pack_bits(field, word, value);
    }
    let mask: u32 = field.mask();
    (word & !mask) | ((value << field.offset) & mask)
}

/// Whether the bit at `position` is set in `word`.
pub fn read_flag(word: u32, position: u32) -> (on: bool)
    requires
        position < 32,
    ensures
        on == Bitfield::is_set(position, word),
        on == bit(word, position),
{
    proof {
        lemma_flag_is_bit(position, word);
    }
    unpack(word, Bitfield::flag(position)) == 1
}

/// Sets or clears the bit at `position` of `word` and leaves the others.
pub fn write_flag(word: u32, position: u32, on: bool) -> (written: u32)
    requires
        position < 32,
    ensures
        written == Bitfield::with_flag(position, word, on),
        Bitfield::is_set(position, written) == on,
        forall|i: u32| i < 32 ==> #[trigger] bit(written, i) == (if i == position {
            on
        } else {
            bit(word, i)
        }),
{
    proof {
        lemma_flag_written(position, word, on);
    }
    let value: u32 = if on {
        1
    } else {
        0
    };
    pack(word, Bitfield::flag(position), value)
}

/// What the masks of the widths in use are, as numbers.
pub proof fn lemma_mask_values()
    ensures
        low_mask(1) == 0x1,
        low_mask(2) == 0x3,
        low_mask(4) == 0xF,
        low_mask(24) == 0xFF_FFFF,
        low_mask(32) == 0xFFFF_FFFF,
{
    assert({
        &&& !(0xFFFF_FFFFu32 << 1u32) == 0x1
        &&& !(0xFFFF_FFFFu32 << 2u32) == 0x3
        &&& !(0xFFFF_FFFFu32 << 4u32) == 0xF
        &&& !(0xFFFF_FFFFu32 << 24u32) == 0xFF_FFFF
    }) by (bit_vector);
}

/// No bit of zero is set.
pub proof fn lemma_no_bit_of_zero()
    ensures
        forall|i: u32| i < 32 ==> !#[trigger] bit(0u32, i),
{
    assert(forall|i: u32| i < 32 ==> !#[trigger] bit(0u32, i)) by (bit_vector);
}

/// The four lowest bits of a value, in arithmetic.
pub proof fn lemma_low_bits(value: u32)
    ensures
        bit(value, 0) == (value % 2 == 1),
        bit(value, 1) == ((value / 2) % 2 == 1),
        bit(value, 2) == ((value / 4) % 2 == 1),
        bit(value, 3) == ((value / 8) % 2 == 1),
{
    assert({
        &&& bit(value, 0) == (value % 2 == 1)
        &&& bit(value, 1) == ((value / 2) % 2 == 1)
        &&& bit(value, 2) == ((value / 4) % 2 == 1)
        &&& bit(value, 3) == ((value / 8) % 2 == 1)
    }) by (bit_vector);
}

/// A value below two to the power of the width fits the field.
pub proof fn lemma_small_values_fit(width: u32, value: u32)
    requires
        1 <= width <= 32,
    ensures
        value <= low_mask(width) <==> value & low_mask(width) == value,
        width < 32 ==> (value <= low_mask(width) <==> value < (1u32 << width)),
{
    assert({
        &&& value <= low_mask(width) <==> value & low_mask(width) == value
        &&& width < 32 ==> (value <= low_mask(width) <==> value < (1u32 << width))
    }) by (bit_vector)
        requires
            1 <= width <= 32,
    ;
}

/// What `unpack` returns always fits the field it was read from.
pub proof fn lemma_unpack_in_range(field: Bitfield, word: u32)
    requires
        field.wf(),
    ensures
        field.fits(field.unpacked(word)),
        field.unpacked(0) == 0,
{
    let offset = field.offset;
    let width = field.width;
    assert({
        &&& raw_unpacked(word, offset, width) <= low_mask(width)
        &&& raw_unpacked(0, offset, width) == 0
    }) by (bit_vector)
        requires
            1 <= width,
            offset + width <= 32,
    ;
}

/// Bit `i` of an unpacked value is bit `i + offset` of the word, for the
/// bits of the field, and clear above them.
pub proof fn lemma_unpack_bits(field: Bitfield, word: u32)
    requires
        field.wf(),
    ensures
        forall|i: u32|
            i < 32 ==> #[trigger] bit(field.unpacked(word), i) == (i < field.width && bit(
                word,
                (i + field.offset) as u32,
            )),
{
    let offset = field.offset;
    let width = field.width;
    assert(forall|i: u32|
        i < 32 ==> #[trigger] bit(raw_unpacked(word, offset, width), i) == (i < width && bit(
            word,
            (i + offset) as u32,
        ))) by (bit_vector)
        requires
            1 <= width,
            offset + width <= 32,
    ;
}

/// One shifted left is a power of two, and the mask of a width is one less
/// than the power of two of that width.
pub proof fn lemma_mask_is_power_less_one(width: u32)
    requires
        width < 32,
    ensures
        (1u32 << width) == pow2(width as nat),
        low_mask(width) == pow2(width as nat) - 1,
        low_mask(width) == low_bits_mask(width as nat),
{
    lemma_u32_pow2_no_overflow(width as nat);
    lemma_u32_shl_is_mul(1, width);
    assert(low_mask(width) == (1u32 << width) - 1) by (bit_vector)
        requires
            width < 32,
    ;
}

/// In arithmetic: the `width` lowest bits of a value are the value modulo
/// two to the power of the width.
pub proof fn lemma_low_bits_are_mod(value: u32, width: u32)
    requires
        1 <= width <= 32,
    ensures
        value & low_mask(width) == value as nat % pow2(width as nat),
{
    if width < 32 {
        lemma_mask_is_power_less_one(width);
        lemma_u32_pow2_no_overflow(width as nat);
        lemma_u32_low_bits_mask_is_mod(value, width as nat);
        assert(low_bits_mask(width as nat) as u32 == low_mask(width));
        assert(value & low_mask(width) == value % (pow2(width as nat) as u32));
    } else {
        lemma2_to64();
        lemma2_to64_rest();
        assert(value & 0xFFFF_FFFFu32 == value) by (bit_vector);
        assert(pow2(32) == 0x1_0000_0000);
    }
}

/// In arithmetic: the value of a field is the word divided by two to the
/// power of the offset, modulo two to the power of the width.
pub proof fn lemma_unpack_is_div_mod(field: Bitfield, word: u32)
    requires
        field.wf(),
    ensures
        field.unpacked(word) == (word as nat / pow2(field.offset as nat)) % pow2(
            field.width as nat,
        ),
{
    let shifted = word >> field.offset;
    lemma_u32_shr_is_div(word, field.offset);
    assert(shifted == word as nat / pow2(field.offset as nat));
    lemma_low_bits_are_mod(shifted, field.width);
}

/// In arithmetic: writing a field takes what the field held out of the
/// word and puts the value, modulo two to the power of the width, in its
/// place.
pub proof fn lemma_pack_is_replace(field: Bitfield, word: u32, value: u32)
    requires
        field.wf(),
    ensures
        field.packed(word, value) == word - field.unpacked(word) * pow2(field.offset as nat)
            + (value as nat % pow2(field.width as nat)) * pow2(field.offset as nat),
{
    let offset = field.offset;
    let width = field.width;
    let kept = value & low_mask(width);
    let held = raw_unpacked(word, offset, width);
    let unit = 1u32 << offset;
    assert(raw_packed(word, offset, width, value) == word - raw_unpacked(word, offset, width)
        * (1u32 << offset) + (value & low_mask(width)) * (1u32 << offset)) by (bit_vector)
        requires
            1 <= width,
            offset + width <= 32,
    ;
    assert(field.packed(word, value) == word - held * unit + kept * unit);
    lemma_mask_is_power_less_one(offset);
    assert(unit == pow2(offset as nat));
    lemma_low_bits_are_mod(value, width);
    assert(kept == value as nat % pow2(width as nat));
}

/// Reading a field back after writing it gives the value written, cut to
/// the field's width.
pub proof fn lemma_pack_then_unpack(field: Bitfield, word: u32, value: u32)
    requires
        field.wf(),
    ensures
        field.unpacked(field.packed(word, value)) == value & field.max_value(),
        field.fits(value) ==> field.unpacked(field.packed(word, value)) == value,
{
    let offset = field.offset;
    let width = field.width;
    assert(raw_unpacked(raw_packed(word, offset, width, value), offset, width) == value
        & low_mask(width)) by (bit_vector)
        requires
            1 <= width,
            offset + width <= 32,
    ;
    lemma_small_values_fit(width, value);
}

/// Writing a field changes no bit outside its span.
pub proof fn lemma_pack_keeps_outside(field: Bitfield, word: u32, value: u32)
    requires
        field.wf(),
    ensures
        field.packed(word, value) & !field.span() == word & !field.span(),
{
    let offset = field.offset;
    let width = field.width;
    assert(raw_packed(word, offset, width, value) & !span_mask(offset, width) == word
        & !span_mask(offset, width)) by (bit_vector)
        requires
            1 <= width,
            offset + width <= 32,
    ;
}

/// Bit by bit: inside the span a packed word holds the value's bits, and
/// outside it the old word's.
pub proof fn lemma_pack_bits(field: Bitfield, word: u32, value: u32)
    requires
        field.wf(),
    ensures
        forall|i: u32|
            i < 32 ==> #[trigger] bit(field.packed(word, value), i) == (if field.covers(i) {
                bit(value, (i - field.offset) as u32)
            } else {
                bit(word, i)
            }),
{
    let offset = field.offset;
    let width = field.width;
    assert(forall|i: u32|
        i < 32 ==> #[trigger] bit(raw_packed(word, offset, width, value), i) == (if offset <= i
            && i < offset + width {
            bit(value, (i - offset) as u32)
        } else {
            bit(word, i)
        })) by (bit_vector)
        requires
            1 <= width,
            offset + width <= 32,
    ;
}

/// Round trip on an empty word: a value that fits comes back exactly, and
/// every bit outside the field's span is still zero.
pub proof fn lemma_round_trip_on_zero(field: Bitfield, value: u32)
    requires
        field.wf(),
        field.fits(value),
    ensures
        field.unpacked(field.packed(0, value)) == value,
        field.packed(0, value) & !field.span() == 0,
        forall|i: u32|
            i < 32 && !field.covers(i) ==> !#[trigger] bit(field.packed(0, value), i),
{
    lemma_pack_then_unpack(field, 0, value);
    lemma_pack_keeps_outside(field, 0, value);
    lemma_pack_bits(field, 0, value);
    let outside = !field.span();
    assert(0u32 & outside == 0) by (bit_vector);
    lemma_no_bit_of_zero();
}

/// Writing one field leaves the value of every field apart from it.
pub proof fn lemma_pack_keeps_other_field(field: Bitfield, other: Bitfield, word: u32, value: u32)
    requires
        field.wf(),
        other.wf(),
        field.disjoint(other),
    ensures
        other.unpacked(field.packed(word, value)) == other.unpacked(word),
{
    let offset = field.offset;
    let width = field.width;
    let other_offset = other.offset;
    let other_width = other.width;
    assert(raw_unpacked(raw_packed(word, offset, width, value), other_offset, other_width)
        == raw_unpacked(word, other_offset, other_width)) by (bit_vector)
        requires
            1 <= width,
            offset + width <= 32,
            1 <= other_width,
            other_offset + other_width <= 32,
            offset + width <= other_offset || other_offset + other_width <= offset,
    ;
}

/// Non-interference: after `first` is set to `v` and then a field apart
/// from it is set to `w`, `first` still holds `v`, and the other holds what
/// of `w` its width takes.
pub proof fn lemma_fields_do_not_interfere(
    first: Bitfield,
    second: Bitfield,
    word: u32,
    v: u32,
    w: u32,
)
    requires
        first.wf(),
        second.wf(),
        first.disjoint(second),
        first.fits(v),
    ensures
        first.unpacked(second.packed(first.packed(word, v), w)) == v,
        second.unpacked(second.packed(first.packed(word, v), w)) == w & second.max_value(),
        second.fits(w) ==> second.unpacked(second.packed(first.packed(word, v), w)) == w,
{
    let once = first.packed(word, v);
    lemma_pack_then_unpack(first, word, v);
    lemma_pack_keeps_other_field(second, first, once, w);
    lemma_pack_then_unpack(second, once, w);
}

/// Writes to two fields that share no bit can be made in either order.
pub proof fn lemma_disjoint_packs_commute(
    first: Bitfield,
    second: Bitfield,
    word: u32,
    v: u32,
    w: u32,
)
    requires
        first.wf(),
        second.wf(),
        first.disjoint(second),
    ensures
        second.packed(first.packed(word, v), w) == first.packed(second.packed(word, w), v),
{
    let offset = first.offset;
    let width = first.width;
    let other_offset = second.offset;
    let other_width = second.width;
    assert(raw_packed(raw_packed(word, offset, width, v), other_offset, other_width, w)
        == raw_packed(raw_packed(word, other_offset, other_width, w), offset, width, v))
        by (bit_vector)
        requires
            1 <= width,
            offset + width <= 32,
            1 <= other_width,
            other_offset + other_width <= 32,
            offset + width <= other_offset || other_offset + other_width <= offset,
    ;
}

/// A second write to a field replaces the first, and writing back what a
/// field holds changes nothing.
pub proof fn lemma_pack_overwrites(field: Bitfield, word: u32, v: u32, w: u32)
    requires
        field.wf(),
    ensures
        field.packed(field.packed(word, v), w) == field.packed(word, w),
        field.packed(word, field.unpacked(word)) == word,
{
    let offset = field.offset;
    let width = field.width;
    assert({
        &&& raw_packed(raw_packed(word, offset, width, v), offset, width, w) == raw_packed(
            word,
            offset,
            width,
            w,
        )
        &&& raw_packed(word, offset, width, raw_unpacked(word, offset, width)) == word
    }) by (bit_vector)
        requires
            1 <= width,
            offset + width <= 32,
    ;
}

/// A one-bit field is set exactly when its bit is.
pub proof fn lemma_flag_is_bit(position: u32, word: u32)
    requires
        position < 32,
    ensures
        Bitfield::is_set(position, word) == bit(word, position),
        Bitfield::flag(position).unpacked(word) <= 1,
{
    assert({
        &&& raw_unpacked(word, position, 1) == (word >> position) & 1
        &&& raw_unpacked(word, position, 1) <= 1
    }) by (bit_vector)
        requires
            position < 32,
    ;
}

/// After a flag is written it reads as written, and every other bit of the
/// word is as before.
pub proof fn lemma_flag_written(position: u32, word: u32, on: bool)
    requires
        position < 32,
    ensures
        Bitfield::is_set(position, Bitfield::with_flag(position, word, on)) == on,
        forall|i: u32|
            i < 32 ==> #[trigger] bit(Bitfield::with_flag(position, word, on), i) == (if i
                == position {
                on
            } else {
                bit(word, i)
            }),
        forall|other: u32|
            other < 32 && other != position ==> #[trigger] Bitfield::is_set(
                other,
                Bitfield::with_flag(position, word, on),
            ) == Bitfield::is_set(other, word),
{
    let field = Bitfield::flag(position);
    let value = if on { 1u32 } else { 0u32 };
    lemma_mask_values();
    lemma_pack_then_unpack(field, word, value);
    lemma_pack_bits(field, word, value);
    assert(bit(1u32, 0) && !bit(0u32, 0)) by (bit_vector);
    assert forall|other: u32| other < 32 && other != position implies #[trigger] Bitfield::is_set(
        other,
        Bitfield::with_flag(position, word, on),
    ) == Bitfield::is_set(other, word) by {
        lemma_pack_keeps_other_field(field, Bitfield::flag(other), word, value);
    }
}

/// Two fields of one width with different indices share no bit.
pub proof fn lemma_indexed_fields_disjoint(width: u32, i: u8, j: u8)
    requires
        1 <= width,
        i != j,
        i * width + width <= 32,
        j * width + width <= 32,
    ensures
        Bitfield::indexed(width, i).wf(),
        Bitfield::indexed(width, j).wf(),
        Bitfield::indexed(width, i).disjoint(Bitfield::indexed(width, j)),
{
    assert(i * width >= 0 && j * width >= 0) by (nonlinear_arith)
        requires
            width >= 1,
            i >= 0,
            j >= 0,
    ;
    if i < j {
        assert(i * width + width <= j * width) by (nonlinear_arith)
            requires
                i < j,
                width >= 1,
        ;
    } else {
        assert(j * width + width <= i * width) by (nonlinear_arith)
            requires
                j < i,
                width >= 1,
        ;
    }
}

/// A write to one of the indexed fields of a word: that field then holds
/// the value written, and each of the others holds what it held.
pub proof fn lemma_indexed_write(word: u32, width: u32, index: u8, value: u32)
    requires
        1 <= width,
        index * width + width <= 32,
    ensures
        Bitfield::indexed(width, index).unpacked(
            Bitfield::indexed(width, index).packed(word, value),
        ) == value & low_mask(width),
        forall|j: u8|
            j != index && j * width + width <= 32 ==> #[trigger] Bitfield::indexed(
                width,
                j,
            ).unpacked(Bitfield::indexed(width, index).packed(word, value)) == Bitfield::indexed(
                width,
                j,
            ).unpacked(word),
{
    let field = Bitfield::indexed(width, index);
    assert(index * width >= 0) by (nonlinear_arith)
        requires
            width >= 1,
            index >= 0,
    ;
    lemma_pack_then_unpack(field, word, value);
    assert forall|j: u8| j != index && j * width + width <= 32 implies #[trigger] Bitfield::indexed(
        width,
        j,
    ).unpacked(field.packed(word, value)) == Bitfield::indexed(width, j).unpacked(word) by {
        lemma_indexed_fields_disjoint(width, index, j);
        lemma_pack_keeps_other_field(field, Bitfield::indexed(width, j), word, value);
    }
}

} // verus!
