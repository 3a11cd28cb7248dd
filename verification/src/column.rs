//! The Arrow containers that the evaluators read and fill, as far as the
//! verifier needs to know them.
//!
//! Nothing in this module is proved. Each item states what the `arrow2`
//! crate documents about one of its types or functions, and the evaluators
//! are verified against these statements.

use arrow2::array::{BooleanArray, PrimitiveArray};
use arrow2::bitmap::MutableBitmap;
use arrow2::datatypes::DataType;
use vstd::prelude::*;

verus! {

/// A column of optional unsigned 64-bit integers: an `arrow2`
/// `PrimitiveArray<u64>`, which the verifier cannot take as it is because of
/// the trait that bounds its element type. The verifier sees nothing inside
/// it; what it holds is named by [`column_slots`].
#[verifier::external_body]
#[derive(Debug)]
pub struct UInt64Column {
    pub array: PrimitiveArray<u64>,
}

/// `arrow2::bitmap::MutableBitmap`, a growable sequence of bits.
#[verifier::external_type_specification]
#[verifier::external_body]
pub struct ExMutableBitmap(MutableBitmap);

/// `arrow2::array::BooleanArray`, an immutable column of optional booleans.
#[verifier::external_type_specification]
#[verifier::external_body]
pub struct ExBooleanArray(BooleanArray);

/// The slots of a column of unsigned 64-bit integers, in order: `Some` with
/// the value where the slot is valid, `None` where it is null.
pub uninterp spec fn column_slots(column: UInt64Column) -> Seq<Option<u64>>;

/// The bits of a bitmap, in order: as many as its length says, read from its
/// bytes from the first byte on, the lowest bit of each byte first.
pub uninterp spec fn bitmap_bits(bitmap: MutableBitmap) -> Seq<bool>;

/// The number of bytes that the buffer of a bitmap holds beyond those that
/// its bits need (one byte for every eight bits, the last one possibly
/// partly used). A bitmap made from bytes and a length may have such bytes;
/// one that was made empty and grown by `push` alone has none.
pub uninterp spec fn bitmap_spare_bytes(bitmap: MutableBitmap) -> nat;

/// The slots of a boolean column, in order: `Some` with the value where the
/// slot is valid, `None` where it is null.
pub uninterp spec fn boolean_slots(array: BooleanArray) -> Seq<Option<bool>>;

/// The column in which every slot is valid and holds the bit at its place.
pub open spec fn all_valid(bits: Seq<bool>) -> Seq<Option<bool>> {
    Seq::new(bits.len(), |i: int| Some(bits[i]))
}

/// `PrimitiveArray::len`: the number of slots of the column.
#[verifier::external_body]
pub(crate) fn column_len(column: &UInt64Column) -> (len: usize)
    ensures
        len == column_slots(*column).len(),
{
    column.array.len()
}

/// `PrimitiveArray::get`: the slot at `index`, which must lie inside the
/// column (the call panics otherwise).
#[verifier::external_body]
pub(crate) fn column_slot(column: &UInt64Column, index: usize) -> (slot: Option<u64>)
    requires
        index < column_slots(*column).len(),
    ensures
        slot == column_slots(*column)[index as int],
{
    column.array.get(index)
}

/// `MutableBitmap::with_capacity`: an empty bitmap, whatever the capacity
/// asked for. The capacity is reserved, not filled: the buffer holds no byte
/// yet, so none is spare.
pub assume_specification[ MutableBitmap::with_capacity ](capacity: usize) -> (bitmap: MutableBitmap)
    ensures
        bitmap_bits(bitmap) == Seq::<bool>::empty(),
        bitmap_spare_bytes(bitmap) == 0,
;

/// `MutableBitmap::push`: appends one bit and leaves the earlier bits as
/// they were, on a bitmap without spare bytes, and leaves it without spare
/// bytes.
///
/// The call adds a byte where the length is a multiple of eight and then
/// writes into the last byte of the buffer. That is the byte of the new bit
/// only where the buffer ends with the byte that the bits reach, which is
/// why spare bytes are ruled out. The bitmap counts its bits in a `usize`,
/// so there must also be room for one more.
pub assume_specification[ MutableBitmap::push ](bitmap: &mut MutableBitmap, value: bool)
    requires
        bitmap_spare_bytes(*old(bitmap)) == 0,
        bitmap_bits(*old(bitmap)).len() < usize::MAX,
    ensures
        bitmap_bits(*final(bitmap)) == bitmap_bits(*old(bitmap)).push(value),
        bitmap_spare_bytes(*final(bitmap)) == 0,
;

/// `BooleanArray::new` with the data type `Boolean`, the bitmap as values
/// and no validity: a column of as many slots as the bitmap has bits, each
/// of them valid and holding the bit at its place. The conversion of the
/// bitmap keeps its length and reads the same bits, whether or not the
/// buffer has spare bytes.
#[verifier::external_body]
pub(crate) fn boolean_array_of(bitmap: MutableBitmap) -> (array: BooleanArray)
    ensures
        boolean_slots(array) == all_valid(bitmap_bits(bitmap)),
{
    BooleanArray::new(DataType::Boolean, bitmap.into(), None)
}

} // verus!
