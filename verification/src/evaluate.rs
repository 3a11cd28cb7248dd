//! The two evaluators of a column: the mask, which holds one verdict for
//! each slot, and the single verdict on whether every value is prime.
//!
//! The two treat an absent slot differently. In the mask an absent slot
//! reads `false`; for the single verdict it is passed over.

use crate::column::{
    all_valid, bitmap_bits, bitmap_spare_bytes, boolean_array_of, boolean_slots, column_len,
    column_slot, column_slots, UInt64Column,
};
use crate::primality::{is_prime, is_prime_scalar};
use arrow2::array::BooleanArray;
use arrow2::bitmap::MutableBitmap;
use vstd::prelude::*;

verus! {

/// The bit of the mask for one slot: whether the value is prime, and `false`
/// where there is no value.
pub open spec fn mask_bit(slot: Option<u64>) -> bool {
    match slot {
        Some(number) => is_prime(number as int),
        None => false,
    }
}

/// The mask of a column: the bit of each slot, in the order of the slots.
pub open spec fn mask_of(slots: Seq<Option<u64>>) -> Seq<bool> {
    Seq::new(slots.len(), |i: int| mask_bit(slots[i]))
}

/// A slot refutes the claim that all values are prime when it holds a value
/// that is not prime. An absent slot refutes nothing.
pub open spec fn refutes(slot: Option<u64>) -> bool {
    match slot {
        Some(number) => !is_prime(number as int),
        None => false,
    }
}

/// Every value that is present in the column is prime.
pub open spec fn all_primes(slots: Seq<Option<u64>>) -> bool {
    forall|i: int| 0 <= i < slots.len() ==> !refutes(#[trigger] slots[i])
}

/// The bit that the mask holds for `slot`.
pub fn slot_verdict(slot: Option<u64>) -> (bit: bool)
    ensures
        bit == mask_bit(slot),
{
    match slot {
        Some(number) => is_prime_scalar(number),
        None => false,
    }
}

/// Whether `slot` holds a value that is not prime.
pub fn slot_refutes(slot: Option<u64>) -> (refuted: bool)
    ensures
        refuted == refutes(slot),
{
    match slot {
        Some(number) => !is_prime_scalar(number),
        None => false,
    }
}

/// The primality mask of a column: a boolean column of the same length and
/// order, without nulls, whose slot is `true` exactly where the column holds
/// a prime.
pub fn evaluate_mask(values: &UInt64Column) -> (mask: BooleanArray)
    ensures
        boolean_slots(mask) == all_valid(mask_of(column_slots(*values))),
        boolean_slots(mask).len() == column_slots(*values).len(),
        forall|i: int|
            0 <= i < boolean_slots(mask).len() ==> (#[trigger] boolean_slots(mask)[i]) is Some,
{
    let len: usize = column_len(values);
    let mut bitmap = MutableBitmap::with_capacity(len);
    let mut i: usize = 0;
    while i < len
        invariant
            len == column_slots(*values).len(),
            i <= len,
            bitmap_bits(bitmap) == mask_of(column_slots(*values).take(i as int)),
            bitmap_spare_bytes(bitmap) == 0,
        decreases len - i,
    {
        let bit = slot_verdict(column_slot(values, i));
        bitmap.push(bit);
        i += 1;
    }
    assert(column_slots(*values).take(len as int) == column_slots(*values));
    boolean_array_of(bitmap)
}

/// Whether every value in the column is prime. The slots are read in order,
/// absent slots are passed over, and the first value that is not prime ends
/// the reading.
pub fn evaluate_all(values: &UInt64Column) -> (all: bool)
    ensures
        all == all_primes(column_slots(*values)),
{
    let len: usize = column_len(values);
    let mut i: usize = 0;
    while i < len
        invariant
            len == column_slots(*values).len(),
            i <= len,
            forall|j: int| 0 <= j < i ==> !refutes(#[trigger] column_slots(*values)[j]),
        decreases len - i,
    {
        if slot_refutes(column_slot(values, i)) {
            return false;
        }
        i += 1;
    }
    true
}

/// On any column, every value that is present is prime exactly when the mask
/// is set at every slot that holds a value.
pub proof fn lemma_all_primes_iff_mask_set_where_present(slots: Seq<Option<u64>>)
    ensures
        all_primes(slots) <==> forall|i: int|
            0 <= i < slots.len() && slots[i] is Some ==> #[trigger] mask_of(slots)[i],
{
    if all_primes(slots) {
        assert forall|i: int| 0 <= i < slots.len() && slots[i] is Some implies #[trigger] mask_of(
            slots,
        )[i] by {
            assert(!refutes(slots[i]));
        }
    }
    if forall|i: int| 0 <= i < slots.len() && slots[i] is Some ==> #[trigger] mask_of(slots)[i] {
        assert forall|i: int| 0 <= i < slots.len() implies !refutes(#[trigger] slots[i]) by {
            if slots[i] is Some {
                assert(mask_of(slots)[i]);
            }
        }
    }
}

/// On a column without absent slots the two evaluators agree: every value
/// is prime exactly when every bit of the mask is set.
pub proof fn lemma_all_primes_iff_mask_all_set(slots: Seq<Option<u64>>)
    requires
        forall|i: int| 0 <= i < slots.len() ==> (#[trigger] slots[i]) is Some,
    ensures
        all_primes(slots) <==> forall|i: int|
            0 <= i < mask_of(slots).len() ==> #[trigger] mask_of(slots)[i],
{
    lemma_all_primes_iff_mask_set_where_present(slots);
    if forall|i: int| 0 <= i < slots.len() && slots[i] is Some ==> #[trigger] mask_of(slots)[i] {
        assert forall|i: int| 0 <= i < mask_of(slots).len() implies #[trigger] mask_of(slots)[i] by {
            assert(slots[i] is Some);
        }
    }
}

/// The same agreement, said of what the two evaluators return for one
/// column without absent slots: the single verdict is `true` exactly when
/// every slot of the mask holds `true`.
pub proof fn lemma_evaluators_agree(values: &UInt64Column, all: bool, mask: BooleanArray)
    requires
        forall|i: int|
            0 <= i < column_slots(*values).len() ==> (#[trigger] column_slots(*values)[i]) is Some,
        call_ensures(evaluate_all, (values,), all),
        call_ensures(evaluate_mask, (values,), mask),
    ensures
        all <==> forall|i: int|
            0 <= i < boolean_slots(mask).len() ==> #[trigger] boolean_slots(mask)[i] == Some(true),
{
    let slots = column_slots(*values);
    lemma_all_primes_iff_mask_all_set(slots);
    if all {
        assert forall|i: int| 0 <= i < boolean_slots(mask).len() implies #[trigger] boolean_slots(
            mask,
        )[i] == Some(true) by {
            assert(mask_of(slots)[i]);
        }
    }
    if forall|i: int|
        0 <= i < boolean_slots(mask).len() ==> #[trigger] boolean_slots(mask)[i] == Some(true) {
        assert forall|i: int| 0 <= i < mask_of(slots).len() implies #[trigger] mask_of(slots)[i] by {
            assert(boolean_slots(mask)[i] == Some(true));
        }
    }
}

/// The mask depends on the slots of the column and on nothing else: two
/// runs over columns with the same slots return masks with the same slots.
pub proof fn lemma_evaluate_mask_deterministic(
    first: &UInt64Column,
    second: &UInt64Column,
    first_mask: BooleanArray,
    second_mask: BooleanArray,
)
    requires
        column_slots(*first) == column_slots(*second),
        call_ensures(evaluate_mask, (first,), first_mask),
        call_ensures(evaluate_mask, (second,), second_mask),
    ensures
        boolean_slots(first_mask) == boolean_slots(second_mask),
{
}

/// The single verdict depends on the slots of the column and on nothing
/// else: two runs over columns with the same slots return the same verdict.
pub proof fn lemma_evaluate_all_deterministic(
    first: &UInt64Column,
    second: &UInt64Column,
    first_all: bool,
    second_all: bool,
)
    requires
        column_slots(*first) == column_slots(*second),
        call_ensures(evaluate_all, (first,), first_all),
        call_ensures(evaluate_all, (second,), second_all),
    ensures
        first_all == second_all,
{
}

} // verus!
