//! In-place edits of integer buffers.
use vstd::prelude::*;

verus! {

/// The largest length of a buffer whose every index, times ten, fits an
/// element.
pub const MAX_SCALED_LEN: usize = 214748365;

/// Overwrites every element with ten times its index.
pub fn scale_by_index(data: &mut Vec<i32>)
    requires
        old(data)@.len() <= MAX_SCALED_LEN,
    ensures
        final(data)@.len() == old(data)@.len(),
        forall|i: int| 0 <= i < final(data)@.len() ==> #[trigger] final(data)@[i] == i * 10,
{
    let mut i: usize = 0;
    while i < data.len()
        invariant
            i <= data@.len(),
            data@.len() == old(data)@.len(),
            data@.len() <= MAX_SCALED_LEN,
            forall|k: int| 0 <= k < i ==> #[trigger] data@[k] == k * 10,
        decreases data@.len() - i,
    {
        data[i] = (i as i32) * 10;
        i = i + 1;
    }
}

/// What doubling the even numbers makes of one element.
pub open spec fn even_doubled(value: i32) -> int {
    if value % 2 == 0 {
        value * 2
    } else {
        value as int
    }
}

/// Doubles every even element and keeps the odd ones.
pub fn double_evens(numbers: &mut Vec<i32>)
    requires
        forall|i: int|
            0 <= i < old(numbers)@.len() ==> i32::MIN <= even_doubled(#[trigger] old(numbers)@[i])
                <= i32::MAX,
    ensures
        final(numbers)@.len() == old(numbers)@.len(),
        forall|i: int|
            0 <= i < final(numbers)@.len() ==> #[trigger] final(numbers)@[i] == even_doubled(
                old(numbers)@[i],
            ),
{
    let mut i: usize = 0;
    while i < numbers.len()
        invariant
            i <= numbers@.len(),
            numbers@.len() == old(numbers)@.len(),
            forall|k: int|
                0 <= k < old(numbers)@.len() ==> i32::MIN <= even_doubled(
                    #[trigger] old(numbers)@[k],
                ) <= i32::MAX,
            forall|k: int| 0 <= k < i ==> #[trigger] numbers@[k] == even_doubled(old(numbers)@[k]),
            forall|k: int| i <= k < numbers@.len() ==> #[trigger] numbers@[k] == old(numbers)@[k],
        decreases numbers@.len() - i,
    {
        let value = numbers[i];
        if value % 2 == 0 {
            assert(even_doubled(old(numbers)@[i as int]) == value * 2);
            numbers[i] = value * 2;
        }
        i = i + 1;
    }
}

} // verus!
