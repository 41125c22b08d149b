//! Byte sizes and offsets of the data handed to OpenGL buffer calls.

use vstd::prelude::*;

verus! {

/// The size in bytes of `count` values of `T`, as a mathematical integer.
pub open spec fn bytes_of<T>(count: int) -> int {
    count * vstd::layout::size_of::<T>()
}

/// The byte size of two arrays joined end to end is the sum of their byte
/// sizes.
pub proof fn law_byte_size_additive<T>(a: Seq<T>, b: Seq<T>)
    ensures
        bytes_of::<T>((a + b).len() as int) == bytes_of::<T>(a.len() as int) + bytes_of::<T>(b.len() as int),
{
    vstd::arithmetic::mul::lemma_mul_is_distributive_add_other_way(
        vstd::layout::size_of::<T>() as int,
        a.len() as int,
        b.len() as int,
    );
}

/// Size in bytes of a slice of values, in the signed form that OpenGL's
/// buffer calls take.
///
/// A slice never spans more than `isize::MAX` bytes, so the size always fits.
pub fn byte_size_of_array<T>(val: &[T]) -> (size: isize)
    requires
        bytes_of::<T>(val@.len() as int) <= isize::MAX,
    ensures
        size as int == bytes_of::<T>(val@.len() as int),
{
    proof {
        broadcast use vstd::layout::layout_of_slices;
    }
    let bytes = core::mem::size_of_val(val);
    bytes as isize
}

/// Size in bytes of one value of `T`, in the `i32` form that OpenGL's
/// stride arguments take.
///
/// The conversion truncates as `as` does; for every type whose size fits in
/// an `i32` the result is that size.
pub fn size_of<T>() -> (size: i32)
    ensures
        size == vstd::layout::size_of::<T>() as i32,
        vstd::layout::size_of::<T>() <= i32::MAX ==> size as int == vstd::layout::size_of::<T>(),
{
    let bytes = core::mem::size_of::<T>();
    bytes as i32
}

/// Byte offset of the `n`-th value of `T` from the start of a buffer, as the
/// `u32` that OpenGL's attribute pointers are formed from.
///
/// The size of `T` is narrowed to `u32` as `as` does, then multiplied by `n`;
/// the product must fit in a `u32`.
pub fn offset<T>(n: u32) -> (bytes: u32)
    requires
        n * (vstd::layout::size_of::<T>() as u32) <= u32::MAX,
    ensures
        bytes as int == n * (vstd::layout::size_of::<T>() as u32),
{
    let unit = core::mem::size_of::<T>() as u32;
    n * unit
}

} // verus!
