//! Address arithmetic: moving an address by bytes or by words, and finding
//! a structure placed at an offset from the end of another.
use vstd::prelude::*;

verus! {

/// The number of bytes in a machine word.
pub open spec fn word_bytes_spec() -> int {
    usize::BITS as int / 8
}

/// The address `n` bytes after (or, for negative `n`, before) `ptr`.
pub fn offset_bytes(ptr: usize, n: isize) -> (r: usize)
    requires
        0 <= ptr + n <= usize::MAX,
    ensures
        r == ptr + n,
{
    if n >= 0 {
        ptr + (n as usize)
    } else {
        let back: usize = (-(n + 1)) as usize;
        ptr - back - 1
    }
}

/// The address `n` words after (or, for negative `n`, before) `ptr`.
pub fn offset_words(ptr: usize, n: isize) -> (r: usize)
    requires
        0 <= ptr + n * word_bytes_spec() <= usize::MAX,
        isize::MIN <= n * word_bytes_spec() <= isize::MAX,
    ensures
        r == ptr + n * word_bytes_spec(),
{
    let w: isize = (usize::BITS / 8) as isize;
    offset_bytes(ptr, n * w)
}

/// The address `offset` bytes from the end of a structure of `size` bytes
/// placed at `ptr`.
pub fn offset_from_end(ptr: usize, size: usize, offset: isize) -> (r: usize)
    requires
        ptr + size <= usize::MAX,
        0 <= ptr + size + offset <= usize::MAX,
    ensures
        r == ptr + size + offset,
{
    let end: usize = ptr + size;
    offset_bytes(end, offset)
}

} // verus!
