//! The marker patterns that make a payload worth a closer look.

use vstd::prelude::*;

verus! {

/// Whether the four bytes from `at` on are a marker: the signature
/// `R U N E`, four zero bytes, or a zero byte followed by a byte above 0
/// and below 10.
pub open spec fn marker_window(data: Seq<u8>, at: int) -> bool {
    &&& 0 <= at
    &&& at + 4 <= data.len()
    &&& {
        ||| (data[at] == 0x52 && data[at + 1] == 0x55 && data[at + 2] == 0x4E && data[at + 3]
            == 0x45)
        ||| (data[at] == 0 && data[at + 1] == 0 && data[at + 2] == 0 && data[at + 3] == 0)
        ||| (data[at] == 0 && 0 < data[at + 1] < 10)
    }
}

/// Whether any window of four bytes in the data is a marker.
pub open spec fn has_marker(data: Seq<u8>) -> bool {
    exists|at: int| marker_window(data, at)
}

/// Looks for a marker in every window of four bytes. The test is
/// permissive on purpose: it only decides whether a payload without
/// records is still looked at.
pub fn has_rune_marker(data: &[u8]) -> (found: bool)
    ensures
        found == has_marker(data@),
{
    if data.len() < 4 {
        return false;
    }
    let last: usize = data.len() - 4;
    let mut i: usize = 0;
    while i <= last
        invariant
            last + 4 == data@.len(),
            i <= last + 1,
            forall|at: int| 0 <= at < i ==> !marker_window(data@, at),
        decreases last + 1 - i,
    {
        let a: u8 = data[i];
        let b: u8 = data[i + 1];
        let c: u8 = data[i + 2];
        let d: u8 = data[i + 3];
        if (a == 0x52 && b == 0x55 && c == 0x4E && d == 0x45) || (a == 0 && b == 0 && c == 0 && d
            == 0) || (a == 0 && b > 0 && b < 10) {
            assert(marker_window(data@, i as int));
            return true;
        }
        i = i + 1;
    }
    false
}

/// Data shorter than four bytes has no marker.
pub proof fn lemma_short_data_has_no_marker(data: Seq<u8>)
    requires
        data.len() < 4,
    ensures
        !has_marker(data),
{
}

/// Four zero bytes are a marker.
pub proof fn lemma_four_zero_bytes_marked()
    ensures
        has_marker(seq![0u8, 0u8, 0u8, 0u8]),
{
    assert(marker_window(seq![0u8, 0u8, 0u8, 0u8], 0));
}

/// A zero byte followed by a byte above 0 and below 10 marks the data,
/// wherever a window of four bytes starts with the pair: the pair must be
/// followed by two more bytes.
pub proof fn lemma_zero_then_small_byte_marked(data: Seq<u8>, at: int)
    requires
        0 <= at,
        at + 4 <= data.len(),
        data[at] == 0,
        0 < data[at + 1] < 10,
    ensures
        has_marker(data),
{
    assert(marker_window(data, at));
}

} // verus!
