//! Tag-length-value records in a script payload.

use vstd::prelude::*;
use vstd::slice::{slice_subrange, slice_to_vec};

verus! {

/// The longest value a record may carry.
pub const MAX_VALUE_LEN: usize = 100;

/// Whether a whole record starts at `at`: a tag byte, a length byte of at
/// most `MAX_VALUE_LEN`, and that many bytes of value inside the data.
pub open spec fn record_at(data: Seq<u8>, at: int) -> bool {
    &&& 0 <= at
    &&& at + 2 <= data.len()
    &&& data[at + 1] <= MAX_VALUE_LEN
    &&& at + 2 + data[at + 1] <= data.len()
}

/// The records read from `at` on, in order: reading stops, without error,
/// at the first place where no whole record starts.
pub open spec fn tlv_records_from(data: Seq<u8>, at: int) -> Seq<(u8, Seq<u8>)>
    decreases data.len() - at,
{
    if record_at(data, at) {
        let end = at + 2 + data[at + 1];
        seq![(data[at], data.subrange(at + 2, end))] + tlv_records_from(data, end)
    } else {
        Seq::empty()
    }
}

/// The records of a payload, read from its first byte.
pub open spec fn tlv_records(data: Seq<u8>) -> Seq<(u8, Seq<u8>)> {
    tlv_records_from(data, 0)
}

/// The bytes that a sequence of records took from the data they were read
/// from: tag, length and value of each.
pub open spec fn tlv_consumed(records: Seq<(u8, Seq<u8>)>) -> nat
    decreases records.len(),
{
    if records.len() == 0 {
        0
    } else {
        tlv_consumed(records.drop_last()) + 2 + records.last().1.len()
    }
}

/// Reading from `at` consumes no more than what lies behind `at`, and no
/// value is longer than `MAX_VALUE_LEN`.
pub proof fn lemma_tlv_bounds_from(data: Seq<u8>, at: int)
    requires
        0 <= at <= data.len(),
    ensures
        tlv_consumed(tlv_records_from(data, at)) <= data.len() - at,
        forall|k: int|
            0 <= k < tlv_records_from(data, at).len() ==> (#[trigger] tlv_records_from(
                data,
                at,
            )[k]).1.len() <= MAX_VALUE_LEN,
    decreases data.len() - at,
{
    if record_at(data, at) {
        let end = at + 2 + data[at + 1];
        let head = seq![(data[at], data.subrange(at + 2, end))];
        let rest = tlv_records_from(data, end);
        lemma_tlv_bounds_from(data, end);
        lemma_consumed_concat(head, rest);
        assert(head.drop_last() =~= Seq::empty());
        assert(tlv_consumed(head) == 2 + data[at + 1]) by {
            reveal_with_fuel(tlv_consumed, 2);
        }
    }
}

/// The bytes consumed by two runs of records add up.
pub proof fn lemma_consumed_concat(a: Seq<(u8, Seq<u8>)>, b: Seq<(u8, Seq<u8>)>)
    ensures
        tlv_consumed(a + b) == tlv_consumed(a) + tlv_consumed(b),
    decreases b.len(),
{
    if b.len() == 0 {
        assert(a + b =~= a);
    } else {
        lemma_consumed_concat(a, b.drop_last());
        assert((a + b).drop_last() =~= a + b.drop_last());
        assert((a + b).last() == b.last());
    }
}

/// The records of any payload consume no more bytes than it has, and none
/// carries a value longer than `MAX_VALUE_LEN`; an empty payload has no
/// records.
pub proof fn lemma_tlv_bounds(data: Seq<u8>)
    ensures
        tlv_consumed(tlv_records(data)) <= data.len(),
        forall|k: int|
            0 <= k < tlv_records(data).len() ==> (#[trigger] tlv_records(data)[k]).1.len()
                <= MAX_VALUE_LEN,
        data.len() == 0 ==> tlv_records(data).len() == 0,
{
    lemma_tlv_bounds_from(data, 0);
}

/// Decoding depends on the data alone: every reading of one payload
/// holds the same records in the same order.
pub proof fn lemma_tlv_decoding_is_determined(
    data: Seq<u8>,
    first: Seq<(u8, Vec<u8>)>,
    second: Seq<(u8, Vec<u8>)>,
)
    requires
        records_view(first) == tlv_records(data),
        records_view(second) == tlv_records(data),
    ensures
        first.len() == second.len(),
        forall|k: int|
            0 <= k < first.len() ==> first[k].0 == second[k].0 && first[k].1@ == second[k].1@,
{
    assert(records_view(first).len() == first.len());
    assert(records_view(second).len() == second.len());
    assert forall|k: int| 0 <= k < first.len() implies first[k].0 == second[k].0 && first[k].1@
        == second[k].1@ by {
        assert(records_view(first)[k] == (first[k].0, first[k].1@));
        assert(records_view(second)[k] == (second[k].0, second[k].1@));
    }
}

/// What a vector of records holds: each tag with the bytes of its value.
pub open spec fn records_view(records: Seq<(u8, Vec<u8>)>) -> Seq<(u8, Seq<u8>)> {
    Seq::new(records.len(), |k: int| (records[k].0, records[k].1@))
}

/// Reads the records of `data` from its first byte: a tag byte, a length
/// byte, then that many bytes of value, again and again. Reading stops at
/// the first place where fewer than two bytes are left, where the length
/// byte is over `MAX_VALUE_LEN`, or where the value would run past the end.
/// Nothing is an error: what was read before that place is returned.
pub fn extract_tlv(data: &[u8]) -> (records: Vec<(u8, Vec<u8>)>)
    ensures
        records_view(records@) == tlv_records(data@),
        tlv_consumed(records_view(records@)) <= data@.len(),
        forall|k: int|
            0 <= k < records@.len() ==> (#[trigger] records@[k]).1@.len() <= MAX_VALUE_LEN,
{
    let mut i: usize = 0;
    let mut result: Vec<(u8, Vec<u8>)> = Vec::new();
    assert(records_view(result@) =~= Seq::empty());
    while i < data.len() && data.len() - i >= 2
        invariant
            i <= data@.len(),
            tlv_records(data@) == records_view(result@) + tlv_records_from(data@, i as int),
        ensures
            !record_at(data@, i as int),
        decreases data@.len() - i,
    {
        let t: u8 = data[i];
        let l: usize = data[i + 1] as usize;
        if l > MAX_VALUE_LEN || l > data.len() - i - 2 {
            break ;
        }
        let v: Vec<u8> = slice_to_vec(slice_subrange(data, i + 2, i + 2 + l));
        let ghost before = records_view(result@);
        result.push((t, v));
        proof {
            let end = i as int + 2 + l as int;
            let head = seq![(data@[i as int], data@.subrange(i as int + 2, end))];
            assert(records_view(result@) =~= before + head);
            assert(before + (head + tlv_records_from(data@, end)) =~= (before + head)
                + tlv_records_from(data@, end));
        }
        i = i + 2 + l;
    }
    proof {
        assert(records_view(result@) + Seq::<(u8, Seq<u8>)>::empty() =~= records_view(result@));
        lemma_tlv_bounds(data@);
        assert forall|k: int| 0 <= k < result@.len() implies (#[trigger] result@[k]).1@.len()
            <= MAX_VALUE_LEN by {
            assert(records_view(result@)[k].1 == result@[k].1@);
        }
    }
    result
}

} // verus!
