//! The classifier: from one output script to an event, by the most
//! structured reading that applies.

use crate::event::{lemma_label_names_its_tier, tier_of_label, RuneEvent, RuneEventView, Tier};
use crate::hex_text::{
    decode_hex, encode_hex, hex_decode, hex_encode, is_hex_text, lemma_encode_is_hex_text,
};
use crate::marker::{has_marker, has_rune_marker};
use crate::tlv::{extract_tlv, records_view, tlv_records};
use vstd::prelude::*;
use vstd::slice::slice_subrange;

verus! {

/// The opcode that opens a script which carries data.
pub const OP_RETURN: u8 = 0x6a;

/// The shortest script that is looked at, in bytes.
pub const MIN_SCRIPT_LEN: usize = 10;

/// The bytes before the payload: the opcode and the length byte.
pub const PAYLOAD_OFFSET: usize = 2;

/// A payload without a marker is looked at from this length on.
pub const MIN_UNMARKED_PAYLOAD_LEN: usize = 20;

/// The bytes of payload that name an event when there are no records.
pub const HEURISTIC_IDENTIFIER_LEN: usize = 16;

/// The amount of such an event, for each byte of payload.
pub const HEURISTIC_AMOUNT_PER_BYTE: u128 = 42;

/// The amount of an event whose records gave the identifier only.
pub const PARTIAL_AMOUNT: u128 = 1000;

/// The bytes that name an event found by pattern.
pub const PATTERN_IDENTIFIER_LEN: usize = 8;

/// The amount of such an event, for each unit of its first byte.
pub const PATTERN_AMOUNT_PER_UNIT: u128 = 100;

/// A record that names the event: a tag up to 0x0F with 4 to 32 bytes.
pub open spec fn is_identifier_record(record: (u8, Seq<u8>)) -> bool {
    record.0 <= 0x0F && 4 <= record.1.len() <= 32
}

/// A record that gives the amount: a tag from 0x10 to 0x1F with 1 to 16
/// bytes.
pub open spec fn is_amount_record(record: (u8, Seq<u8>)) -> bool {
    0x10 <= record.0 <= 0x1F && 1 <= record.1.len() <= 16
}

/// The value of the last record that names the event, if there is one.
pub open spec fn last_identifier(records: Seq<(u8, Seq<u8>)>) -> Option<Seq<u8>>
    decreases records.len(),
{
    if records.len() == 0 {
        None
    } else if is_identifier_record(records.last()) {
        Some(records.last().1)
    } else {
        last_identifier(records.drop_last())
    }
}

/// The value of the last record that gives the amount, if there is one.
pub open spec fn last_amount(records: Seq<(u8, Seq<u8>)>) -> Option<Seq<u8>>
    decreases records.len(),
{
    if records.len() == 0 {
        None
    } else if is_amount_record(records.last()) {
        Some(records.last().1)
    } else {
        last_amount(records.drop_last())
    }
}

/// The number that bytes stand for, the first byte being the highest.
pub open spec fn be_value(bytes: Seq<u8>) -> nat
    decreases bytes.len(),
{
    if bytes.len() == 0 {
        0
    } else {
        be_value(bytes.drop_last()) * 256 + bytes.last() as nat
    }
}

/// 256 to the power of `n`.
pub open spec fn pow256(n: nat) -> nat
    decreases n,
{
    if n == 0 {
        1
    } else {
        256 * pow256((n - 1) as nat)
    }
}

/// The place of the first byte from `at` on that is neither 0x00 nor
/// 0xFF; the length of the data if there is none.
pub open spec fn first_plain_byte_from(data: Seq<u8>, at: int) -> int
    decreases data.len() - at,
{
    if at < 0 || at >= data.len() {
        data.len() as int
    } else if data[at] != 0x00 && data[at] != 0xFF {
        at
    } else {
        first_plain_byte_from(data, at + 1)
    }
}

/// The event of a tier, named by the hex text of `identifier`.
pub open spec fn event_of(tier: Tier, identifier: Seq<u8>, amount: u128) -> RuneEventView {
    RuneEventView {
        rune_id: hex_encode(identifier),
        amount,
        event_type: tier.label_spec(),
    }
}

/// The event found by pattern: it starts at the first byte that is
/// neither 0x00 nor 0xFF, if there is one and at least
/// `PATTERN_IDENTIFIER_LEN` bytes lie from there to the end.
pub open spec fn pattern_event(payload: Seq<u8>) -> Option<RuneEventView> {
    let at = first_plain_byte_from(payload, 0);
    if at + PATTERN_IDENTIFIER_LEN <= payload.len() {
        Some(
            event_of(
                Tier::PatternMatch,
                payload.subrange(at, at + PATTERN_IDENTIFIER_LEN),
                (payload[at] as u128 * PATTERN_AMOUNT_PER_UNIT) as u128,
            ),
        )
    } else {
        None
    }
}

/// The event that the records of a payload give, where it has records.
pub open spec fn records_event(payload: Seq<u8>, records: Seq<(u8, Seq<u8>)>) -> Option<
    RuneEventView,
> {
    match (last_identifier(records), last_amount(records)) {
        (Some(identifier), Some(amount)) => Some(
            event_of(Tier::TlvStructured, identifier, be_value(amount) as u128),
        ),
        (Some(identifier), None) => Some(event_of(Tier::TlvPartial, identifier, PARTIAL_AMOUNT)),
        (None, _) => pattern_event(payload),
    }
}

/// The event of a payload. A payload without a marker and shorter than
/// `MIN_UNMARKED_PAYLOAD_LEN` has none. One without records is named by
/// its first `HEURISTIC_IDENTIFIER_LEN` bytes, if it has that many. One
/// with records is read from them.
pub open spec fn classify_payload_spec(payload: Seq<u8>) -> Option<RuneEventView> {
    if !has_marker(payload) && payload.len() < MIN_UNMARKED_PAYLOAD_LEN {
        None
    } else if tlv_records(payload).len() == 0 {
        if payload.len() >= HEURISTIC_IDENTIFIER_LEN {
            Some(
                event_of(
                    Tier::Heuristic,
                    payload.subrange(0, HEURISTIC_IDENTIFIER_LEN as int),
                    (payload.len() * HEURISTIC_AMOUNT_PER_BYTE) as u128,
                ),
            )
        } else {
            None
        }
    } else {
        records_event(payload, tlv_records(payload))
    }
}

/// The event of a script: none unless it has `MIN_SCRIPT_LEN` bytes and
/// opens with `OP_RETURN`; else that of its payload, which is all behind
/// the first `PAYLOAD_OFFSET` bytes.
pub open spec fn classify_script_spec(script: Seq<u8>) -> Option<RuneEventView> {
    if script.len() < MIN_SCRIPT_LEN || script[0] != OP_RETURN {
        None
    } else {
        classify_payload_spec(script.subrange(PAYLOAD_OFFSET as int, script.len() as int))
    }
}

/// The event of a script given as hex text: none where the text does not
/// decode.
pub open spec fn classify(script_hex: Seq<char>) -> Option<RuneEventView> {
    if is_hex_text(script_hex) {
        classify_script_spec(hex_decode(script_hex))
    } else {
        None
    }
}

/// What an optional event holds.
pub open spec fn option_view(event: Option<RuneEvent>) -> Option<RuneEventView> {
    match event {
        Some(e) => Some(e@),
        None => None,
    }
}

/// Bytes stand for a number below 256 to the power of their count.
pub proof fn lemma_be_value_bound(bytes: Seq<u8>)
    ensures
        be_value(bytes) < pow256(bytes.len()),
    decreases bytes.len(),
{
    if bytes.len() > 0 {
        lemma_be_value_bound(bytes.drop_last());
    }
}

/// Powers of 256 grow with the exponent.
pub proof fn lemma_pow256_grows(a: nat, b: nat)
    requires
        a <= b,
    ensures
        pow256(a) <= pow256(b),
        pow256(a) >= 1,
    decreases b,
{
    if a < b {
        lemma_pow256_grows(a, (b - 1) as nat);
    } else if a > 0 {
        lemma_pow256_grows((a - 1) as nat, (a - 1) as nat);
    }
}

/// Up to sixteen bytes stand for a number that fits 128 bits.
pub proof fn lemma_be_value_fits(bytes: Seq<u8>)
    requires
        bytes.len() <= 16,
    ensures
        be_value(bytes) <= u128::MAX,
{
    lemma_be_value_bound(bytes);
    lemma_pow256_grows(bytes.len(), 16);
    assert(pow256(16) == 0x1_0000_0000_0000_0000_0000_0000_0000_0000) by {
        reveal_with_fuel(pow256, 17);
    }
}

/// The first byte that is neither 0x00 nor 0xFF lies where the search
/// says: all bytes before it are 0x00 or 0xFF, and it is neither unless
/// the search ran to the end.
pub proof fn lemma_first_plain_byte(data: Seq<u8>, at: int)
    requires
        0 <= at <= data.len(),
    ensures
        at <= first_plain_byte_from(data, at) <= data.len(),
        forall|k: int|
            at <= k < first_plain_byte_from(data, at) ==> data[k] == 0x00 || data[k] == 0xFF,
        first_plain_byte_from(data, at) < data.len() ==> data[first_plain_byte_from(data, at)]
            != 0x00 && data[first_plain_byte_from(data, at)] != 0xFF,
    decreases data.len() - at,
{
    if at < data.len() && (data[at] == 0x00 || data[at] == 0xFF) {
        lemma_first_plain_byte(data, at + 1);
    }
}

/// Where `at` is the last record that names the event, the identifier
/// is that record's value.
pub proof fn lemma_last_identifier_at(records: Seq<(u8, Seq<u8>)>, at: int)
    requires
        0 <= at < records.len(),
        is_identifier_record(records[at]),
        forall|k: int| at < k < records.len() ==> !is_identifier_record(records[k]),
    ensures
        last_identifier(records) == Some(records[at].1),
    decreases records.len(),
{
    if at < records.len() - 1 {
        lemma_last_identifier_at(records.drop_last(), at);
    }
}

/// Where `at` is the last record that gives the amount, the amount is
/// read from that record's value.
pub proof fn lemma_last_amount_at(records: Seq<(u8, Seq<u8>)>, at: int)
    requires
        0 <= at < records.len(),
        is_amount_record(records[at]),
        forall|k: int| at < k < records.len() ==> !is_amount_record(records[k]),
    ensures
        last_amount(records) == Some(records[at].1),
    decreases records.len(),
{
    if at < records.len() - 1 {
        lemma_last_amount_at(records.drop_last(), at);
    }
}

/// A script that is looked at and whose payload holds a record that
/// names the event and a record that gives the amount is classified as
/// `TlvStructured`: named by the hex text of the last naming record's
/// value, with the number that the last amount record's bytes stand for,
/// the first byte being the highest. A script is looked at if it has
/// `MIN_SCRIPT_LEN` bytes, opens with `OP_RETURN`, and its payload has a
/// marker or `MIN_UNMARKED_PAYLOAD_LEN` bytes.
pub proof fn lemma_structured_tier(script: Seq<u8>, identifier_at: int, amount_at: int)
    requires
        script.len() >= MIN_SCRIPT_LEN,
        script[0] == OP_RETURN,
        ({
            let payload = script.subrange(PAYLOAD_OFFSET as int, script.len() as int);
            let records = tlv_records(payload);
            &&& has_marker(payload) || payload.len() >= MIN_UNMARKED_PAYLOAD_LEN
            &&& 0 <= identifier_at < records.len()
            &&& is_identifier_record(records[identifier_at])
            &&& forall|k: int| identifier_at < k < records.len() ==> !is_identifier_record(records[k])
            &&& 0 <= amount_at < records.len()
            &&& is_amount_record(records[amount_at])
            &&& forall|k: int| amount_at < k < records.len() ==> !is_amount_record(records[k])
        }),
    ensures
        ({
            let payload = script.subrange(PAYLOAD_OFFSET as int, script.len() as int);
            let records = tlv_records(payload);
            classify_script_spec(script) == Some(
                RuneEventView {
                    rune_id: hex_encode(records[identifier_at].1),
                    amount: be_value(records[amount_at].1) as u128,
                    event_type: Tier::TlvStructured.label_spec(),
                },
            )
        }),
        be_value(
            tlv_records(script.subrange(PAYLOAD_OFFSET as int, script.len() as int))[amount_at].1,
        ) <= u128::MAX,
{
    let payload = script.subrange(PAYLOAD_OFFSET as int, script.len() as int);
    let records = tlv_records(payload);
    lemma_last_identifier_at(records, identifier_at);
    lemma_last_amount_at(records, amount_at);
    lemma_be_value_fits(records[amount_at].1);
}

/// A script of fewer than `MIN_SCRIPT_LEN` bytes gives no event, whatever
/// it holds.
pub proof fn lemma_short_script_has_no_event(script: Seq<u8>)
    requires
        script.len() < MIN_SCRIPT_LEN,
    ensures
        classify_script_spec(script) is None,
{
}

/// Hex text of fewer than twice `MIN_SCRIPT_LEN` characters gives no
/// event, whatever it holds.
pub proof fn lemma_short_hex_has_no_event(script_hex: Seq<char>)
    requires
        script_hex.len() < 2 * MIN_SCRIPT_LEN,
    ensures
        classify(script_hex) is None,
{
}

/// What is classified depends on the text alone: two results for one
/// text hold the same event, or both hold none.
pub proof fn lemma_classification_is_determined(
    script_hex: Seq<char>,
    first: Option<RuneEvent>,
    second: Option<RuneEvent>,
)
    requires
        option_view(first) == classify(script_hex),
        option_view(second) == classify(script_hex),
    ensures
        option_view(first) == option_view(second),
        first is Some <==> second is Some,
{
}

/// Every event that the classifier makes is named by hex digits and
/// carries the label of one of the four tiers.
pub proof fn lemma_classified_event_shape(script_hex: Seq<char>)
    ensures
        classify(script_hex) matches Some(event) ==> {
            &&& is_hex_text(event.rune_id)
            &&& tier_of_label(event.event_type) is Some
        },
{
    if is_hex_text(script_hex) {
        let script = hex_decode(script_hex);
        if script.len() >= MIN_SCRIPT_LEN && script[0] == OP_RETURN {
            let payload = script.subrange(PAYLOAD_OFFSET as int, script.len() as int);
            let records = tlv_records(payload);
            lemma_label_names_its_tier(Tier::TlvStructured);
            lemma_label_names_its_tier(Tier::TlvPartial);
            lemma_label_names_its_tier(Tier::Heuristic);
            lemma_label_names_its_tier(Tier::PatternMatch);
            lemma_encode_is_hex_text(payload.subrange(0, HEURISTIC_IDENTIFIER_LEN as int));
            let at = first_plain_byte_from(payload, 0);
            lemma_encode_is_hex_text(payload.subrange(at, at + PATTERN_IDENTIFIER_LEN));
            match last_identifier(records) {
                Some(identifier) => lemma_encode_is_hex_text(identifier),
                None => {},
            }
        }
    }
}

/// Folds up to sixteen bytes into the number they stand for, the first
/// byte being the highest.
fn fold_amount(value: &[u8]) -> (amount: u128)
    requires
        value@.len() <= 16,
    ensures
        amount == be_value(value@),
{
    let mut acc: u128 = 0;
    let mut k: usize = 0;
    while k < value.len()
        invariant
            k <= value@.len() <= 16,
            acc == be_value(value@.take(k as int)),
        decreases value@.len() - k,
    {
        let b: u8 = value[k];
        proof {
            let head = value@.take(k as int);
            lemma_be_value_bound(head);
            lemma_pow256_grows(k as nat, 15);
            assert(pow256(15) == 0x1_0000_0000_0000_0000_0000_0000_0000_00) by {
                reveal_with_fuel(pow256, 16);
            }
            assert(value@.take(k + 1).drop_last() =~= head);
            assert((acc << 8) | (b as u128) == acc * 256 + b as u128) by (bit_vector)
                requires
                    acc < 0x1_0000_0000_0000_0000_0000_0000_0000_00u128,
            ;
        }
        acc = (acc << 8) | (b as u128);
        k = k + 1;
    }
    assert(value@.take(k as int) =~= value@);
    acc
}

/// Reads identifier and amount out of the records: of each, the last
/// record that gives it counts. The identifier comes as hex text.
fn read_records(records: &Vec<(u8, Vec<u8>)>) -> (found: (Option<String>, Option<u128>))
    ensures
        match last_identifier(records_view(records@)) {
            Some(identifier) => found.0 matches Some(text) && text@ == hex_encode(identifier),
            None => found.0 is None,
        },
        match last_amount(records_view(records@)) {
            Some(amount) => found.1 == Some(be_value(amount) as u128),
            None => found.1 is None,
        },
{
    let mut rune_id: Option<String> = None;
    let mut amount: Option<u128> = None;
    let mut k: usize = 0;
    assert(records_view(records@).take(0) =~= Seq::empty());
    while k < records.len()
        invariant
            k <= records@.len(),
            match last_identifier(records_view(records@).take(k as int)) {
                Some(identifier) => rune_id matches Some(text) && text@ == hex_encode(identifier),
                None => rune_id is None,
            },
            match last_amount(records_view(records@).take(k as int)) {
                Some(bytes) => amount == Some(be_value(bytes) as u128),
                None => amount is None,
            },
        decreases records@.len() - k,
    {
        let t: u8 = records[k].0;
        let v: &Vec<u8> = &records[k].1;
        proof {
            let all = records_view(records@);
            assert(all.take(k + 1).drop_last() =~= all.take(k as int));
            assert(all.take(k + 1).last() == (t, v@));
        }
        if t <= 0x0F {
            if v.len() >= 4 && v.len() <= 32 {
                rune_id = Some(encode_hex(v.as_slice()));
            }
        } else if t <= 0x1F {
            if v.len() >= 1 && v.len() <= 16 {
                proof {
                    lemma_be_value_fits(v@);
                }
                amount = Some(fold_amount(v.as_slice()));
            }
        }
        k = k + 1;
    }
    assert(records_view(records@).take(k as int) =~= records_view(records@));
    (rune_id, amount)
}

/// Finds the first byte that is neither 0x00 nor 0xFF; gives the length
/// of the data if there is none.
fn first_plain_byte(data: &[u8]) -> (at: usize)
    ensures
        at == first_plain_byte_from(data@, 0),
{
    let mut i: usize = 0;
    while i < data.len() && (data[i] == 0x00 || data[i] == 0xFF)
        invariant
            i <= data@.len(),
            first_plain_byte_from(data@, 0) == first_plain_byte_from(data@, i as int),
        decreases data@.len() - i,
    {
        i = i + 1;
    }
    i
}

/// Makes the event of a tier.
fn make_event(tier: Tier, rune_id: String, amount: u128) -> (event: RuneEvent)
    ensures
        event@ == (RuneEventView { rune_id: rune_id@, amount, event_type: tier.label_spec() }),
{
    RuneEvent { rune_id, amount, event_type: tier.label() }
}

/// Classifies a payload, the part of a script behind opcode and length
/// byte. In order: a payload without a marker and shorter than
/// `MIN_UNMARKED_PAYLOAD_LEN` gives nothing; one without records gives a
/// `Heuristic` event named by its first `HEURISTIC_IDENTIFIER_LEN` bytes,
/// with `HEURISTIC_AMOUNT_PER_BYTE` for each byte, or nothing if it is
/// shorter; records that give identifier and amount give a
/// `TlvStructured` event; records that give the identifier only give a
/// `TlvPartial` event with `PARTIAL_AMOUNT`; else the first byte that is
/// neither 0x00 nor 0xFF, if there is one and at least
/// `PATTERN_IDENTIFIER_LEN` bytes lie from it to the end, gives a
/// `PatternMatch` event named by the `PATTERN_IDENTIFIER_LEN` bytes from
/// it on, with `PATTERN_AMOUNT_PER_UNIT` times that byte.
pub fn classify_payload(payload: &[u8]) -> (event: Option<RuneEvent>)
    ensures
        option_view(event) == classify_payload_spec(payload@),
{
    if !has_rune_marker(payload) && payload.len() < MIN_UNMARKED_PAYLOAD_LEN {
        return None;
    }
    let tlv = extract_tlv(payload);
    if tlv.len() == 0 {
        if payload.len() >= HEURISTIC_IDENTIFIER_LEN {
            let head = slice_subrange(payload, 0, HEURISTIC_IDENTIFIER_LEN);
            let amount: u128 = payload.len() as u128 * HEURISTIC_AMOUNT_PER_BYTE;
            return Some(make_event(Tier::Heuristic, encode_hex(head), amount));
        }
        return None;
    }
    let (rune_id, amount) = read_records(&tlv);
    match rune_id {
        Some(id) => match amount {
            Some(amt) => Some(make_event(Tier::TlvStructured, id, amt)),
            None => Some(make_event(Tier::TlvPartial, id, PARTIAL_AMOUNT)),
        },
        None => {
            let at: usize = first_plain_byte(payload);
            proof {
                lemma_first_plain_byte(payload@, 0);
            }
            if payload.len() - at >= PATTERN_IDENTIFIER_LEN {
                let id = encode_hex(slice_subrange(payload, at, at + PATTERN_IDENTIFIER_LEN));
                let amount: u128 = payload[at] as u128 * PATTERN_AMOUNT_PER_UNIT;
                Some(make_event(Tier::PatternMatch, id, amount))
            } else {
                None
            }
        },
    }
}

/// Classifies a script given as bytes: nothing unless it has
/// `MIN_SCRIPT_LEN` bytes and opens with `OP_RETURN`; else what its
/// payload gives.
pub fn classify_script(script: &[u8]) -> (event: Option<RuneEvent>)
    ensures
        option_view(event) == classify_script_spec(script@),
{
    if script.len() < MIN_SCRIPT_LEN || script[0] != OP_RETURN {
        return None;
    }
    classify_payload(slice_subrange(script, PAYLOAD_OFFSET, script.len()))
}

/// Classifies one output script given as hex text. Text that does not
/// decode gives nothing, and so does a script that is too short or does
/// not open with `OP_RETURN`; else the event is that of the decoded
/// script.
pub fn parse_rune_data(script_hex: &str) -> (event: Option<RuneEvent>)
    ensures
        option_view(event) == classify(script_hex@),
{
    match decode_hex(script_hex) {
        Ok(bytes) => classify_script(bytes.as_slice()),
        Err(_) => None,
    }
}

} // verus!
