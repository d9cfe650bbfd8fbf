//! The plausibility rules that an event must pass before it is reported.

use crate::event::{tier_of_label, RuneEvent, RuneEventView, Tier, Transaction};
use crate::hex_text::is_hex_digit;
use vstd::prelude::*;
use vstd::string::is_ascii_spec_bytes;

verus! {

/// The shortest identifier that any event may have, in characters.
pub const MIN_IDENTIFIER_LEN: usize = 8;

/// The shortest identifier of an event whose records gave no amount.
pub const MIN_PARTIAL_IDENTIFIER_LEN: usize = 16;

/// The shortest identifier of an event that was guessed from the payload.
pub const MIN_GUESSED_IDENTIFIER_LEN: usize = 12;

/// An amount read from records must stay below this.
pub const STRUCTURED_AMOUNT_CEILING: u128 = 1_000_000_000_000;

/// Whether every character is a hex digit.
pub open spec fn all_hex_digits(text: Seq<char>) -> bool {
    forall|i: int| 0 <= i < text.len() ==> is_hex_digit(#[trigger] text[i])
}

/// The rule of the tier that made the event. A label that names no tier
/// puts no rule on the event.
pub open spec fn tier_rule(tier: Option<Tier>, identifier_len: nat, amount: u128) -> bool {
    match tier {
        Some(Tier::TlvStructured) => amount < STRUCTURED_AMOUNT_CEILING,
        Some(Tier::TlvPartial) => identifier_len >= MIN_PARTIAL_IDENTIFIER_LEN,
        Some(Tier::Heuristic) | Some(Tier::PatternMatch) => identifier_len
            >= MIN_GUESSED_IDENTIFIER_LEN,
        None => true,
    }
}

/// Whether an event found in a transaction with so many inputs and
/// outputs is plausible: the transaction has both, the identifier is at
/// least `MIN_IDENTIFIER_LEN` hex digits, the amount is not zero, and the
/// rule of the event's tier holds.
pub open spec fn event_accepted(inputs: nat, outputs: nat, event: RuneEventView) -> bool {
    &&& inputs > 0
    &&& outputs > 0
    &&& event.rune_id.len() >= MIN_IDENTIFIER_LEN
    &&& all_hex_digits(event.rune_id)
    &&& event.amount != 0
    &&& tier_rule(tier_of_label(event.event_type), event.rune_id.len(), event.amount)
}

/// Whether a byte is the ASCII code of a hex digit.
fn is_hex_digit_byte(b: u8) -> (yes: bool)
    ensures
        yes == is_hex_digit(b as char),
{
    (0x30 <= b && b <= 0x39) || (0x61 <= b && b <= 0x66) || (0x41 <= b && b <= 0x46)
}

/// The number of characters of `text` if all of them are hex digits.
pub fn hex_digit_count(text: &str) -> (count: Option<usize>)
    ensures
        count is Some <==> all_hex_digits(text@),
        count matches Some(n) ==> n == text@.len(),
{
    if !text.is_ascii() {
        proof {
            let i = choose|i: int| 0 <= i < text@.len() && !('\0' <= #[trigger] text@[i] <= '\u{7f}');
            assert(!is_hex_digit(text@[i]));
        }
        return None;
    }
    let bytes = text.as_bytes();
    proof {
        is_ascii_spec_bytes(text);
    }
    let mut i: usize = 0;
    while i < bytes.len()
        invariant
            i <= bytes@.len(),
            bytes@.len() == text@.len(),
            forall|k: int| 0 <= k < bytes@.len() ==> bytes@[k] == text@[k] as u8,
            forall|k: int| 0 <= k < text@.len() ==> '\0' <= #[trigger] text@[k] <= '\u{7f}',
            forall|k: int| 0 <= k < i ==> is_hex_digit(#[trigger] text@[k]),
        decreases bytes@.len() - i,
    {
        if !is_hex_digit_byte(bytes[i]) {
            proof {
                let c = text@[i as int];
                assert('\0' <= c <= '\u{7f}');
                assert((c as u8) as char == c);
                assert(!is_hex_digit(c));
            }
            return None;
        }
        proof {
            let c = text@[i as int];
            assert('\0' <= c <= '\u{7f}');
            assert((c as u8) as char == c);
        }
        i = i + 1;
    }
    Some(bytes.len())
}

/// Accepts or rejects an event found in `tx`. All of these must hold:
/// the transaction has an input and an output; the identifier is at
/// least `MIN_IDENTIFIER_LEN` characters, all of them hex digits; the
/// amount is not zero; and, by the tier that `event_type` names, the
/// amount is below `STRUCTURED_AMOUNT_CEILING` (records gave both), or
/// the identifier has at least `MIN_PARTIAL_IDENTIFIER_LEN` characters
/// (records gave the identifier only), or at least
/// `MIN_GUESSED_IDENTIFIER_LEN` (guessed). An event whose label names no
/// tier has no such last rule.
pub fn validate_rune_event(tx: &Transaction, rune_event: &RuneEvent) -> (accepted: bool)
    ensures
        accepted == event_accepted(tx.vin@.len(), tx.vout@.len(), rune_event@),
{
    if tx.vin.len() == 0 || tx.vout.len() == 0 {
        return false;
    }
    if rune_event.amount == 0 {
        return false;
    }
    let len: usize = match hex_digit_count(rune_event.rune_id.as_str()) {
        Some(n) => n,
        None => {
            return false;
        },
    };
    if len < MIN_IDENTIFIER_LEN {
        return false;
    }
    match Tier::from_label(&rune_event.event_type) {
        Some(Tier::TlvStructured) => rune_event.amount < STRUCTURED_AMOUNT_CEILING,
        Some(Tier::TlvPartial) => len >= MIN_PARTIAL_IDENTIFIER_LEN,
        Some(Tier::Heuristic) => len >= MIN_GUESSED_IDENTIFIER_LEN,
        Some(Tier::PatternMatch) => len >= MIN_GUESSED_IDENTIFIER_LEN,
        None => true,
    }
}

/// An identifier that holds a character which is no hex digit is
/// rejected, whatever the tier, the amount and the transaction.
pub proof fn lemma_non_hex_identifier_rejected(
    inputs: nat,
    outputs: nat,
    event: RuneEventView,
    at: int,
)
    requires
        0 <= at < event.rune_id.len(),
        !is_hex_digit(event.rune_id[at]),
    ensures
        !event_accepted(inputs, outputs, event),
{
}

/// For an event made from records that gave both fields, and valid in
/// all else, the amount decides: it is accepted exactly when the amount
/// is below the ceiling. So the ceiling itself is rejected and the amount
/// one below it is accepted.
pub proof fn lemma_structured_amount_ceiling(inputs: nat, outputs: nat, event: RuneEventView)
    requires
        inputs > 0,
        outputs > 0,
        event.rune_id.len() >= MIN_IDENTIFIER_LEN,
        all_hex_digits(event.rune_id),
        event.amount != 0,
        event.event_type == Tier::TlvStructured.label_spec(),
    ensures
        event_accepted(inputs, outputs, event) <==> event.amount < 1_000_000_000_000,
        event.amount == 1_000_000_000_000 ==> !event_accepted(inputs, outputs, event),
        event.amount == 999_999_999_999 ==> event_accepted(inputs, outputs, event),
{
    crate::event::lemma_label_names_its_tier(Tier::TlvStructured);
}

} // verus!
