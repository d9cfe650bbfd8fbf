//! Transactions as the validator reads them, and the events that the
//! classifier makes.

use vstd::prelude::*;

verus! {

/// A transaction: its id and its inputs and outputs, in order.
#[derive(Debug)]
pub struct Transaction {
    pub txid: String,
    pub version: u32,
    pub vin: Vec<TxIn>,
    pub vout: Vec<TxOut>,
}

/// An input: the output it spends, and its unlocking script as hex text.
#[derive(Debug)]
pub struct TxIn {
    pub txid: String,
    pub vout: u32,
    pub script_sig: String,
}

/// An output: its locking script as hex text, and its value in the
/// chain's smallest unit.
#[derive(Debug)]
pub struct TxOut {
    pub script_pubkey: String,
    pub value: u64,
}

/// A token event read out of one output script. `event_type` holds the
/// label of the tier that made it.
#[derive(Debug)]
pub struct RuneEvent {
    pub rune_id: String,
    pub amount: u128,
    pub event_type: String,
}

/// What an event holds, as plain values.
pub struct RuneEventView {
    pub rune_id: Seq<char>,
    pub amount: u128,
    pub event_type: Seq<char>,
}

impl View for RuneEvent {
    type V = RuneEventView;

    open spec fn view(&self) -> RuneEventView {
        RuneEventView { rune_id: self.rune_id@, amount: self.amount, event_type: self.event_type@ }
    }
}

/// How an event was found, from the most to the least structured.
#[derive(Debug, Clone, Copy, PartialEq, Eq, Structural)]
pub enum Tier {
    /// Records gave both the identifier and the amount.
    TlvStructured,
    /// Records gave the identifier only.
    TlvPartial,
    /// No records: the identifier is the head of the payload.
    Heuristic,
    /// Records gave no identifier: the identifier starts at the first
    /// byte that is neither 0x00 nor 0xFF.
    PatternMatch,
}

/// The tier that a label names, if any.
pub open spec fn tier_of_label(label: Seq<char>) -> Option<Tier> {
    if label == "TLV_STRUCTURED"@ {
        Some(Tier::TlvStructured)
    } else if label == "TLV_PARTIAL"@ {
        Some(Tier::TlvPartial)
    } else if label == "HEURISTIC"@ {
        Some(Tier::Heuristic)
    } else if label == "PATTERN_MATCH"@ {
        Some(Tier::PatternMatch)
    } else {
        None
    }
}

impl Tier {
    /// The label of a tier, as it stands in `RuneEvent::event_type`.
    pub open spec fn label_spec(self) -> Seq<char> {
        match self {
            Tier::TlvStructured => "TLV_STRUCTURED"@,
            Tier::TlvPartial => "TLV_PARTIAL"@,
            Tier::Heuristic => "HEURISTIC"@,
            Tier::PatternMatch => "PATTERN_MATCH"@,
        }
    }

    /// The label of this tier.
    pub fn label(self) -> (text: String)
        ensures
            text@ == self.label_spec(),
    {
        match self {
            Tier::TlvStructured => "TLV_STRUCTURED".to_owned(),
            Tier::TlvPartial => "TLV_PARTIAL".to_owned(),
            Tier::Heuristic => "HEURISTIC".to_owned(),
            Tier::PatternMatch => "PATTERN_MATCH".to_owned(),
        }
    }

    /// The tier that `label` names; `None` for any other text.
    pub fn from_label(label: &String) -> (tier: Option<Tier>)
        ensures
            tier == tier_of_label(label@),
    {
        if *label == "TLV_STRUCTURED".to_owned() {
            Some(Tier::TlvStructured)
        } else if *label == "TLV_PARTIAL".to_owned() {
            Some(Tier::TlvPartial)
        } else if *label == "HEURISTIC".to_owned() {
            Some(Tier::Heuristic)
        } else if *label == "PATTERN_MATCH".to_owned() {
            Some(Tier::PatternMatch)
        } else {
            None
        }
    }
}

/// The four labels differ, so a tier is found again from its label.
pub proof fn lemma_label_names_its_tier(tier: Tier)
    ensures
        tier_of_label(tier.label_spec()) == Some(tier),
{
    reveal_strlit("TLV_STRUCTURED");
    reveal_strlit("TLV_PARTIAL");
    reveal_strlit("HEURISTIC");
    reveal_strlit("PATTERN_MATCH");
    assert("TLV_STRUCTURED"@.len() == 14);
    assert("TLV_PARTIAL"@.len() == 11);
    assert("HEURISTIC"@.len() == 9);
    assert("PATTERN_MATCH"@.len() == 13);
}

} // verus!
