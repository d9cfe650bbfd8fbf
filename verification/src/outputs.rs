//! What one transaction adds to a scan: the events of its outputs that
//! pass validation, and the count of outputs that carry data.

use crate::classify::{classify, option_view, parse_rune_data};
use crate::event::{RuneEvent, RuneEventView, Transaction};
use crate::validate::{event_accepted, validate_rune_event};
use vstd::prelude::*;
use vstd::string::StrSliceExecFns;

verus! {

/// An accepted event with the place it was found at.
#[derive(Debug)]
pub struct FoundEvent {
    pub block: String,
    pub txid: String,
    pub vout_index: usize,
    pub event: RuneEvent,
}

/// What a found event holds, as plain values.
pub struct FoundEventView {
    pub block: Seq<char>,
    pub txid: Seq<char>,
    pub vout_index: nat,
    pub event: RuneEventView,
}

impl View for FoundEvent {
    type V = FoundEventView;

    open spec fn view(&self) -> FoundEventView {
        FoundEventView {
            block: self.block@,
            txid: self.txid@,
            vout_index: self.vout_index as nat,
            event: self.event@,
        }
    }
}

/// What a vector of found events holds.
pub open spec fn found_view(found: Seq<FoundEvent>) -> Seq<FoundEventView> {
    Seq::new(found.len(), |k: int| found[k]@)
}

/// What one transaction added to a scan.
#[derive(Debug)]
pub struct OutputScan {
    /// The outputs whose script text opens with the data opcode.
    pub op_return_outputs: usize,
    /// The events that passed validation, in the order of the outputs.
    pub events: Vec<FoundEvent>,
}

/// Whether script text opens with the data opcode, as it is written in
/// lower-case hex: `6a`.
pub open spec fn opens_with_op_return(script_hex: Seq<char>) -> bool {
    script_hex.len() >= 2 && script_hex[0] == '6' && script_hex[1] == 'a'
}

/// The event of output `k`, if its script gives one that passes
/// validation.
pub open spec fn output_event(tx: Transaction, k: int) -> Option<RuneEventView> {
    match classify(tx.vout@[k].script_pubkey@) {
        Some(event) => if event_accepted(tx.vin@.len(), tx.vout@.len(), event) {
            Some(event)
        } else {
            None
        },
        None => None,
    }
}

/// The events found in the first `upto` outputs, in their order.
pub open spec fn found_events(block: Seq<char>, tx: Transaction, upto: int) -> Seq<FoundEventView>
    decreases upto,
{
    if upto <= 0 {
        Seq::empty()
    } else {
        let before = found_events(block, tx, upto - 1);
        match output_event(tx, upto - 1) {
            Some(event) => before.push(
                FoundEventView { block, txid: tx.txid@, vout_index: (upto - 1) as nat, event },
            ),
            None => before,
        }
    }
}

/// How many of the first `upto` outputs open with the data opcode.
pub open spec fn op_return_outputs(tx: Transaction, upto: int) -> nat
    decreases upto,
{
    if upto <= 0 {
        0
    } else if opens_with_op_return(tx.vout@[upto - 1].script_pubkey@) {
        op_return_outputs(tx, upto - 1) + 1
    } else {
        op_return_outputs(tx, upto - 1)
    }
}

/// No event is reported unless it passed validation: each found event is
/// what the classifier makes of the output it names, and the validator
/// accepts it for this transaction. There is at most one for each output.
pub proof fn lemma_found_events_passed(block: Seq<char>, tx: Transaction, upto: int)
    requires
        0 <= upto <= tx.vout@.len(),
    ensures
        found_events(block, tx, upto).len() <= upto,
        op_return_outputs(tx, upto) <= upto,
        forall|k: int|
            0 <= k < found_events(block, tx, upto).len() ==> {
                let found = #[trigger] found_events(block, tx, upto)[k];
                &&& found.vout_index < upto
                &&& found.block == block
                &&& found.txid == tx.txid@
                &&& classify(tx.vout@[found.vout_index as int].script_pubkey@) == Some(found.event)
                &&& event_accepted(tx.vin@.len(), tx.vout@.len(), found.event)
            },
    decreases upto,
{
    if upto > 0 {
        lemma_found_events_passed(block, tx, upto - 1);
    }
}

/// Whether script text opens with `6a`.
pub fn script_opens_with_op_return(script_hex: &str) -> (yes: bool)
    ensures
        yes == opens_with_op_return(script_hex@),
{
    script_hex.unicode_len() >= 2 && script_hex.get_char(0) == '6' && script_hex.get_char(1)
        == 'a'
}

/// Goes through the outputs of a transaction found in `block`: counts
/// those whose script opens with the data opcode, classifies each script
/// and keeps the events that the validator accepts, each with the block,
/// the transaction's id and the output's index.
pub fn scan_outputs(block: &String, tx: &Transaction) -> (scan: OutputScan)
    ensures
        scan.op_return_outputs == op_return_outputs(*tx, tx.vout@.len() as int),
        found_view(scan.events@) == found_events(block@, *tx, tx.vout@.len() as int),
{
    let mut count: usize = 0;
    let mut events: Vec<FoundEvent> = Vec::new();
    let mut k: usize = 0;
    assert(found_view(events@) =~= Seq::empty());
    while k < tx.vout.len()
        invariant
            k <= tx.vout@.len(),
            count == op_return_outputs(*tx, k as int),
            found_view(events@) == found_events(block@, *tx, k as int),
        decreases tx.vout@.len() - k,
    {
        proof {
            lemma_found_events_passed(block@, *tx, k as int);
        }
        let script = tx.vout[k].script_pubkey.as_str();
        if script_opens_with_op_return(script) {
            count = count + 1;
        }
        match parse_rune_data(script) {
            Some(event) => {
                if validate_rune_event(tx, &event) {
                    let ghost before = found_view(events@);
                    let found = FoundEvent {
                        block: block.clone(),
                        txid: tx.txid.clone(),
                        vout_index: k,
                        event,
                    };
                    events.push(found);
                    assert(found_view(events@) =~= before.push(found@));
                }
            },
            None => {},
        }
        k = k + 1;
    }
    OutputScan { op_return_outputs: count, events }
}

} // verus!
