//! Extraction of token events from transaction output scripts.
//!
//! A script is hex text. Its payload is read as tag-length-value records,
//! searched for marker patterns, and classified into an event with a
//! confidence tier; a validator then accepts or rejects the event against
//! the transaction that carried it. A scan over recent blocks is driven by
//! a state machine that only decides: the caller performs the requests.

pub mod classify;
pub mod event;
pub mod hex_text;
pub mod marker;
pub mod outputs;
pub mod scan;
pub mod tlv;
pub mod validate;

pub use classify::{
    be_value, classify, classify_payload, classify_payload_spec, classify_script,
    classify_script_spec, option_view, parse_rune_data,
};
pub use event::{tier_of_label, RuneEvent, RuneEventView, Tier, Transaction, TxIn, TxOut};
pub use hex_text::{
    hex_decode, hex_digit_value, hex_encode, is_hex_digit, is_hex_text, lower_hex_digit,
};
pub use marker::{has_marker, has_rune_marker, marker_window};
pub use outputs::{
    found_events, found_view, op_return_outputs, opens_with_op_return, output_event, scan_outputs,
    script_opens_with_op_return, FoundEvent, FoundEventView, OutputScan,
};
pub use scan::{
    ids_view, tx_limit, ActionView, BlockCounters, Phase, ScanAction, ScanEvent, ScanModel,
    ScanReport, ScanStats, Scanner, TransportError, MAX_TRANSACTIONS_PER_BLOCK,
};
pub use tlv::{
    extract_tlv, records_view, tlv_consumed, tlv_records, tlv_records_from, MAX_VALUE_LEN,
};
pub use validate::{
    all_hex_digits, event_accepted, hex_digit_count, tier_rule, validate_rune_event,
};
