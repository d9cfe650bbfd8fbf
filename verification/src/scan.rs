//! The scan over recent blocks, as a state machine that only decides.
//!
//! The caller performs each request that the machine asks for and hands
//! back what came of it; the machine counts, collects the accepted events
//! and says what to ask for next. It walks back from the tip, block by
//! block, until the requested number of blocks is done or a block has no
//! predecessor.

use crate::event::Transaction;
use crate::outputs::{
    found_events, found_view, lemma_found_events_passed, op_return_outputs, scan_outputs,
    FoundEvent, FoundEventView,
};
use vstd::prelude::*;

verus! {

/// Of each block, no more than this many transactions are looked at.
pub const MAX_TRANSACTIONS_PER_BLOCK: usize = 150;

/// A request that failed: the service was not reached, or its answer
/// could not be read.
#[derive(Debug, Clone, Copy)]
pub struct TransportError {}

/// Where a scan stands: what it waits for, or how it ended.
#[derive(Debug, Clone, Copy, PartialEq, Eq, Structural)]
pub enum Phase {
    AwaitingTip,
    AwaitingTransactionIds,
    AwaitingTransaction,
    AwaitingPredecessor,
    Finished,
    Failed,
}

/// What came of the request that the scan asked for.
#[derive(Debug)]
pub enum ScanEvent {
    /// The reference of the newest block.
    Tip(Result<String, TransportError>),
    /// The ids of the current block's transactions, in order.
    TransactionIds(Result<Vec<String>, TransportError>),
    /// The transaction that was asked for.
    Transaction(Result<Transaction, TransportError>),
    /// The reference of the block before the current one; `None` where
    /// the current block has no predecessor.
    Predecessor(Result<Option<String>, TransportError>),
}

/// What the caller is to do next.
#[derive(Debug)]
pub enum ScanAction {
    FetchTip,
    FetchTransactionIds { block: String },
    FetchTransaction { txid: String },
    FetchPredecessor { block: String },
    /// The scan is complete: take the report.
    Finish,
    /// A request that the scan cannot go on without has failed, or an
    /// answer came that was not asked for.
    Fail,
}

/// What an action holds, as plain values.
pub enum ActionView {
    FetchTip,
    FetchTransactionIds { block: Seq<char> },
    FetchTransaction { txid: Seq<char> },
    FetchPredecessor { block: Seq<char> },
    Finish,
    Fail,
}

impl View for ScanAction {
    type V = ActionView;

    open spec fn view(&self) -> ActionView {
        match self {
            ScanAction::FetchTip => ActionView::FetchTip,
            ScanAction::FetchTransactionIds { block } => ActionView::FetchTransactionIds {
                block: block@,
            },
            ScanAction::FetchTransaction { txid } => ActionView::FetchTransaction { txid: txid@ },
            ScanAction::FetchPredecessor { block } => ActionView::FetchPredecessor {
                block: block@,
            },
            ScanAction::Finish => ActionView::Finish,
            ScanAction::Fail => ActionView::Fail,
        }
    }
}

/// What a vector of ids holds.
pub open spec fn ids_view(ids: Seq<String>) -> Seq<Seq<char>> {
    Seq::new(ids.len(), |k: int| ids[k]@)
}

/// How many transactions of a block with `count` transactions are looked
/// at.
pub open spec fn tx_limit(count: nat) -> nat {
    if count < MAX_TRANSACTIONS_PER_BLOCK {
        count
    } else {
        MAX_TRANSACTIONS_PER_BLOCK as nat
    }
}

/// The state of a scan, as plain values. The counters are of two scopes:
/// `block_op_return` and `block_events` count within the current block
/// and start again with each block; the others count over the whole run.
pub struct ScanModel {
    /// The number of blocks asked for.
    pub requested: nat,
    pub phase: Phase,
    /// The reference of the current block.
    pub block: Seq<char>,
    /// The ids of the current block's transactions.
    pub txids: Seq<Seq<char>>,
    /// How many transactions of the current block are dealt with.
    pub cursor: nat,
    /// How many blocks are complete.
    pub blocks_done: nat,
    /// Transactions asked for and answered, readable or not.
    pub processed: nat,
    /// Transactions that came back readable.
    pub successful: nat,
    /// Outputs of the current block that open with the data opcode.
    pub block_op_return: nat,
    /// Events accepted in the current block.
    pub block_events: nat,
    /// The events accepted so far, in the order they were found.
    pub accepted: Seq<FoundEventView>,
}

impl ScanModel {
    /// A scan of `requested` blocks before its first request.
    pub open spec fn start(requested: nat) -> ScanModel {
        ScanModel {
            requested,
            phase: Phase::AwaitingTip,
            block: Seq::empty(),
            txids: Seq::empty(),
            cursor: 0,
            blocks_done: 0,
            processed: 0,
            successful: 0,
            block_op_return: 0,
            block_events: 0,
            accepted: Seq::empty(),
        }
    }

    /// What holds of every state that a scan reaches.
    pub open spec fn wf(self) -> bool {
        &&& self.blocks_done <= self.requested
        &&& self.cursor <= tx_limit(self.txids.len())
        &&& self.phase == Phase::AwaitingTip ==> self.blocks_done == 0
        &&& self.phase == Phase::AwaitingTransactionIds ==> self.blocks_done < self.requested
            && self.cursor == 0
        &&& self.phase == Phase::AwaitingTransaction ==> self.blocks_done < self.requested
            && self.cursor < tx_limit(self.txids.len())
        &&& self.phase == Phase::AwaitingPredecessor ==> 0 < self.blocks_done < self.requested
        &&& self.processed <= MAX_TRANSACTIONS_PER_BLOCK * self.blocks_done + self.cursor
        &&& self.phase == Phase::AwaitingTip || self.phase == Phase::AwaitingTransactionIds
            || self.phase == Phase::AwaitingPredecessor ==> self.processed
            <= MAX_TRANSACTIONS_PER_BLOCK * self.blocks_done
        &&& self.successful <= self.processed
        &&& self.block_op_return <= self.cursor * 0x1_0000_0000_0000_0000
        &&& self.block_events <= self.cursor * 0x1_0000_0000_0000_0000
    }

    /// The scan, ended for good.
    pub open spec fn finished(self) -> ScanModel {
        ScanModel { phase: Phase::Finished, ..self }
    }

    /// The scan, given up.
    pub open spec fn failed(self) -> ScanModel {
        ScanModel { phase: Phase::Failed, ..self }
    }

    /// The scan at the start of a block: the counters of the block scope
    /// start again, those of the run stay.
    pub open spec fn enter_block(self, block: Seq<char>) -> ScanModel {
        ScanModel {
            phase: Phase::AwaitingTransactionIds,
            block,
            txids: Seq::empty(),
            cursor: 0,
            block_op_return: 0,
            block_events: 0,
            ..self
        }
    }

    /// The scan with one readable transaction of the current block
    /// counted in: its accepted events are added in the order of its
    /// outputs, each with the current block, and both scopes count.
    pub open spec fn record_transaction(self, tx: Transaction) -> ScanModel {
        let found = found_events(self.block, tx, tx.vout@.len() as int);
        ScanModel {
            cursor: self.cursor + 1,
            processed: self.processed + 1,
            successful: self.successful + 1,
            block_op_return: self.block_op_return + op_return_outputs(tx, tx.vout@.len() as int),
            block_events: self.block_events + found.len(),
            accepted: self.accepted + found,
            ..self
        }
    }

    /// The scan with one transaction passed over: it was asked for and
    /// did not come back readable.
    pub open spec fn record_skipped(self) -> ScanModel {
        ScanModel { cursor: self.cursor + 1, processed: self.processed + 1, ..self }
    }

    /// The scan after a transaction, or after the ids came: it goes on
    /// with the next transaction within the limit; else the block is
    /// complete, and the scan ends if that was the last block asked for.
    pub open spec fn settle(self) -> ScanModel {
        if self.cursor < tx_limit(self.txids.len()) {
            ScanModel { phase: Phase::AwaitingTransaction, ..self }
        } else {
            ScanModel {
                blocks_done: self.blocks_done + 1,
                phase: if self.blocks_done + 1 >= self.requested {
                    Phase::Finished
                } else {
                    Phase::AwaitingPredecessor
                },
                ..self
            }
        }
    }

    /// The state after an event. An answer that was not asked for, and
    /// any failure but that of a single transaction, gives the scan up; a
    /// transaction that fails alone is passed over. A scan that has ended
    /// stays as it is.
    pub open spec fn next(self, event: ScanEvent) -> ScanModel {
        match self.phase {
            Phase::AwaitingTip => match event {
                ScanEvent::Tip(Ok(hash)) => if self.requested == 0 {
                    self.finished()
                } else {
                    self.enter_block(hash@)
                },
                _ => self.failed(),
            },
            Phase::AwaitingTransactionIds => match event {
                ScanEvent::TransactionIds(Ok(ids)) => (ScanModel {
                    txids: ids_view(ids@),
                    ..self
                }).settle(),
                _ => self.failed(),
            },
            Phase::AwaitingTransaction => match event {
                ScanEvent::Transaction(Ok(tx)) => self.record_transaction(tx).settle(),
                ScanEvent::Transaction(Err(_)) => self.record_skipped().settle(),
                _ => self.failed(),
            },
            Phase::AwaitingPredecessor => match event {
                ScanEvent::Predecessor(Ok(Some(hash))) => self.enter_block(hash@),
                ScanEvent::Predecessor(Ok(None)) => self.finished(),
                _ => self.failed(),
            },
            Phase::Finished => self,
            Phase::Failed => self,
        }
    }

    /// What the caller is to do in this state.
    pub open spec fn action(self) -> ActionView {
        match self.phase {
            Phase::AwaitingTip => ActionView::FetchTip,
            Phase::AwaitingTransactionIds => ActionView::FetchTransactionIds { block: self.block },
            Phase::AwaitingTransaction => ActionView::FetchTransaction {
                txid: self.txids[self.cursor as int],
            },
            Phase::AwaitingPredecessor => ActionView::FetchPredecessor { block: self.block },
            Phase::Finished => ActionView::Finish,
            Phase::Failed => ActionView::Fail,
        }
    }
}

/// Every state that a scan reaches is well-formed: a scan starts so and
/// each event keeps it so. In particular no more blocks are done than
/// were asked for, and no more transactions counted as readable than were
/// counted at all.
pub proof fn lemma_scan_stays_wf(state: ScanModel, event: ScanEvent)
    requires
        state.wf(),
    ensures
        ScanModel::start(state.requested).wf(),
        state.next(event).wf(),
        state.next(event).requested == state.requested,
{
    match event {
        ScanEvent::Transaction(Ok(tx)) => {
            vstd::std_specs::vec::axiom_spec_len(&tx.vout);
            lemma_found_events_passed(state.block, tx, tx.vout@.len() as int);
        },
        _ => {},
    }
}

/// A block without a predecessor ends the scan: whatever number of
/// blocks was asked for, the scan is finished with the blocks that are
/// complete, fewer than were asked for, and nothing else changes.
pub proof fn lemma_no_predecessor_ends_scan(state: ScanModel)
    requires
        state.wf(),
        state.phase == Phase::AwaitingPredecessor,
    ensures
        state.next(ScanEvent::Predecessor(Ok(None))) == (ScanModel {
            phase: Phase::Finished,
            ..state
        }),
        state.next(ScanEvent::Predecessor(Ok(None))).action() == ActionView::Finish,
        state.next(ScanEvent::Predecessor(Ok(None))).blocks_done < state.requested,
{
}

/// A scan that has ended stays as it is, whatever comes.
pub proof fn lemma_ended_scan_stays(state: ScanModel, event: ScanEvent)
    requires
        state.phase == Phase::Finished || state.phase == Phase::Failed,
    ensures
        state.next(event) == state,
{
}

/// A request for the tip, for the ids of a block or for a predecessor
/// that fails gives the scan up. A transaction that fails does not: it
/// is counted as asked for, not as readable, and the scan goes on.
pub proof fn lemma_failures(state: ScanModel, error: TransportError)
    requires
        state.wf(),
    ensures
        state.phase == Phase::AwaitingTip ==> state.next(ScanEvent::Tip(Err(error))).phase
            == Phase::Failed,
        state.phase == Phase::AwaitingTransactionIds ==> state.next(
            ScanEvent::TransactionIds(Err(error)),
        ).phase == Phase::Failed,
        state.phase == Phase::AwaitingPredecessor ==> state.next(
            ScanEvent::Predecessor(Err(error)),
        ).phase == Phase::Failed,
        state.phase == Phase::AwaitingTransaction ==> {
            let next = state.next(ScanEvent::Transaction(Err(error)));
            &&& next.phase != Phase::Failed
            &&& next.processed == state.processed + 1
            &&& next.successful == state.successful
            &&& next.accepted == state.accepted
        },
{
}

/// Each block starts with the counters of the block scope at zero, and
/// leaves those of the run as they were.
pub proof fn lemma_block_scope_starts_again(state: ScanModel, predecessor: String)
    requires
        state.wf(),
        state.phase == Phase::AwaitingPredecessor,
    ensures
        ({
            let next = state.next(ScanEvent::Predecessor(Ok(Some(predecessor))));
            &&& next.phase == Phase::AwaitingTransactionIds
            &&& next.block == predecessor@
            &&& next.block_op_return == 0
            &&& next.block_events == 0
            &&& next.blocks_done == state.blocks_done
            &&& next.processed == state.processed
            &&& next.successful == state.successful
            &&& next.accepted == state.accepted
        }),
{
}

/// Of a block, no more than `MAX_TRANSACTIONS_PER_BLOCK` transactions are
/// asked for, and none beyond those it has.
pub proof fn lemma_transactions_within_limit(state: ScanModel)
    requires
        state.wf(),
        state.phase == Phase::AwaitingTransaction,
    ensures
        state.cursor < MAX_TRANSACTIONS_PER_BLOCK,
        state.cursor < state.txids.len(),
        state.action() == (ActionView::FetchTransaction { txid: state.txids[state.cursor as int] }),
{
}

/// The counters of the run.
#[derive(Debug, Clone, Copy)]
pub struct ScanStats {
    /// Blocks that are complete.
    pub blocks: usize,
    /// Transactions asked for and answered, readable or not.
    pub processed: u128,
    /// Transactions that came back readable.
    pub successful: u128,
    /// Events accepted.
    pub events: usize,
}

/// The counters of the current block. They start again with each block.
#[derive(Debug, Clone, Copy)]
pub struct BlockCounters {
    /// Outputs that open with the data opcode.
    pub op_return_outputs: u128,
    /// Events accepted.
    pub events: u128,
}

/// What a scan found.
#[derive(Debug)]
pub struct ScanReport {
    /// The accepted events, in the order they were found.
    pub events: Vec<FoundEvent>,
    pub stats: ScanStats,
    /// The counters of the block that was scanned last.
    pub last_block: BlockCounters,
}

/// A scan in progress.
#[derive(Debug)]
pub struct Scanner {
    requested: usize,
    phase: Phase,
    block: String,
    txids: Vec<String>,
    cursor: usize,
    blocks_done: usize,
    processed: u128,
    successful: u128,
    block_op_return: u128,
    block_events: u128,
    accepted: Vec<FoundEvent>,
}

impl View for Scanner {
    type V = ScanModel;

    closed spec fn view(&self) -> ScanModel {
        ScanModel {
            requested: self.requested as nat,
            phase: self.phase,
            block: self.block@,
            txids: ids_view(self.txids@),
            cursor: self.cursor as nat,
            blocks_done: self.blocks_done as nat,
            processed: self.processed as nat,
            successful: self.successful as nat,
            block_op_return: self.block_op_return as nat,
            block_events: self.block_events as nat,
            accepted: found_view(self.accepted@),
        }
    }
}

impl Scanner {
    #[verifier::type_invariant]
    spec fn inv(self) -> bool {
        self@.wf()
    }

    /// Starts a scan of `requested` blocks. The first thing to ask for is
    /// the tip, also where no block is asked for.
    pub fn new(requested: usize) -> (start: (Scanner, ScanAction))
        ensures
            start.0@ == ScanModel::start(requested as nat),
            start.1@ == ActionView::FetchTip,
            start.0@.wf(),
    {
        let scanner = Scanner {
            requested,
            phase: Phase::AwaitingTip,
            block: String::new(),
            txids: Vec::new(),
            cursor: 0,
            blocks_done: 0,
            processed: 0,
            successful: 0,
            block_op_return: 0,
            block_events: 0,
            accepted: Vec::new(),
        };
        assert(scanner@.txids =~= Seq::empty());
        assert(scanner@.accepted =~= Seq::empty());
        (scanner, ScanAction::FetchTip)
    }

    /// Where the scan stands.
    pub fn phase(&self) -> (phase: Phase)
        ensures
            phase == self@.phase,
    {
        self.phase
    }

    /// The counters of the run.
    pub fn stats(&self) -> (stats: ScanStats)
        ensures
            self@.wf(),
            stats.blocks == self@.blocks_done,
            stats.processed == self@.processed,
            stats.successful == self@.successful,
            stats.events == self@.accepted.len(),
    {
        proof {
            use_type_invariant(self);
        }
        ScanStats {
            blocks: self.blocks_done,
            processed: self.processed,
            successful: self.successful,
            events: self.accepted.len(),
        }
    }

    /// The counters of the current block; once a block is complete, they
    /// stay until the next block starts.
    pub fn block_counters(&self) -> (counters: BlockCounters)
        ensures
            counters.op_return_outputs == self@.block_op_return,
            counters.events == self@.block_events,
    {
        BlockCounters { op_return_outputs: self.block_op_return, events: self.block_events }
    }

    /// The events accepted so far, in the order they were found.
    pub fn accepted(&self) -> (events: &Vec<FoundEvent>)
        ensures
            found_view(events@) == self@.accepted,
    {
        &self.accepted
    }

    /// What the caller is to do in this state.
    pub fn pending(&self) -> (action: ScanAction)
        ensures
            action@ == self@.action(),
    {
        proof {
            use_type_invariant(self);
        }
        match self.phase {
            Phase::AwaitingTip => ScanAction::FetchTip,
            Phase::AwaitingTransactionIds => ScanAction::FetchTransactionIds {
                block: self.block.clone(),
            },
            Phase::AwaitingTransaction => ScanAction::FetchTransaction {
                txid: self.txids[self.cursor].clone(),
            },
            Phase::AwaitingPredecessor => ScanAction::FetchPredecessor {
                block: self.block.clone(),
            },
            Phase::Finished => ScanAction::Finish,
            Phase::Failed => ScanAction::Fail,
        }
    }

    /// Ends the scan and hands out what it found.
    pub fn into_report(self) -> (report: ScanReport)
        ensures
            found_view(report.events@) == self@.accepted,
            report.stats.blocks == self@.blocks_done,
            report.stats.processed == self@.processed,
            report.stats.successful == self@.successful,
            report.stats.events == self@.accepted.len(),
            report.last_block.op_return_outputs == self@.block_op_return,
            report.last_block.events == self@.block_events,
    {
        let stats = self.stats();
        let last_block = self.block_counters();
        ScanReport { events: self.accepted, stats, last_block }
    }

    fn with_phase(self, phase: Phase) -> (next: Scanner)
        requires
            (ScanModel { phase, ..self@ }).wf(),
        ensures
            next@ == (ScanModel { phase, ..self@ }),
    {
        Scanner { phase, ..self }
    }

    fn enter_block(self, block: String) -> (next: Scanner)
        requires
            self@.enter_block(block@).wf(),
        ensures
            next@ == self@.enter_block(block@),
    {
        let next = Scanner {
            phase: Phase::AwaitingTransactionIds,
            block,
            txids: Vec::new(),
            cursor: 0,
            block_op_return: 0,
            block_events: 0,
            ..self
        };
        assert(next@.txids =~= Seq::empty());
        next
    }

    /// Where a block stands once `cursor` of its `count` transactions
    /// are dealt with: the phase, and the number of complete blocks.
    fn settle(count: usize, cursor: usize, blocks_done: usize, requested: usize) -> (next: (
        Phase,
        usize,
    ))
        requires
            blocks_done < requested,
        ensures
            cursor < tx_limit(count as nat) ==> next == (Phase::AwaitingTransaction, blocks_done),
            cursor >= tx_limit(count as nat) ==> next.1 == blocks_done + 1 && next.0 == (if blocks_done
                + 1 >= requested {
                Phase::Finished
            } else {
                Phase::AwaitingPredecessor
            }),
    {
        let limit: usize = if count < MAX_TRANSACTIONS_PER_BLOCK {
            count
        } else {
            MAX_TRANSACTIONS_PER_BLOCK
        };
        if cursor < limit {
            (Phase::AwaitingTransaction, blocks_done)
        } else if blocks_done + 1 >= requested {
            (Phase::Finished, blocks_done + 1)
        } else {
            (Phase::AwaitingPredecessor, blocks_done + 1)
        }
    }

    /// Takes what came of the request that the scan asked for, and gives
    /// the scan after it with what to do next.
    ///
    /// The tip starts the first block, or ends the scan at once where no
    /// block was asked for. The ids of a block start its transactions,
    /// the first `MAX_TRANSACTIONS_PER_BLOCK` of them at most. Each
    /// transaction is counted; one that came back readable has its
    /// outputs classified and validated, and the accepted events are
    /// kept; one that failed is passed over. After the last transaction
    /// the block is complete: the scan ends if that was the last block
    /// asked for, else it asks for the predecessor, and ends if there is
    /// none. A failure of any request but that of a transaction, and an
    /// answer that was not asked for, give the scan up. A scan that has
    /// ended stays as it is.
    pub fn step(self, event: ScanEvent) -> (next: (Scanner, ScanAction))
        ensures
            next.0@ == self@.next(event),
            next.1@ == next.0@.action(),
            self@.wf(),
            next.0@.wf(),
    {
        proof {
            use_type_invariant(&self);
            lemma_scan_stays_wf(self@, event);
        }
        let scanner = match self.phase {
            Phase::AwaitingTip => match event {
                ScanEvent::Tip(Ok(hash)) => if self.requested == 0 {
                    self.with_phase(Phase::Finished)
                } else {
                    self.enter_block(hash)
                },
                _ => self.with_phase(Phase::Failed),
            },
            Phase::AwaitingTransactionIds => match event {
                ScanEvent::TransactionIds(Ok(ids)) => {
                    let (phase, blocks_done) = Self::settle(
                        ids.len(),
                        self.cursor,
                        self.blocks_done,
                        self.requested,
                    );
                    Scanner { txids: ids, phase, blocks_done, ..self }
                },
                _ => self.with_phase(Phase::Failed),
            },
            Phase::AwaitingTransaction => match event {
                ScanEvent::Transaction(Ok(tx)) => {
                    let scan = scan_outputs(&self.block, &tx);
                    proof {
                        lemma_found_events_passed(self.block@, tx, tx.vout@.len() as int);
                    }
                    let ghost before = found_view(self.accepted@);
                    let found: u128 = scan.events.len() as u128;
                    let mut accepted = self.accepted;
                    let mut events = scan.events;
                    accepted.append(&mut events);
                    assert(found_view(accepted@) =~= before + found_events(
                        self.block@,
                        tx,
                        tx.vout@.len() as int,
                    ));
                    let (phase, blocks_done) = Self::settle(
                        self.txids.len(),
                        self.cursor + 1,
                        self.blocks_done,
                        self.requested,
                    );
                    Scanner {
                        phase,
                        blocks_done,
                        cursor: self.cursor + 1,
                        processed: self.processed + 1,
                        successful: self.successful + 1,
                        block_op_return: self.block_op_return + scan.op_return_outputs as u128,
                        block_events: self.block_events + found,
                        accepted,
                        ..self
                    }
                },
                ScanEvent::Transaction(Err(_)) => {
                    let (phase, blocks_done) = Self::settle(
                        self.txids.len(),
                        self.cursor + 1,
                        self.blocks_done,
                        self.requested,
                    );
                    Scanner {
                        phase,
                        blocks_done,
                        cursor: self.cursor + 1,
                        processed: self.processed + 1,
                        ..self
                    }
                },
                _ => self.with_phase(Phase::Failed),
            },
            Phase::AwaitingPredecessor => match event {
                ScanEvent::Predecessor(Ok(Some(hash))) => self.enter_block(hash),
                ScanEvent::Predecessor(Ok(None)) => self.with_phase(Phase::Finished),
                _ => self.with_phase(Phase::Failed),
            },
            Phase::Finished => self,
            Phase::Failed => self,
        };
        let action = scanner.pending();
        (scanner, action)
    }
}

} // verus!
