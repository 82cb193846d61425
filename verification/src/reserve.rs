//! Buying a chair: taking one unit of its stock, never more than there is.
//!
//! A reservation is one transaction of the store. The row of the chair is
//! read under a write lock, and only if it has stock left; the stock is taken
//! down by one only after that read has found the row, and the transaction is
//! committed only after that. Whatever else happens, the transaction is
//! rolled back. This module holds the reservation itself and what comes of
//! reservations made one after another; what comes of reservations made at
//! once stands in `contention`.

use vstd::prelude::*;
use vstd::string::StringExecFns;
use crate::error::ErrorKind;
use crate::predicate::{BoundValue, BoundValueView};
use crate::query::{Query, QueryView};

verus! {

/// What a reservation reads of a chair: its id and the units left of it.
#[derive(Debug, Clone, Copy, PartialEq, Eq, Structural)]
pub struct InventoryRow {
    pub id: i64,
    pub stock: i64,
}

/// How far a reservation has come.
#[derive(Debug, Clone, Copy, PartialEq, Eq, Structural)]
pub enum ReservePhase {
    /// The transaction is being opened.
    Opening,
    /// The locking read of the row is out.
    Locking,
    /// The update of the stock is out.
    Decrementing,
    /// The commit is out.
    Committing,
    /// The reservation has ended.
    Closed,
}

/// A reservation under way.
#[derive(Debug, Clone, Copy, PartialEq, Eq, Structural)]
pub struct Reservation {
    pub item_id: i64,
    pub phase: ReservePhase,
}

/// What the store answered.
#[derive(Debug, Clone, Copy, PartialEq, Eq, Structural)]
pub enum ReserveEvent {
    /// The transaction is open.
    Opened,
    /// The locking read's row: the chair, if it exists and has stock left.
    Locked(Option<InventoryRow>),
    /// The stock has been taken down.
    Decremented,
    /// The transaction is committed.
    Committed,
    /// The store failed or timed out.
    Failed,
}

/// How a reservation ended, and whether its transaction is still to be
/// rolled back.
#[derive(Debug, Clone, Copy, PartialEq, Eq)]
pub struct Settlement {
    pub rollback: bool,
    pub result: Result<(), ErrorKind>,
}

/// What the caller does next.
#[derive(Debug, PartialEq, Eq)]
pub enum ReserveStep {
    /// Open a transaction and answer with `Opened`.
    Begin,
    /// Run the locking read in the transaction and answer with `Locked`.
    Lock(Query),
    /// Run the update in the transaction and answer with `Decremented`.
    Decrement(Query),
    /// Commit the transaction and answer with `Committed`.
    Commit,
    /// The reservation has ended: roll the transaction back if told to, and
    /// report the result.
    Done(Settlement),
}

/// A `ReserveStep` with its query as sequences.
pub enum ReserveStepView {
    Begin,
    Lock(QueryView),
    Decrement(QueryView),
    Commit,
    Done(Settlement),
}

impl View for ReserveStep {
    type V = ReserveStepView;

    open spec fn view(&self) -> ReserveStepView {
        match *self {
            ReserveStep::Begin => ReserveStepView::Begin,
            ReserveStep::Lock(query) => ReserveStepView::Lock(query@),
            ReserveStep::Decrement(query) => ReserveStepView::Decrement(query@),
            ReserveStep::Commit => ReserveStepView::Commit,
            ReserveStep::Done(settlement) => ReserveStepView::Done(settlement),
        }
    }
}

/// The read of the chair's row under a write lock, only if it has stock left.
pub open spec fn lock_query(item_id: i64) -> QueryView {
    QueryView {
        text: "select * from chair where id = ? and stock > 0 for update"@,
        values: seq![BoundValueView::Int(item_id)],
    }
}

/// The update that takes the chair's stock down by one.
pub open spec fn decrement_query(item_id: i64) -> QueryView {
    QueryView {
        text: "update chair set stock = stock - 1 where id = ?"@,
        values: seq![BoundValueView::Int(item_id)],
    }
}

/// A reservation at its start, and its first step: opening the transaction.
pub open spec fn reserve_start(item_id: i64) -> (Reservation, ReserveStepView) {
    (Reservation { item_id, phase: ReservePhase::Opening }, ReserveStepView::Begin)
}

/// The end of a reservation with the given result. A transaction that was
/// opened and has not been committed is rolled back.
pub open spec fn settled(state: Reservation, result: Result<(), ErrorKind>) -> (
    Reservation,
    ReserveStepView,
) {
    let rollback = result is Err && (state.phase == ReservePhase::Locking || state.phase
        == ReservePhase::Decrementing || state.phase == ReservePhase::Committing);
    (
        Reservation { phase: ReservePhase::Closed, ..state },
        ReserveStepView::Done(Settlement { rollback, result }),
    )
}

/// The reservation after the store's answer `event`, and its next step.
///
/// Each answer that the reservation was waiting for leads to the next step
/// of the transaction; a locking read without a row ends it with
/// `OutOfStockOrNotFound`, whether the chair is sold out or was never there.
/// A failure, or an answer that the reservation was not waiting for, ends it
/// with `StorageUnavailable`.
pub open spec fn reserve_next(state: Reservation, event: ReserveEvent) -> (
    Reservation,
    ReserveStepView,
) {
    match (state.phase, event) {
        (ReservePhase::Opening, ReserveEvent::Opened) => (
            Reservation { phase: ReservePhase::Locking, ..state },
            ReserveStepView::Lock(lock_query(state.item_id)),
        ),
        (ReservePhase::Locking, ReserveEvent::Locked(Some(_))) => (
            Reservation { phase: ReservePhase::Decrementing, ..state },
            ReserveStepView::Decrement(decrement_query(state.item_id)),
        ),
        (ReservePhase::Locking, ReserveEvent::Locked(None)) => settled(
            state,
            Err(ErrorKind::OutOfStockOrNotFound),
        ),
        (ReservePhase::Decrementing, ReserveEvent::Decremented) => (
            Reservation { phase: ReservePhase::Committing, ..state },
            ReserveStepView::Commit,
        ),
        (ReservePhase::Committing, ReserveEvent::Committed) => settled(state, Ok(())),
        _ => settled(state, Err(ErrorKind::StorageUnavailable)),
    }
}

fn item_query(text: &str, item_id: i64) -> (query: Query)
    ensures
        query@ == (QueryView { text: text@, values: seq![BoundValueView::Int(item_id)] }),
{
    let mut values: Vec<BoundValue> = Vec::new();
    values.push(BoundValue::Int(item_id));
    assert(values.deep_view() =~= seq![BoundValueView::Int(item_id)]);
    Query { text: String::from_str(text), values }
}

/// Starts the purchase of the chair with id `item_id`.
pub fn buy_chair(item_id: i64) -> (begun: (Reservation, ReserveStep))
    ensures
        (begun.0, begun.1@) == reserve_start(item_id),
{
    (Reservation { item_id, phase: ReservePhase::Opening }, ReserveStep::Begin)
}

impl Reservation {
    fn settle(self, result: Result<(), ErrorKind>) -> (next: (Reservation, ReserveStep))
        ensures
            (next.0, next.1@) == settled(self, result),
    {
        let open = match self.phase {
            ReservePhase::Locking => true,
            ReservePhase::Decrementing => true,
            ReservePhase::Committing => true,
            _ => false,
        };
        let rollback = result.is_err() && open;
        (
            Reservation { item_id: self.item_id, phase: ReservePhase::Closed },
            ReserveStep::Done(Settlement { rollback, result }),
        )
    }

    /// Takes the store's answer and says what to do next.
    pub fn step(self, event: ReserveEvent) -> (next: (Reservation, ReserveStep))
        ensures
            (next.0, next.1@) == reserve_next(self, event),
    {
        match (self.phase, event) {
            (ReservePhase::Opening, ReserveEvent::Opened) => (
                Reservation { item_id: self.item_id, phase: ReservePhase::Locking },
                ReserveStep::Lock(
                    item_query(
                        "select * from chair where id = ? and stock > 0 for update",
                        self.item_id,
                    ),
                ),
            ),
            (ReservePhase::Locking, ReserveEvent::Locked(Some(_))) => (
                Reservation { item_id: self.item_id, phase: ReservePhase::Decrementing },
                ReserveStep::Decrement(
                    item_query("update chair set stock = stock - 1 where id = ?", self.item_id),
                ),
            ),
            (ReservePhase::Locking, ReserveEvent::Locked(None)) => self.settle(
                Err(ErrorKind::OutOfStockOrNotFound),
            ),
            (ReservePhase::Decrementing, ReserveEvent::Decremented) => (
                Reservation { item_id: self.item_id, phase: ReservePhase::Committing },
                ReserveStep::Commit,
            ),
            (ReservePhase::Committing, ReserveEvent::Committed) => self.settle(Ok(())),
            _ => self.settle(Err(ErrorKind::StorageUnavailable)),
        }
    }
}

/// The stock of one chair as the store keeps it: the number that everyone
/// sees, and the number inside the transaction that holds the row's lock.
pub struct StockRow {
    pub committed: int,
    pub working: int,
}

/// What a store that does as it is told makes of one step of a reservation,
/// and what it answers. The locking read finds the row only where stock is
/// left; a commit makes the transaction's number the one that everyone sees.
pub open spec fn store_reply(row: StockRow, item_id: i64, step: ReserveStepView) -> (
    StockRow,
    ReserveEvent,
) {
    match step {
        ReserveStepView::Begin => (
            StockRow { working: row.committed, ..row },
            ReserveEvent::Opened,
        ),
        ReserveStepView::Lock(_) => (
            row,
            ReserveEvent::Locked(
                if row.working > 0 {
                    Some(InventoryRow { id: item_id, stock: row.working as i64 })
                } else {
                    None
                },
            ),
        ),
        ReserveStepView::Decrement(_) => (
            StockRow { working: row.working - 1, ..row },
            ReserveEvent::Decremented,
        ),
        ReserveStepView::Commit => (
            StockRow { committed: row.working, ..row },
            ReserveEvent::Committed,
        ),
        ReserveStepView::Done(_) => (row, ReserveEvent::Failed),
    }
}

/// A reservation that is at `step`, run to its end against such a store,
/// within `answers` answers: its result, and the stock that everyone sees
/// afterwards.
pub open spec fn reserve_outcome(
    state: Reservation,
    step: ReserveStepView,
    row: StockRow,
    answers: nat,
) -> (Result<(), ErrorKind>, int)
    decreases answers,
{
    match step {
        ReserveStepView::Done(settlement) => (settlement.result, row.committed),
        _ => {
            if answers == 0 {
                (Err(ErrorKind::StorageUnavailable), row.committed)
            } else {
                let (served, event) = store_reply(row, state.item_id, step);
                let (next, then) = reserve_next(state, event);
                reserve_outcome(next, then, served, (answers - 1) as nat)
            }
        },
    }
}

/// One whole reservation of a chair of which `stock` units are left.
pub open spec fn reserve_once(item_id: i64, stock: int) -> (Result<(), ErrorKind>, int) {
    let (state, step) = reserve_start(item_id);
    reserve_outcome(state, step, StockRow { committed: stock, working: stock }, 4)
}

/// A reservation takes exactly one unit where there is one, and nothing
/// where there is none: with stock left it succeeds and the stock is one
/// less; without, it is refused with `OutOfStockOrNotFound` and the stock is
/// as it was. The stock never goes below zero.
pub proof fn lemma_reserve_once(item_id: i64, stock: int)
    requires
        0 <= stock <= i64::MAX,
    ensures
        stock > 0 ==> reserve_once(item_id, stock) == (Ok::<(), ErrorKind>(()), stock - 1),
        stock == 0 ==> reserve_once(item_id, stock) == (
            Err::<(), ErrorKind>(ErrorKind::OutOfStockOrNotFound),
            stock,
        ),
        reserve_once(item_id, stock).1 >= 0,
{
    reveal_with_fuel(reserve_outcome, 5);
}

/// The outcome of `count` reservations of one chair made one after another:
/// how many succeeded, and the stock that is left.
pub open spec fn reserve_in_turn(item_id: i64, stock: int, count: nat) -> (nat, int)
    decreases count,
{
    if count == 0 {
        (0, stock)
    } else {
        let (reserved, left) = reserve_in_turn(item_id, stock, (count - 1) as nat);
        let (result, after) = reserve_once(item_id, left);
        (
            if result is Ok {
                reserved + 1
            } else {
                reserved
            },
            after,
        )
    }
}

/// Reservations made in turn never sell more than there is: of `count`
/// reservations as many succeed as there are units, or all of them where
/// there are more units than reservations, and each success takes one unit.
/// Against a chair with one unit, exactly one succeeds, the others are
/// refused, and no unit is left.
pub proof fn lemma_reserve_in_turn(item_id: i64, stock: int, count: nat)
    requires
        0 <= stock <= i64::MAX,
    ensures
        reserve_in_turn(item_id, stock, count).0 == if count <= stock {
            count as int
        } else {
            stock
        },
        reserve_in_turn(item_id, stock, count).1 == stock - reserve_in_turn(
            item_id,
            stock,
            count,
        ).0,
        reserve_in_turn(item_id, stock, count).1 >= 0,
    decreases count,
{
    if count > 0 {
        lemma_reserve_in_turn(item_id, stock, (count - 1) as nat);
        let left = reserve_in_turn(item_id, stock, (count - 1) as nat).1;
        lemma_reserve_once(item_id, left);
    }
}

/// The transaction is never left open: a reservation that ends otherwise
/// than by a commit, after its transaction was opened, tells the caller to
/// roll back; and the stock is taken down only in answer to a locking read
/// that found the row.
pub proof fn lemma_reservation_guards(state: Reservation, event: ReserveEvent)
    ensures
        reserve_next(state, event).1 matches ReserveStepView::Done(settlement) ==> (
        settlement.rollback <==> settlement.result is Err && (state.phase == ReservePhase::Locking
            || state.phase == ReservePhase::Decrementing || state.phase
            == ReservePhase::Committing)),
        reserve_next(state, event).1 matches ReserveStepView::Done(settlement) ==> (
        settlement.result is Ok <==> state.phase == ReservePhase::Committing && event
            == ReserveEvent::Committed),
        reserve_next(state, event).1 is Decrement <==> state.phase == ReservePhase::Locking
            && event matches ReserveEvent::Locked(Some(_)),
        reserve_next(state, event).1 is Commit <==> state.phase == ReservePhase::Decrementing
            && event == ReserveEvent::Decremented,
{
}

} // verus!
