//! Several reservations of one chair at once.
//!
//! The reservations run side by side, each at its own pace; the store serves
//! one step at a time, in any order. What keeps them apart is the lock on the
//! chair's row: the locking read of a reservation waits while another
//! reservation holds the lock, and the lock is held until the transaction
//! commits or is rolled back. This module states that discipline as a model
//! of the store and proves that, whatever the order of the steps, no more
//! units are sold than there are.

use vstd::prelude::*;
use crate::error::ErrorKind;
use crate::reserve::{
    decrement_query, lock_query, reserve_next, reserve_start, InventoryRow, ReserveEvent,
    ReservePhase, Reservation, ReserveStepView,
};

verus! {

/// One of the reservations: where it stands, and the step that the store is
/// to serve for it next.
pub struct Party {
    pub state: Reservation,
    pub step: ReserveStepView,
}

/// The chair's row in the store, and the reservations that contend for it.
pub struct Contention {
    /// The committed stock, as every transaction reads it.
    pub stock: int,
    /// The reservation that holds the lock on the row, if any does.
    pub holder: Option<int>,
    /// Whether the holder has taken the stock down inside its transaction.
    pub taken: bool,
    pub parties: Seq<Party>,
}

/// `count` reservations of the chair `item_id`, none of them begun, against
/// a row with `stock` units.
pub open spec fn contention_start(item_id: i64, stock: int, count: nat) -> Contention {
    Contention {
        stock,
        holder: None,
        taken: false,
        parties: Seq::new(
            count,
            |k: int| Party { state: reserve_start(item_id).0, step: reserve_start(item_id).1 },
        ),
    }
}

/// The contention after the reservation `who` has been given the answer
/// `event` to its step.
pub open spec fn answered(world: Contention, who: int, event: ReserveEvent) -> Contention {
    let (state, step) = reserve_next(world.parties[who].state, event);
    Contention { parties: world.parties.update(who, Party { state, step }), ..world }
}

/// The contention after the store has served the next step of the
/// reservation `who`.
///
/// A transaction is opened at once. The locking read waits while another
/// reservation holds the lock; otherwise it finds the row, and takes the
/// lock, exactly if stock is left. The update and the commit are those of
/// the holder: the update takes the stock down inside the transaction, the
/// commit makes that the stock that everyone reads and gives the lock back.
/// A rollback gives the lock back and leaves the stock as it was.
pub open spec fn turn(world: Contention, who: int) -> Contention {
    if !(0 <= who < world.parties.len()) {
        world
    } else {
        let party = world.parties[who];
        let holds = world.holder == Some(who);
        match party.step {
            ReserveStepView::Begin => answered(world, who, ReserveEvent::Opened),
            ReserveStepView::Lock(_) => {
                if world.holder is Some && !holds {
                    world
                } else if world.stock > 0 {
                    answered(
                        Contention { holder: Some(who), taken: false, ..world },
                        who,
                        ReserveEvent::Locked(
                            Some(InventoryRow { id: party.state.item_id, stock: world.stock as i64 }),
                        ),
                    )
                } else {
                    answered(world, who, ReserveEvent::Locked(None))
                }
            },
            ReserveStepView::Decrement(_) => {
                if holds {
                    answered(Contention { taken: true, ..world }, who, ReserveEvent::Decremented)
                } else {
                    world
                }
            },
            ReserveStepView::Commit => {
                if holds {
                    answered(
                        Contention {
                            stock: if world.taken {
                                world.stock - 1
                            } else {
                                world.stock
                            },
                            holder: None,
                            taken: false,
                            ..world
                        },
                        who,
                        ReserveEvent::Committed,
                    )
                } else {
                    world
                }
            },
            ReserveStepView::Done(settlement) => {
                if settlement.rollback && holds {
                    Contention { holder: None, taken: false, ..world }
                } else {
                    world
                }
            },
        }
    }
}

/// The contention after the store has served the steps of `schedule`, each
/// entry naming the reservation whose step is served.
pub open spec fn contend(world: Contention, schedule: Seq<int>) -> Contention
    decreases schedule.len(),
{
    if schedule.len() == 0 {
        world
    } else {
        turn(contend(world, schedule.drop_last()), schedule.last())
    }
}

/// Whether the reservation has ended with `result`.
pub open spec fn ended_with(party: Party, result: Result<(), ErrorKind>) -> bool {
    party.step matches ReserveStepView::Done(settlement) && settlement.result == result
}

/// How many of `parties` have ended with `result`.
pub open spec fn tally(parties: Seq<Party>, result: Result<(), ErrorKind>) -> nat
    decreases parties.len(),
{
    if parties.len() == 0 {
        0
    } else {
        tally(parties.drop_last(), result) + if ended_with(parties.last(), result) {
            1nat
        } else {
            0nat
        }
    }
}

impl Contention {
    /// How many reservations have succeeded.
    pub open spec fn reserved(self) -> nat {
        tally(self.parties, Ok(()))
    }

    /// How many reservations have been refused for want of stock.
    pub open spec fn refused(self) -> nat {
        tally(self.parties, Err(ErrorKind::OutOfStockOrNotFound))
    }

    /// Whether every reservation has ended.
    pub open spec fn settled(self) -> bool {
        forall|k: int| 0 <= k < self.parties.len() ==> (#[trigger] self.parties[k]).step is Done
    }
}

/// Whether the reservation stands where its step says, for the chair
/// `item_id`, and has ended, if it has, in success or in a refusal for want
/// of stock.
spec fn coherent(party: Party, item_id: i64) -> bool {
    &&& party.state.item_id == item_id
    &&& match party.state.phase {
        ReservePhase::Opening => party.step == ReserveStepView::Begin,
        ReservePhase::Locking => party.step == ReserveStepView::Lock(lock_query(item_id)),
        ReservePhase::Decrementing => party.step == ReserveStepView::Decrement(
            decrement_query(item_id),
        ),
        ReservePhase::Committing => party.step == ReserveStepView::Commit,
        ReservePhase::Closed => ended_with(party, Ok(())) || ended_with(
            party,
            Err(ErrorKind::OutOfStockOrNotFound),
        ),
    }
}

/// Whether the reservation is inside the part of its transaction that needs
/// the lock.
spec fn inside(party: Party) -> bool {
    party.state.phase == ReservePhase::Decrementing || party.state.phase
        == ReservePhase::Committing
}

/// What holds of the contention at every moment.
spec fn sound(world: Contention, item_id: i64, stock: int, count: nat) -> bool {
    &&& world.parties.len() == count
    &&& forall|k: int| 0 <= k < count ==> coherent(#[trigger] world.parties[k], item_id)
    &&& world.stock >= 0
    &&& world.stock + world.reserved() == stock
    &&& (world.refused() > 0 ==> world.stock == 0)
    &&& match world.holder {
        Some(h) => {
            &&& 0 <= h < count
            &&& world.stock > 0
            &&& inside(world.parties[h])
            &&& (world.taken <==> world.parties[h].state.phase == ReservePhase::Committing)
        },
        None => !world.taken,
    }
    &&& forall|k: int|
        0 <= k < count && world.holder != Some(k) ==> !inside(#[trigger] world.parties[k])
}

proof fn lemma_tally_of_update(
    parties: Seq<Party>,
    who: int,
    party: Party,
    result: Result<(), ErrorKind>,
)
    requires
        0 <= who < parties.len(),
    ensures
        tally(parties.update(who, party), result) + if ended_with(parties[who], result) {
            1nat
        } else {
            0nat
        } == tally(parties, result) + if ended_with(party, result) {
            1nat
        } else {
            0nat
        },
    decreases parties.len(),
{
    let updated = parties.update(who, party);
    if who == parties.len() - 1 {
        assert(updated.drop_last() =~= parties.drop_last());
    } else {
        assert(updated.drop_last() =~= parties.drop_last().update(who, party));
        lemma_tally_of_update(parties.drop_last(), who, party, result);
    }
}

proof fn lemma_tally_of_fresh(parties: Seq<Party>, result: Result<(), ErrorKind>)
    requires
        forall|k: int| 0 <= k < parties.len() ==> !((#[trigger] parties[k]).step is Done),
    ensures
        tally(parties, result) == 0,
    decreases parties.len(),
{
    if parties.len() > 0 {
        assert(!(parties[parties.len() - 1].step is Done));
        lemma_tally_of_fresh(parties.drop_last(), result);
    }
}

proof fn lemma_tally_of_settled(parties: Seq<Party>, item_id: i64)
    requires
        forall|k: int| 0 <= k < parties.len() ==> coherent(#[trigger] parties[k], item_id),
        forall|k: int| 0 <= k < parties.len() ==> (#[trigger] parties[k]).step is Done,
    ensures
        tally(parties, Ok(())) + tally(parties, Err(ErrorKind::OutOfStockOrNotFound))
            == parties.len(),
    decreases parties.len(),
{
    if parties.len() > 0 {
        let last = parties[parties.len() - 1];
        assert(coherent(last, item_id));
        assert(last.step is Done);
        lemma_tally_of_settled(parties.drop_last(), item_id);
    }
}

proof fn lemma_tally_at_most(parties: Seq<Party>, result: Result<(), ErrorKind>)
    ensures
        tally(parties, result) <= parties.len(),
    decreases parties.len(),
{
    if parties.len() > 0 {
        lemma_tally_at_most(parties.drop_last(), result);
    }
}

proof fn lemma_turn_keeps_sound(world: Contention, who: int, item_id: i64, stock: int, count: nat)
    requires
        sound(world, item_id, stock, count),
        stock <= i64::MAX,
    ensures
        sound(turn(world, who), item_id, stock, count),
{
    if 0 <= who < world.parties.len() {
        let party = world.parties[who];
        let after = turn(world, who);
        assert(coherent(party, item_id));
        let reserved = Ok::<(), ErrorKind>(());
        let refused = Err::<(), ErrorKind>(ErrorKind::OutOfStockOrNotFound);
        if after.parties != world.parties {
            let next = after.parties[who];
            assert(after.parties == world.parties.update(who, next));
            lemma_tally_of_update(world.parties, who, next, reserved);
            lemma_tally_of_update(world.parties, who, next, refused);
            assert(coherent(next, item_id));
            assert forall|k: int| 0 <= k < count implies coherent(
                #[trigger] after.parties[k],
                item_id,
            ) by {
                if k != who {
                    assert(after.parties[k] == world.parties[k]);
                }
            }
            assert forall|k: int| 0 <= k < count && after.holder != Some(k) implies !inside(
                #[trigger] after.parties[k],
            ) by {
                if k != who {
                    assert(after.parties[k] == world.parties[k]);
                }
            }
            if let Some(h) = after.holder {
                if h != who {
                    assert(after.parties[h] == world.parties[h]);
                }
            }
        }
    }
}

/// What contending reservations come to. Whatever the order in which the
/// store serves their steps: the stock never goes below zero; every unit
/// that has left the stock went to one reservation that succeeded; and once
/// all have ended, as many have succeeded as there were units, or all of
/// them where there were more units than reservations, and all the others
/// were refused for want of stock. Of any number of reservations of a chair
/// with one unit, exactly one succeeds and no unit is left.
pub proof fn lemma_contended_reservations(
    item_id: i64,
    stock: int,
    count: nat,
    schedule: Seq<int>,
)
    requires
        0 <= stock <= i64::MAX,
    ensures
        ({
            let world = contend(contention_start(item_id, stock, count), schedule);
            &&& world.parties.len() == count
            &&& world.stock >= 0
            &&& world.stock + world.reserved() == stock
            &&& (world.settled() ==> world.reserved() == if count <= stock {
                count as int
            } else {
                stock
            })
            &&& (world.settled() ==> world.refused() == count - world.reserved())
        }),
{
    lemma_contend_keeps_sound(item_id, stock, count, schedule);
    let world = contend(contention_start(item_id, stock, count), schedule);
    lemma_tally_at_most(world.parties, Ok(()));
    if world.settled() {
        lemma_tally_of_settled(world.parties, item_id);
    }
}

proof fn lemma_contend_keeps_sound(item_id: i64, stock: int, count: nat, schedule: Seq<int>)
    requires
        0 <= stock <= i64::MAX,
    ensures
        sound(contend(contention_start(item_id, stock, count), schedule), item_id, stock, count),
    decreases schedule.len(),
{
    let start = contention_start(item_id, stock, count);
    if schedule.len() == 0 {
        lemma_tally_of_fresh(start.parties, Ok(()));
        lemma_tally_of_fresh(start.parties, Err(ErrorKind::OutOfStockOrNotFound));
    } else {
        lemma_contend_keeps_sound(item_id, stock, count, schedule.drop_last());
        lemma_turn_keeps_sound(
            contend(start, schedule.drop_last()),
            schedule.last(),
            item_id,
            stock,
            count,
        );
    }
}

/// The schedule that serves the reservations one after another, each from
/// its first step to its last.
pub open spec fn one_after_another(count: nat) -> Seq<int>
    decreases count,
{
    if count == 0 {
        Seq::empty()
    } else {
        let who = count - 1;
        one_after_another((count - 1) as nat).push(who).push(who).push(who).push(who)
    }
}

proof fn lemma_contend_one_more(world: Contention, schedule: Seq<int>, who: int)
    ensures
        contend(world, schedule.push(who)) == turn(contend(world, schedule), who),
{
    assert(schedule.push(who).drop_last() =~= schedule);
}

proof fn lemma_served_in_turn(item_id: i64, stock: int, count: nat, served: nat)
    requires
        0 <= stock <= i64::MAX,
        served <= count,
    ensures
        ({
            let world = contend(contention_start(item_id, stock, count), one_after_another(served));
            &&& world.parties.len() == count
            &&& world.holder is None
            &&& forall|k: int| 0 <= k < served ==> (#[trigger] world.parties[k]).step is Done
            &&& forall|k: int|
                served <= k < count ==> (#[trigger] world.parties[k]).step
                    == ReserveStepView::Begin && world.parties[k].state == reserve_start(
                    item_id,
                ).0
        }),
    decreases served,
{
    let start = contention_start(item_id, stock, count);
    if served > 0 {
        let who = served - 1;
        let before = one_after_another((served - 1) as nat);
        lemma_served_in_turn(item_id, stock, count, (served - 1) as nat);
        lemma_contend_keeps_sound(item_id, stock, count, before);
        let w0 = contend(start, before);
        lemma_contend_one_more(start, before, who);
        lemma_contend_one_more(start, before.push(who), who);
        lemma_contend_one_more(start, before.push(who).push(who), who);
        lemma_contend_one_more(start, before.push(who).push(who).push(who), who);
        let w1 = turn(w0, who);
        let w2 = turn(w1, who);
        let w3 = turn(w2, who);
        let w4 = turn(w3, who);
        assert(w4 == contend(start, one_after_another(served)));
        assert(w0.parties[who].step == ReserveStepView::Begin);
        assert(w1.parties[who].step is Lock);
        assert(w2.parties[who].step is Decrement || w2.parties[who].step is Done);
        assert(w3.parties[who].step is Commit || w3.parties[who].step is Done);
        assert(w4.parties[who].step is Done);
        assert(w4.holder is None);
        assert forall|k: int| 0 <= k < served implies (#[trigger] w4.parties[k]).step is Done by {
            if k != who {
                assert(w4.parties[k] == w0.parties[k]);
            }
        }
        assert forall|k: int| served <= k < count implies (#[trigger] w4.parties[k]).step
            == ReserveStepView::Begin && w4.parties[k].state == reserve_start(item_id).0 by {
            assert(w4.parties[k] == w0.parties[k]);
        }
    }
}

/// The reservations can all end: served one after another, each from its
/// first step to its last, every one of them has ended.
pub proof fn lemma_reservations_can_all_end(item_id: i64, stock: int, count: nat)
    requires
        0 <= stock <= i64::MAX,
    ensures
        contend(contention_start(item_id, stock, count), one_after_another(count)).settled(),
{
    lemma_served_in_turn(item_id, stock, count, count);
}

} // verus!
