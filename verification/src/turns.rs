//! Many requests, one writer.
//!
//! Requests are handled side by side, but every write goes through the one
//! writer, which is held for that write alone. So whatever the requests do at
//! once, their writes reach the store one after the other, in some order
//! that nobody fixes. This module says what every such order comes to when
//! the store takes each write: once all requests are answered, each table
//! holds one row for every request, none lost and none doubled.

use vstd::prelude::*;
use vstd::multiset::Multiset;
use vstd::seq_lib::lemma_multiset_commutative;
use crate::controllers::{writes_of, Awaiting, Command, Ingestion};
use crate::reading::Bme280Payload;
use crate::tables::Table;

verus! {

/// The requests for `readings`, each at its start.
pub open spec fn begun(readings: Seq<Bme280Payload>) -> Seq<Ingestion> {
    Seq::new(readings.len(), |i: int| Ingestion::started(readings[i]).0)
}

/// The requests after request number `who` had the writer for its next write
/// and the store took the row. A request that was answered, and a number that
/// names no request, change nothing.
pub open spec fn turn(requests: Seq<Ingestion>, who: int) -> Seq<Ingestion> {
    if 0 <= who < requests.len() && requests[who].advanced(true) is Some {
        requests.update(who, requests[who].advanced(true)->Some_0.0)
    } else {
        requests
    }
}

/// The write that is made when request number `who` has the writer: the one
/// it waits for, if any.
pub open spec fn written(requests: Seq<Ingestion>, who: int) -> Seq<Command> {
    if 0 <= who < requests.len() && requests[who].awaited() is Some {
        seq![requests[who].awaited()->Some_0]
    } else {
        seq![]
    }
}

/// The requests after they had the writer in the order that `schedule`
/// gives.
pub open spec fn after_turns(requests: Seq<Ingestion>, schedule: Seq<int>) -> Seq<Ingestion>
    decreases schedule.len(),
{
    if schedule.len() == 0 {
        requests
    } else {
        after_turns(turn(requests, schedule[0]), schedule.drop_first())
    }
}

/// The writes that reach the store, in order, when the requests have the
/// writer in the order that `schedule` gives.
pub open spec fn writes_in_turns(requests: Seq<Ingestion>, schedule: Seq<int>) -> Seq<Command>
    decreases schedule.len(),
{
    if schedule.len() == 0 {
        seq![]
    } else {
        written(requests, schedule[0]) + writes_in_turns(
            turn(requests, schedule[0]),
            schedule.drop_first(),
        )
    }
}

/// Whether every request has been answered.
pub open spec fn all_answered(requests: Seq<Ingestion>) -> bool {
    forall|i: int| 0 <= i < requests.len() ==> requests[i].awaiting == Awaiting::Nothing
}

/// How many of `writes` put a row into `table`.
pub open spec fn rows_into(writes: Seq<Command>, table: Table) -> nat
    decreases writes.len(),
{
    if writes.len() == 0 {
        0
    } else {
        let here: nat = if writes[0].table() == Some(table) {
            1
        } else {
            0
        };
        here + rows_into(writes.drop_first(), table)
    }
}

/// Whether a request has yet to put its row into `table`.
pub open spec fn owes(request: Ingestion, table: Table) -> bool {
    match table {
        Table::HouseHumidity => request.awaiting == Awaiting::Humidity,
        Table::HousePressure => request.awaiting == Awaiting::Humidity || request.awaiting
            == Awaiting::Pressure,
        Table::HouseTemperature => request.awaiting != Awaiting::Nothing,
        Table::Sensor => false,
    }
}

/// How many of the requests have yet to put their row into `table`.
pub open spec fn owed(requests: Seq<Ingestion>, table: Table) -> nat
    decreases requests.len(),
{
    if requests.len() == 0 {
        0
    } else {
        let last: nat = if owes(requests.last(), table) {
            1
        } else {
            0
        };
        owed(requests.drop_last(), table) + last
    }
}

proof fn lemma_owed_update(requests: Seq<Ingestion>, who: int, next: Ingestion, table: Table)
    requires
        0 <= who < requests.len(),
    ensures
        owed(requests.update(who, next), table) + (if owes(requests[who], table) {
            1nat
        } else {
            0
        }) == owed(requests, table) + (if owes(next, table) {
            1nat
        } else {
            0
        }),
    decreases requests.len(),
{
    let updated = requests.update(who, next);
    if who == requests.len() - 1 {
        assert(updated.drop_last() =~= requests.drop_last());
    } else {
        assert(updated.drop_last() =~= requests.drop_last().update(who, next));
        lemma_owed_update(requests.drop_last(), who, next, table);
    }
}

proof fn lemma_owed_at_start(readings: Seq<Bme280Payload>, table: Table)
    requires
        table != Table::Sensor,
    ensures
        owed(begun(readings), table) == readings.len(),
    decreases readings.len(),
{
    if readings.len() > 0 {
        assert(begun(readings).drop_last() =~= begun(readings.drop_last()));
        lemma_owed_at_start(readings.drop_last(), table);
    }
}

proof fn lemma_owed_at_end(requests: Seq<Ingestion>, table: Table)
    requires
        all_answered(requests),
    ensures
        owed(requests, table) == 0,
    decreases requests.len(),
{
    if requests.len() > 0 {
        lemma_owed_at_end(requests.drop_last(), table);
    }
}

/// At every moment the rows that a table has got and the rows that it is
/// still owed add up to what it was owed at first: a write in turn settles
/// exactly one debt, that of the request that made it.
pub proof fn lemma_rows_and_debts(requests: Seq<Ingestion>, schedule: Seq<int>, table: Table)
    ensures
        rows_into(writes_in_turns(requests, schedule), table) + owed(
            after_turns(requests, schedule),
            table,
        ) == owed(requests, table),
    decreases schedule.len(),
{
    if schedule.len() > 0 {
        let who = schedule[0];
        let rest = schedule.drop_first();
        let made = written(requests, who);
        let later = writes_in_turns(turn(requests, who), rest);
        lemma_rows_and_debts(turn(requests, who), rest, table);
        if made.len() > 0 {
            assert((made + later).drop_first() =~= later);
            lemma_owed_update(requests, who, requests[who].advanced(true)->Some_0.0, table);
        }
    }
}

/// However the requests for `readings` take their turns at the writer, if
/// the store takes every write, then once all of them are answered each
/// measurement table has got exactly one row for each request.
pub proof fn lemma_one_row_for_each_request(
    readings: Seq<Bme280Payload>,
    schedule: Seq<int>,
    table: Table,
)
    requires
        all_answered(after_turns(begun(readings), schedule)),
        table != Table::Sensor,
    ensures
        rows_into(writes_in_turns(begun(readings), schedule), table) == readings.len(),
{
    lemma_rows_and_debts(begun(readings), schedule, table);
    lemma_owed_at_start(readings, table);
    lemma_owed_at_end(after_turns(begun(readings), schedule), table);
}

/// The writes that a request has yet to make, in their order.
pub open spec fn outstanding(request: Ingestion) -> Seq<Command> {
    match request.awaiting {
        Awaiting::Humidity => writes_of(request.reading),
        Awaiting::Pressure => writes_of(request.reading).subrange(1, 3),
        Awaiting::Temperature => writes_of(request.reading).subrange(2, 3),
        Awaiting::Nothing => seq![],
    }
}

/// The writes that the requests have yet to make, all together.
pub open spec fn all_outstanding(requests: Seq<Ingestion>) -> Multiset<Command>
    decreases requests.len(),
{
    if requests.len() == 0 {
        Multiset::empty()
    } else {
        all_outstanding(requests.drop_last()).add(outstanding(requests.last()).to_multiset())
    }
}

/// The three rows of each of `readings`, all together.
pub open spec fn all_rows(readings: Seq<Bme280Payload>) -> Multiset<Command>
    decreases readings.len(),
{
    if readings.len() == 0 {
        Multiset::empty()
    } else {
        all_rows(readings.drop_last()).add(writes_of(readings.last()).to_multiset())
    }
}

proof fn lemma_outstanding_update(requests: Seq<Ingestion>, who: int, next: Ingestion)
    requires
        0 <= who < requests.len(),
    ensures
        all_outstanding(requests.update(who, next)).add(outstanding(requests[who]).to_multiset())
            =~= all_outstanding(requests).add(outstanding(next).to_multiset()),
    decreases requests.len(),
{
    broadcast use vstd::multiset::group_multiset_axioms;

    let updated = requests.update(who, next);
    let before = requests.drop_last();
    let old_writes = outstanding(requests[who]).to_multiset();
    let new_writes = outstanding(next).to_multiset();
    if who == requests.len() - 1 {
        assert(updated.drop_last() =~= before);
    } else {
        assert(updated.drop_last() =~= before.update(who, next));
        lemma_outstanding_update(before, who, next);
        assert forall|c: Command|
            all_outstanding(updated).add(old_writes).count(c) == all_outstanding(requests).add(
                new_writes,
            ).count(c) by {
            assert(all_outstanding(before.update(who, next)).add(old_writes).count(c)
                == all_outstanding(before).add(new_writes).count(c));
        }
    }
}

proof fn lemma_outstanding_at_start(readings: Seq<Bme280Payload>)
    ensures
        all_outstanding(begun(readings)) == all_rows(readings),
    decreases readings.len(),
{
    if readings.len() > 0 {
        assert(begun(readings).drop_last() =~= begun(readings.drop_last()));
        lemma_outstanding_at_start(readings.drop_last());
    }
}

proof fn lemma_outstanding_at_end(requests: Seq<Ingestion>)
    requires
        all_answered(requests),
    ensures
        all_outstanding(requests) =~= Multiset::empty(),
    decreases requests.len(),
{
    if requests.len() > 0 {
        lemma_outstanding_at_end(requests.drop_last());
        Seq::<Command>::empty().to_multiset_ensures();
    }
}

/// At every moment the writes made and the writes yet to be made are
/// together the writes that were to be made at first.
pub proof fn lemma_writes_made_and_outstanding(requests: Seq<Ingestion>, schedule: Seq<int>)
    ensures
        writes_in_turns(requests, schedule).to_multiset().add(
            all_outstanding(after_turns(requests, schedule)),
        ) =~= all_outstanding(requests),
    decreases schedule.len(),
{
    broadcast use vstd::multiset::group_multiset_axioms;

    if schedule.len() == 0 {
        Seq::<Command>::empty().to_multiset_ensures();
    } else {
        let who = schedule[0];
        let rest = schedule.drop_first();
        let made = written(requests, who);
        let turned = turn(requests, who);
        let later = writes_in_turns(turned, rest);
        let end = all_outstanding(after_turns(requests, schedule));
        lemma_writes_made_and_outstanding(turned, rest);
        lemma_multiset_commutative(made, later);
        if made.len() > 0 {
            let next = requests[who].advanced(true)->Some_0.0;
            lemma_outstanding_update(requests, who, next);
            assert(outstanding(requests[who]) =~= made + outstanding(next));
            lemma_multiset_commutative(made, outstanding(next));
            let old_writes = outstanding(requests[who]).to_multiset();
            let new_writes = outstanding(next).to_multiset();
            assert forall|c: Command|
                (made + later).to_multiset().add(end).count(c) == all_outstanding(requests).count(
                    c,
                ) by {
                assert(all_outstanding(turned).add(old_writes).count(c) == all_outstanding(
                    requests,
                ).add(new_writes).count(c));
            }
        }
    }
}

/// However the requests for `readings` take their turns at the writer, if
/// the store takes every write, then once all of them are answered the
/// writes made are the three rows of each reading, each as often as it is
/// due and no other: nothing is lost and nothing is doubled.
pub proof fn lemma_no_write_lost_or_doubled(readings: Seq<Bme280Payload>, schedule: Seq<int>)
    requires
        all_answered(after_turns(begun(readings), schedule)),
    ensures
        writes_in_turns(begun(readings), schedule).to_multiset() =~= all_rows(readings),
        writes_in_turns(begun(readings), schedule).len() == 3 * readings.len(),
{
    lemma_writes_made_and_outstanding(begun(readings), schedule);
    lemma_outstanding_at_start(readings);
    lemma_outstanding_at_end(after_turns(begun(readings), schedule));
    writes_in_turns(begun(readings), schedule).to_multiset_ensures();
    lemma_all_rows_len(readings);
}

proof fn lemma_all_rows_len(readings: Seq<Bme280Payload>)
    ensures
        all_rows(readings).len() == 3 * readings.len(),
    decreases readings.len(),
{
    if readings.len() > 0 {
        lemma_all_rows_len(readings.drop_last());
        writes_of(readings.last()).to_multiset_ensures();
    }
}

} // verus!
