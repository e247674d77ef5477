//! Meter readings and the table they are kept in.
//!
//! Energy is counted in watt-hours. A table holds at most one reading per
//! instant: storing a reading for an instant that has one replaces it.

use vstd::prelude::*;
use crate::calendar::Date;
use crate::calendar::Timestamp;

verus! {

/// The value a meter sends in place of a reading it does not have. Such a
/// value is stored as it comes and left out wherever readings are added up.
pub const ENERGY_CONSUMPTION_ERROR_CODE: i64 = 16_777_215;

/// The energy used in the interval that starts at some instant.
pub trait Reading: Sized + Copy {
    /// Start of the interval.
    spec fn at(&self) -> Timestamp;

    /// Energy used, in watt-hours.
    spec fn amount(&self) -> i64;

    /// Start of the interval.
    fn timestamp(&self) -> (at: Timestamp)
        ensures
            at == self.at(),
    ;

    /// Energy used, in watt-hours.
    fn watt_hours(&self) -> (amount: i64)
        ensures
            amount == self.amount(),
    ;
}

/// An electricity reading as a provider delivers it.
#[derive(Clone, Copy, Debug, PartialEq, Eq, Structural)]
pub struct ElectricityConsumptionValue {
    pub timestamp: Timestamp,
    pub value: i64,
}

/// A gas reading as a provider delivers it.
#[derive(Clone, Copy, Debug, PartialEq, Eq, Structural)]
pub struct GasConsumptionValue {
    pub timestamp: Timestamp,
    pub value: i64,
}

impl Reading for ElectricityConsumptionValue {
    open spec fn at(&self) -> Timestamp {
        self.timestamp
    }

    open spec fn amount(&self) -> i64 {
        self.value
    }

    fn timestamp(&self) -> (at: Timestamp) {
        self.timestamp
    }

    fn watt_hours(&self) -> (amount: i64) {
        self.value
    }
}

impl Reading for GasConsumptionValue {
    open spec fn at(&self) -> Timestamp {
        self.timestamp
    }

    open spec fn amount(&self) -> i64 {
        self.value
    }

    fn timestamp(&self) -> (at: Timestamp) {
        self.timestamp
    }

    fn watt_hours(&self) -> (amount: i64) {
        self.value
    }
}

/// One stored reading.
#[derive(Clone, Copy, Debug, PartialEq, Eq, Structural)]
pub struct ConsumptionRecord {
    pub timestamp: Timestamp,
    pub energy_consumption: i64,
}

/// Whether a stored value stands for a reading that the meter did not have.
pub fn is_error_code(value: i64) -> (is_error: bool)
    ensures
        is_error == (value == ENERGY_CONSUMPTION_ERROR_CODE),
{
    value == ENERGY_CONSUMPTION_ERROR_CODE
}

/// What the rows hold: for every instant that has a row, its energy. Of
/// several rows for one instant the last counts.
pub open spec fn readings_of(rows: Seq<ConsumptionRecord>) -> Map<int, int>
    decreases rows.len(),
{
    if rows.len() == 0 {
        Map::empty()
    } else {
        readings_of(rows.drop_last()).insert(
            rows.last().timestamp.seconds as int,
            rows.last().energy_consumption as int,
        )
    }
}

/// No two rows are for the same instant.
pub open spec fn one_row_per_instant(rows: Seq<ConsumptionRecord>) -> bool {
    forall|i: int, j: int|
        0 <= i < j < rows.len() ==> (#[trigger] rows[i]).timestamp != (#[trigger] rows[j]).timestamp
}

/// `before` with the readings stored on top of it, one after the other.
pub open spec fn with_readings<R: Reading>(before: Map<int, int>, readings: Seq<R>) -> Map<int, int>
    decreases readings.len(),
{
    if readings.len() == 0 {
        before
    } else {
        with_readings(before, readings.drop_last()).insert(
            readings.last().at().seconds as int,
            readings.last().amount() as int,
        )
    }
}

/// The instants that have a row are those of the rows, and with one row per
/// instant there are as many of them as rows.
pub proof fn lemma_readings_of(rows: Seq<ConsumptionRecord>)
    ensures
        readings_of(rows).dom().finite(),
        forall|at: int| #[trigger]
            readings_of(rows).dom().contains(at) <==> exists|i: int|
                0 <= i < rows.len() && (#[trigger] rows[i]).timestamp.seconds == at,
        one_row_per_instant(rows) ==> {
            &&& readings_of(rows).dom().len() == rows.len()
            &&& forall|i: int|
                0 <= i < rows.len() ==> readings_of(rows)[(#[trigger] rows[i]).timestamp.seconds as int]
                    == rows[i].energy_consumption
        },
    decreases rows.len(),
{
    if rows.len() > 0 {
        let front = rows.drop_last();
        let last = rows.last();
        lemma_readings_of(front);
        assert forall|at: int| #[trigger]
            readings_of(rows).dom().contains(at) <==> exists|i: int|
                0 <= i < rows.len() && (#[trigger] rows[i]).timestamp.seconds == at by {
            if readings_of(rows).dom().contains(at) {
                if at == last.timestamp.seconds {
                    assert(rows[rows.len() - 1].timestamp.seconds == at);
                } else {
                    assert(readings_of(front).dom().contains(at));
                    let i = choose|i: int|
                        0 <= i < front.len() && (#[trigger] front[i]).timestamp.seconds == at;
                    assert(rows[i].timestamp.seconds == at);
                }
            }
            if exists|i: int| 0 <= i < rows.len() && (#[trigger] rows[i]).timestamp.seconds == at {
                let i = choose|i: int|
                    0 <= i < rows.len() && (#[trigger] rows[i]).timestamp.seconds == at;
                if i < front.len() {
                    assert(front[i].timestamp.seconds == at);
                }
            }
        }
        if one_row_per_instant(rows) {
            assert(one_row_per_instant(front)) by {
                assert forall|i: int, j: int| 0 <= i < j < front.len() implies (
                #[trigger] front[i]).timestamp != (#[trigger] front[j]).timestamp by {
                    assert(rows[i].timestamp != rows[j].timestamp);
                }
            }
            assert(!readings_of(front).dom().contains(last.timestamp.seconds as int)) by {
                if readings_of(front).dom().contains(last.timestamp.seconds as int) {
                    let i = choose|i: int|
                        0 <= i < front.len() && (#[trigger] front[i]).timestamp.seconds
                            == last.timestamp.seconds;
                    assert(rows[i].timestamp != rows[rows.len() - 1].timestamp);
                }
            }
            assert forall|i: int| 0 <= i < rows.len() implies readings_of(rows)[(
            #[trigger] rows[i]).timestamp.seconds as int] == rows[i].energy_consumption by {
                if i < front.len() {
                    assert(front[i] == rows[i]);
                    assert(rows[i].timestamp != rows[rows.len() - 1].timestamp);
                }
            }
        }
    }
}

/// Replacing the row of an instant by another row for the same instant
/// stores the new energy for that instant and leaves every other instant
/// alone.
pub proof fn lemma_replace_row(rows: Seq<ConsumptionRecord>, index: int, row: ConsumptionRecord)
    requires
        one_row_per_instant(rows),
        0 <= index < rows.len(),
        rows[index].timestamp == row.timestamp,
    ensures
        one_row_per_instant(rows.update(index, row)),
        readings_of(rows.update(index, row)) == readings_of(rows).insert(
            row.timestamp.seconds as int,
            row.energy_consumption as int,
        ),
    decreases rows.len(),
{
    let replaced = rows.update(index, row);
    assert(one_row_per_instant(replaced)) by {
        assert forall|i: int, j: int| 0 <= i < j < replaced.len() implies (
        #[trigger] replaced[i]).timestamp != (#[trigger] replaced[j]).timestamp by {
            assert(rows[i].timestamp != rows[j].timestamp);
        }
    }
    let front = rows.drop_last();
    let at = row.timestamp.seconds as int;
    if index == rows.len() - 1 {
        assert(replaced.drop_last() =~= front);
        assert(readings_of(replaced) =~= readings_of(rows).insert(
            at,
            row.energy_consumption as int,
        ));
    } else {
        assert(one_row_per_instant(front)) by {
            assert forall|i: int, j: int| 0 <= i < j < front.len() implies (
            #[trigger] front[i]).timestamp != (#[trigger] front[j]).timestamp by {
                assert(rows[i].timestamp != rows[j].timestamp);
            }
        }
        lemma_replace_row(front, index, row);
        assert(replaced.drop_last() =~= front.update(index, row));
        assert(replaced.last() == rows.last());
        assert(rows[index].timestamp != rows[rows.len() - 1].timestamp);
        assert(readings_of(replaced) =~= readings_of(rows).insert(
            at,
            row.energy_consumption as int,
        ));
    }
}

/// Storing a reading for an instant twice leaves one reading for it, the
/// later one: what was stored first for that instant is gone, every other
/// instant is as it was, and storing the same reading again changes nothing.
pub proof fn lemma_last_write_wins(before: Map<int, int>, at: int, first: int, second: int)
    ensures
        before.insert(at, first).insert(at, second) == before.insert(at, second),
        before.insert(at, second).insert(at, second) == before.insert(at, second),
        before.insert(at, first).insert(at, second)[at] == second,
        before.insert(at, first).insert(at, second).dom() == before.insert(at, first).dom(),
{
    assert(before.insert(at, first).insert(at, second) =~= before.insert(at, second));
    assert(before.insert(at, second).insert(at, second) =~= before.insert(at, second));
    assert(before.insert(at, first).insert(at, second).dom() =~= before.insert(at, first).dom());
}

/// The stored readings of one stream.
#[derive(Debug)]
pub struct ConsumptionTable {
    pub rows: Vec<ConsumptionRecord>,
}

impl View for ConsumptionTable {
    type V = Map<int, int>;

    /// The energy stored for every instant that has a row.
    open spec fn view(&self) -> Map<int, int> {
        readings_of(self.rows@)
    }
}

impl ConsumptionTable {
    /// There is at most one row per instant.
    pub open spec fn wf(&self) -> bool {
        one_row_per_instant(self.rows@)
    }

    /// A table without rows.
    pub fn new() -> (table: ConsumptionTable)
        ensures
            table.wf(),
            table@ == Map::<int, int>::empty(),
            table.rows@.len() == 0,
    {
        ConsumptionTable { rows: Vec::new() }
    }

    /// Number of rows, which is the number of instants with a reading.
    pub fn len(&self) -> (count: usize)
        requires
            self.wf(),
        ensures
            count == self.rows@.len(),
            count == self@.dom().len(),
    {
        proof {
            lemma_readings_of(self.rows@);
        }
        self.rows.len()
    }

    /// The energy stored for `at`, if there is a row for it.
    pub fn get(&self, at: Timestamp) -> (energy: Option<i64>)
        requires
            self.wf(),
        ensures
            energy is Some <==> self@.dom().contains(at.seconds as int),
            energy matches Some(amount) ==> self@[at.seconds as int] == amount,
    {
        proof {
            lemma_readings_of(self.rows@);
        }
        match self.find(at) {
            Some(index) => Some(self.rows[index].energy_consumption),
            None => None,
        }
    }

    /// Stores the energy for `at`: in the row that `at` has, or else in a new
    /// row. No other instant is touched, and the number of rows grows by one
    /// exactly when `at` had none.
    pub fn upsert(&mut self, at: Timestamp, energy: i64)
        requires
            old(self).wf(),
        ensures
            final(self).wf(),
            final(self)@ == old(self)@.insert(at.seconds as int, energy as int),
            final(self).rows@.len() == (if old(self)@.dom().contains(at.seconds as int) {
                old(self).rows@.len()
            } else {
                old(self).rows@.len() + 1
            }),
            if old(self)@.dom().contains(at.seconds as int) {
                exists|index: int|
                    0 <= index < old(self).rows@.len() && (#[trigger] old(self).rows@[index]).timestamp
                        == at && final(self).rows@ == old(self).rows@.update(
                        index,
                        ConsumptionRecord { timestamp: at, energy_consumption: energy },
                    )
            } else {
                final(self).rows@ == old(self).rows@.push(
                    ConsumptionRecord { timestamp: at, energy_consumption: energy },
                )
            },
    {
        let row = ConsumptionRecord { timestamp: at, energy_consumption: energy };
        let found = self.find(at);
        proof {
            lemma_readings_of(self.rows@);
        }
        match found {
            Some(index) => {
                proof {
                    lemma_replace_row(self.rows@, index as int, row);
                }
                self.rows.set(index, row);
            },
            None => {
                let ghost before = self.rows@;
                self.rows.push(row);
                proof {
                    assert(self.rows@.drop_last() =~= before);
                    assert forall|i: int, j: int| 0 <= i < j < self.rows@.len() implies (
                    #[trigger] self.rows@[i]).timestamp != (#[trigger] self.rows@[j]).timestamp by {
                        if j < before.len() {
                            assert(before[i].timestamp != before[j].timestamp);
                        } else {
                            assert(before[i].timestamp.seconds != at.seconds);
                        }
                    }
                }
            },
        }
    }

    /// Stores every reading, in the order given, each as [`Self::upsert`]
    /// does: of two readings for one instant the later one stays.
    pub fn insert<R: Reading>(&mut self, records: &Vec<R>)
        requires
            old(self).wf(),
        ensures
            final(self).wf(),
            final(self)@ == with_readings(old(self)@, records@),
    {
        let mut index: usize = 0;
        while index < records.len()
            invariant
                index <= records.len(),
                self.wf(),
                self@ == with_readings(old(self)@, records@.take(index as int)),
            decreases records.len() - index,
        {
            proof {
                let upto = records@.take(index as int + 1);
                assert(upto.drop_last() =~= records@.take(index as int));
                assert(upto.last() == records@[index as int]);
            }
            let record = records[index];
            self.upsert(record.timestamp(), record.watt_hours());
            index = index + 1;
        }
        proof {
            assert(records@.take(index as int) =~= records@);
        }
    }

    /// The rows from the first instant of `start` up to, but not including,
    /// the first instant of `end`, in the order they were first stored.
    pub fn get_raw(&self, start: Date, end: Date) -> (rows: Vec<ConsumptionRecord>)
        ensures
            rows@ == rows_between(self.rows@, start, end),
    {
        let from = start.at_midnight();
        let to = end.at_midnight();
        let mut found: Vec<ConsumptionRecord> = Vec::new();
        let mut index: usize = 0;
        while index < self.rows.len()
            invariant
                index <= self.rows.len(),
                from == start.midnight(),
                to == end.midnight(),
                found@ == rows_between(self.rows@.take(index as int), start, end),
            decreases self.rows.len() - index,
        {
            proof {
                let upto = self.rows@.take(index as int + 1);
                assert(upto.drop_last() =~= self.rows@.take(index as int));
                assert(upto.last() == self.rows@[index as int]);
            }
            let row = self.rows[index];
            if from.seconds <= row.timestamp.seconds && row.timestamp.seconds < to.seconds {
                found.push(row);
            }
            index = index + 1;
        }
        proof {
            assert(self.rows@.take(index as int) =~= self.rows@);
        }
        found
    }

    fn find(&self, at: Timestamp) -> (found: Option<usize>)
        ensures
            found matches Some(index) ==> index < self.rows@.len() && self.rows@[index as int].timestamp
                == at,
            found is None ==> forall|i: int|
                0 <= i < self.rows@.len() ==> (#[trigger] self.rows@[i]).timestamp.seconds
                    != at.seconds,
    {
        let mut index: usize = 0;
        while index < self.rows.len()
            invariant
                index <= self.rows.len(),
                forall|i: int|
                    0 <= i < index ==> (#[trigger] self.rows@[i]).timestamp.seconds != at.seconds,
            decreases self.rows.len() - index,
        {
            if self.rows[index].timestamp.seconds == at.seconds {
                return Some(index);
            }
            index = index + 1;
        }
        None
    }
}

/// Whether `row` lies in `[start, end)`.
pub open spec fn lies_between(row: ConsumptionRecord, start: Date, end: Date) -> bool {
    start.midnight().seconds <= row.timestamp.seconds < end.midnight().seconds
}

/// The rows that lie in `[start, end)`, in their order.
pub open spec fn rows_between(rows: Seq<ConsumptionRecord>, start: Date, end: Date) -> Seq<
    ConsumptionRecord,
>
    decreases rows.len(),
{
    if rows.len() == 0 {
        Seq::empty()
    } else if lies_between(rows.last(), start, end) {
        rows_between(rows.drop_last(), start, end).push(rows.last())
    } else {
        rows_between(rows.drop_last(), start, end)
    }
}

} // verus!
