//! Tariffs: the plans a provider publishes, and the histories of standing
//! charge and unit price that are read out of them.
//!
//! Money is counted in micropence (millionths of a penny), so that a unit
//! price, in micropence per watt-hour, times a consumption in watt-hours is a
//! whole number.

use vstd::prelude::*;
use crate::calendar::Timestamp;

verus! {

/// A tariff plan as a provider publishes it. The plan itself is kept as the
/// provider sent it; `tariff_id` tells plans apart.
#[derive(Debug)]
pub struct TariffPlan {
    pub tariff_id: String,
    pub plan: String,
    pub effective_date: Timestamp,
    pub display_name: String,
}

/// An electricity tariff plan on its way into the store.
#[derive(Debug)]
pub struct NewElectricityTariffPlan {
    pub tariff_id: String,
    pub plan: String,
    pub effective_date: Timestamp,
    pub display_name: String,
}

/// A gas tariff plan on its way into the store.
#[derive(Debug)]
pub struct NewGasTariffPlan {
    pub tariff_id: String,
    pub plan: String,
    pub effective_date: Timestamp,
    pub display_name: String,
}

impl TariffPlan {
    /// The plan as a row of the electricity store.
    pub fn into_electricity(self) -> (row: NewElectricityTariffPlan)
        ensures
            row == (NewElectricityTariffPlan {
                tariff_id: self.tariff_id,
                plan: self.plan,
                effective_date: self.effective_date,
                display_name: self.display_name,
            }),
    {
        NewElectricityTariffPlan {
            tariff_id: self.tariff_id,
            plan: self.plan,
            effective_date: self.effective_date,
            display_name: self.display_name,
        }
    }

    /// The plan as a row of the gas store.
    pub fn into_gas(self) -> (row: NewGasTariffPlan)
        ensures
            row == (NewGasTariffPlan {
                tariff_id: self.tariff_id,
                plan: self.plan,
                effective_date: self.effective_date,
                display_name: self.display_name,
            }),
    {
        NewGasTariffPlan {
            tariff_id: self.tariff_id,
            plan: self.plan,
            effective_date: self.effective_date,
            display_name: self.display_name,
        }
    }
}

/// A price that holds from some instant on, until the next one takes over.
pub trait PricePoint: Sized + Copy {
    /// From when on the price holds.
    spec fn since(&self) -> Timestamp;

    /// The price, in micropence.
    spec fn amount(&self) -> i64;

    /// From when on the price holds.
    fn effective_from(&self) -> (since: Timestamp)
        ensures
            since == self.since(),
    ;

    /// The price, in micropence.
    fn micropence(&self) -> (amount: i64)
        ensures
            amount == self.amount(),
    ;
}

/// The fixed charge per day, in micropence, from `start_date` on.
#[derive(Clone, Copy, Debug, PartialEq, Eq, Structural)]
pub struct StandingChargeRecord {
    pub start_date: Timestamp,
    pub standing_charge_pence: i64,
}

/// The price of energy, in micropence per watt-hour, from
/// `price_effective_time` on.
#[derive(Clone, Copy, Debug, PartialEq, Eq, Structural)]
pub struct UnitPriceRecord {
    pub price_effective_time: Timestamp,
    pub unit_price_pence: i64,
}

impl PricePoint for StandingChargeRecord {
    open spec fn since(&self) -> Timestamp {
        self.start_date
    }

    open spec fn amount(&self) -> i64 {
        self.standing_charge_pence
    }

    fn effective_from(&self) -> (since: Timestamp) {
        self.start_date
    }

    fn micropence(&self) -> (amount: i64) {
        self.standing_charge_pence
    }
}

impl PricePoint for UnitPriceRecord {
    open spec fn since(&self) -> Timestamp {
        self.price_effective_time
    }

    open spec fn amount(&self) -> i64 {
        self.unit_price_pence
    }

    fn effective_from(&self) -> (since: Timestamp) {
        self.price_effective_time
    }

    fn micropence(&self) -> (amount: i64) {
        self.unit_price_pence
    }
}

/// The two histories of one stream, as the user interface gets them.
#[derive(Debug)]
pub struct TariffHistoryResponse {
    pub standing_charges: Vec<StandingChargeRecord>,
    pub unit_prices: Vec<UnitPriceRecord>,
}

/// Whether the entry at `index` brings a change: it is the first, or its
/// price differs from that of the entry before it.
pub open spec fn is_change<P: PricePoint>(entries: Seq<P>, index: int) -> bool {
    index == 0 || entries[index].amount() != entries[index - 1].amount()
}

/// The entries that bring a change, in their order.
pub open spec fn changes<P: PricePoint>(entries: Seq<P>) -> Seq<P>
    decreases entries.len(),
{
    if entries.len() == 0 {
        Seq::empty()
    } else if is_change(entries, entries.len() - 1) {
        changes(entries.drop_last()).push(entries.last())
    } else {
        changes(entries.drop_last())
    }
}

/// No two neighbours in `entries` have the same price.
pub open spec fn all_changes<P: PricePoint>(entries: Seq<P>) -> bool {
    forall|i: int| 0 < i < entries.len() ==> (#[trigger] entries[i]).amount() != entries[i - 1].amount()
}

/// What collapsing keeps: the last entry kept is the last that brings a
/// change, and it has the price of the last entry of all; neighbours differ.
pub proof fn lemma_changes<P: PricePoint>(entries: Seq<P>)
    ensures
        all_changes(changes(entries)),
        changes(entries).len() <= entries.len(),
        entries.len() > 0 ==> {
            &&& changes(entries).len() > 0
            &&& changes(entries)[0] == entries[0]
            &&& changes(entries).last().amount() == entries.last().amount()
        },
    decreases entries.len(),
{
    if entries.len() > 0 {
        let front = entries.drop_last();
        lemma_changes(front);
        if entries.len() > 1 {
            assert(front.last() == entries[entries.len() - 2]);
        }
    }
}

/// A price history with only the changes left in it: an entry whose price is
/// that of the entry before it is dropped, so the first of every run of equal
/// prices stays. `entries` are taken in the order given, which is meant to be
/// that of their instants.
pub fn collapse_history<P: PricePoint>(entries: &Vec<P>) -> (collapsed: Vec<P>)
    ensures
        collapsed@ == changes(entries@),
{
    let mut collapsed: Vec<P> = Vec::new();
    let mut index: usize = 0;
    while index < entries.len()
        invariant
            index <= entries.len(),
            collapsed@ == changes(entries@.take(index as int)),
        decreases entries.len() - index,
    {
        let ghost upto = entries@.take(index as int + 1);
        proof {
            assert(upto.drop_last() =~= entries@.take(index as int));
            assert(upto.last() == entries@[index as int]);
            if index > 0 {
                assert(upto[index as int - 1] == entries@[index as int - 1]);
            }
        }
        if index == 0 || entries[index].micropence() != entries[index - 1].micropence() {
            collapsed.push(entries[index]);
        }
        index = index + 1;
    }
    proof {
        assert(entries@.take(index as int) =~= entries@);
    }
    collapsed
}

} // verus!
