//! What energy cost, day by day: each day's consumption priced with the
//! standing charge and the unit price that were in force on that day.

use vstd::prelude::*;
use crate::calendar::Date;
use crate::calendar::Timestamp;
use crate::tariff::PricePoint;
use crate::tariff::StandingChargeRecord;
use crate::tariff::changes;
use crate::tariff::UnitPriceRecord;

verus! {

/// What one day cost, in micropence.
#[derive(Clone, Copy, Debug, PartialEq, Eq, Structural)]
pub struct DailyCost {
    pub date: Date,
    pub cost_pence: i128,
}

/// Whether the entry at `index` has taken effect by `at`.
pub open spec fn applies<P: PricePoint>(entries: Seq<P>, index: int, at: Timestamp) -> bool {
    0 <= index < entries.len() && entries[index].since().seconds <= at.seconds
}

/// Whether the entry at `index` is the one in force at `at`: it has taken
/// effect, no entry has taken effect later, and of those that took effect at
/// the same instant it comes last.
pub open spec fn in_force<P: PricePoint>(entries: Seq<P>, index: int, at: Timestamp) -> bool {
    &&& applies(entries, index, at)
    &&& forall|other: int| #[trigger]
        applies(entries, other, at) ==> {
            ||| entries[other].since().seconds < entries[index].since().seconds
            ||| entries[other].since().seconds == entries[index].since().seconds && other
                <= index
        }
}

/// The price in force at `at`, if any entry has taken effect by then.
pub open spec fn price_at<P: PricePoint>(entries: Seq<P>, at: Timestamp) -> Option<i64> {
    if exists|index: int| applies(entries, index, at) {
        Some(entries[choose|index: int| in_force(entries, index, at)].amount())
    } else {
        None
    }
}

/// At most one entry is in force at any instant.
pub proof fn lemma_one_in_force<P: PricePoint>(entries: Seq<P>, first: int, second: int, at: Timestamp)
    requires
        in_force(entries, first, at),
        in_force(entries, second, at),
    ensures
        first == second,
{
    assert(applies(entries, first, at));
    assert(applies(entries, second, at));
}

/// The price in force at `at` is that of the entry in force.
pub proof fn lemma_price_of_entry_in_force<P: PricePoint>(entries: Seq<P>, index: int, at: Timestamp)
    requires
        in_force(entries, index, at),
    ensures
        price_at(entries, at) == Some(entries[index].amount()),
{
    assert(applies(entries, index, at));
    let chosen = choose|index: int| in_force(entries, index, at);
    lemma_one_in_force(entries, index, chosen, at);
}

/// No two entries take effect at the same instant, and they are in the order
/// of their instants.
pub open spec fn strictly_ascending<P: PricePoint>(entries: Seq<P>) -> bool {
    forall|i: int, j: int|
        0 <= i < j < entries.len() ==> (#[trigger] entries[i]).since().seconds < (
        #[trigger] entries[j]).since().seconds
}

/// A history is a step function: from the instant an entry takes effect
/// until the next one does, its price is in force; before the first entry no
/// price is known.
pub proof fn lemma_step_function<P: PricePoint>(entries: Seq<P>, index: int, at: Timestamp)
    requires
        strictly_ascending(entries),
        0 <= index < entries.len(),
    ensures
        entries[index].since().seconds <= at.seconds && (index + 1 == entries.len() || at.seconds
            < entries[index + 1].since().seconds) ==> price_at(entries, at) == Some(
            entries[index].amount(),
        ),
        at.seconds < entries[0].since().seconds ==> price_at(entries, at) is None,
{
    if entries[index].since().seconds <= at.seconds && (index + 1 == entries.len() || at.seconds
        < entries[index + 1].since().seconds) {
        assert forall|other: int| #[trigger] applies(entries, other, at) implies {
            ||| entries[other].since().seconds < entries[index].since().seconds
            ||| entries[other].since().seconds == entries[index].since().seconds && other
                <= index
        } by {
            if other > index {
                if other > index + 1 {
                    assert(entries[index + 1].since().seconds < entries[other].since().seconds);
                }
            } else if other < index {
                assert(entries[other].since().seconds < entries[index].since().seconds);
            }
        }
        lemma_price_of_entry_in_force(entries, index, at);
    }
    if at.seconds < entries[0].since().seconds {
        assert forall|other: int| !applies(entries, other, at) by {
            if 0 < other < entries.len() {
                assert(entries[0].since().seconds < entries[other].since().seconds);
            }
        }
    }
}

/// Where some entry has taken effect, one of them is in force.
pub proof fn lemma_in_force_exists<P: PricePoint>(entries: Seq<P>, at: Timestamp)
    requires
        exists|index: int| applies(entries, index, at),
    ensures
        exists|index: int| in_force(entries, index, at),
    decreases entries.len(),
{
    let last = entries.len() - 1;
    let front = entries.drop_last();
    assert forall|other: int| other != last implies (applies(entries, other, at) <==> applies(
        front,
        other,
        at,
    )) by {}
    if exists|index: int| applies(front, index, at) {
        lemma_in_force_exists(front, at);
        let best = choose|index: int| in_force(front, index, at);
        assert(applies(front, best, at));
        if applies(entries, last, at) && entries[best].since().seconds
            <= entries[last].since().seconds {
            assert forall|other: int| #[trigger] applies(entries, other, at) implies {
                ||| entries[other].since().seconds < entries[last].since().seconds
                ||| entries[other].since().seconds == entries[last].since().seconds && other
                    <= last
            } by {
                if other != last {
                    assert(applies(front, other, at));
                }
            }
            assert(in_force(entries, last, at));
        } else {
            assert forall|other: int| #[trigger] applies(entries, other, at) implies {
                ||| entries[other].since().seconds < entries[best].since().seconds
                ||| entries[other].since().seconds == entries[best].since().seconds && other
                    <= best
            } by {
                if other != last {
                    assert(applies(front, other, at));
                }
            }
            assert(in_force(entries, best, at));
        }
    } else {
        let some = choose|index: int| applies(entries, index, at);
        assert(some == last) by {
            if some != last {
                assert(applies(front, some, at));
            }
        }
        assert forall|other: int| #[trigger] applies(entries, other, at) implies {
            ||| entries[other].since().seconds < entries[last].since().seconds
            ||| entries[other].since().seconds == entries[last].since().seconds && other <= last
        } by {
            if other != last {
                assert(applies(front, other, at));
            }
        }
        assert(in_force(entries, last, at));
    }
}

/// An entry that takes effect after all others takes over from the instant
/// it takes effect, and changes nothing before.
pub proof fn lemma_price_after_push<P: PricePoint>(entries: Seq<P>, entry: P, at: Timestamp)
    requires
        forall|i: int|
            0 <= i < entries.len() ==> (#[trigger] entries[i]).since().seconds
                < entry.since().seconds,
    ensures
        price_at(entries.push(entry), at) == (if entry.since().seconds <= at.seconds {
            Some(entry.amount())
        } else {
            price_at(entries, at)
        }),
{
    let grown = entries.push(entry);
    let last = entries.len() as int;
    assert forall|other: int| other != last implies (applies(grown, other, at) <==> applies(
        entries,
        other,
        at,
    )) by {}
    if entry.since().seconds <= at.seconds {
        assert(applies(grown, last, at));
        assert forall|other: int| #[trigger] applies(grown, other, at) implies {
            ||| grown[other].since().seconds < grown[last].since().seconds
            ||| grown[other].since().seconds == grown[last].since().seconds && other <= last
        } by {
            if other != last {
                assert(grown[other] == entries[other]);
            }
        }
        lemma_price_of_entry_in_force(grown, last, at);
    } else if exists|index: int| applies(entries, index, at) {
        lemma_in_force_exists(entries, at);
        let best = choose|index: int| in_force(entries, index, at);
        assert(applies(entries, best, at));
        assert(applies(grown, best, at));
        assert forall|other: int| #[trigger] applies(grown, other, at) implies {
            ||| grown[other].since().seconds < grown[best].since().seconds
            ||| grown[other].since().seconds == grown[best].since().seconds && other <= best
        } by {
            assert(other != last);
            assert(applies(entries, other, at));
        }
        lemma_price_of_entry_in_force(grown, best, at);
        lemma_price_of_entry_in_force(entries, best, at);
    } else {
        assert forall|other: int| !applies(grown, other, at) by {
            if other != last {
                assert(!applies(entries, other, at));
            }
        }
    }
}

/// Collapsing a history changes no price: at every instant the price in
/// force is the same with and without the entries that were dropped.
pub proof fn lemma_collapse_keeps_prices<P: PricePoint>(entries: Seq<P>, at: Timestamp)
    requires
        strictly_ascending(entries),
    ensures
        price_at(changes(entries), at) == price_at(entries, at),
        strictly_ascending(changes(entries)),
        entries.len() > 0 ==> {
            &&& changes(entries).len() > 0
            &&& changes(entries).last().since().seconds <= entries.last().since().seconds
            &&& changes(entries).last().amount() == entries.last().amount()
        },
    decreases entries.len(),
{
    if entries.len() == 0 {
        return ;
    }
    let front = entries.drop_last();
    let last = entries.last();
    let kept = changes(front);
    assert(entries =~= front.push(last));
    assert(strictly_ascending(front)) by {
        assert forall|i: int, j: int| 0 <= i < j < front.len() implies (
        #[trigger] front[i]).since().seconds < (#[trigger] front[j]).since().seconds by {
            assert(entries[i].since().seconds < entries[j].since().seconds);
        }
    }
    lemma_collapse_keeps_prices(front, at);
    assert forall|i: int| 0 <= i < front.len() implies (#[trigger] front[i]).since().seconds
        < last.since().seconds by {
        assert(entries[i].since().seconds < entries[entries.len() - 1].since().seconds);
    }
    lemma_price_after_push(front, last, at);
    if front.len() == 0 {
        assert(changes(entries) =~= seq![last]);
        assert(kept =~= Seq::<P>::empty());
        lemma_price_after_push(kept, last, at);
        assert(kept.push(last) =~= changes(entries));
        return ;
    }
    assert(front.last() == entries[entries.len() - 2]);
    assert forall|k: int| 0 <= k < kept.len() implies (#[trigger] kept[k]).since().seconds
        < last.since().seconds by {
        if k < kept.len() - 1 {
            assert(kept[k].since().seconds < kept[kept.len() - 1].since().seconds);
        }
        assert(front[front.len() - 1].since().seconds < last.since().seconds);
    }
    if last.amount() != front.last().amount() {
        assert(changes(entries) == kept.push(last));
        lemma_price_after_push(kept, last, at);
        assert(strictly_ascending(kept.push(last))) by {
            assert forall|i: int, j: int| 0 <= i < j < kept.push(last).len() implies (
            #[trigger] kept.push(last)[i]).since().seconds < (
            #[trigger] kept.push(last)[j]).since().seconds by {
                if j < kept.len() {
                    assert(kept[i].since().seconds < kept[j].since().seconds);
                } else {
                    assert(kept[i].since().seconds < last.since().seconds);
                }
            }
        }
    } else {
        assert(changes(entries) == kept);
        if last.since().seconds <= at.seconds {
            // The entry that is dropped repeats the price that is in force.
            assert(front[front.len() - 1].since().seconds < last.since().seconds);
            lemma_step_function(front, front.len() - 1, at);
        }
    }
}

/// The price in force at `at`: that of the entry that took effect last, at
/// or before `at`; of several entries for one instant, the last counts.
/// `None` where no entry has taken effect by `at`.
pub fn price_in_force<P: PricePoint>(entries: &Vec<P>, at: Timestamp) -> (price: Option<i64>)
    ensures
        price == price_at(entries@, at),
        price is Some <==> exists|index: int| applies(entries@, index, at),
        price matches Some(amount) ==> exists|index: int|
            in_force(entries@, index, at) && entries@[index].amount() == amount,
{
    let mut best: Option<usize> = None;
    let mut index: usize = 0;
    while index < entries.len()
        invariant
            index <= entries.len(),
            best is None ==> forall|other: int| 0 <= other < index ==> !applies(entries@, other, at),
            best matches Some(found) ==> {
                &&& found < index
                &&& applies(entries@, found as int, at)
                &&& forall|other: int|
                    0 <= other < index && #[trigger] applies(entries@, other, at) ==> {
                        ||| entries@[other].since().seconds < entries@[found as int].since().seconds
                        ||| entries@[other].since().seconds
                            == entries@[found as int].since().seconds && other <= found
                    }
            },
        decreases entries.len() - index,
    {
        let since = entries[index].effective_from();
        if since.seconds <= at.seconds {
            let takes_over = match best {
                None => true,
                Some(found) => entries[found].effective_from().seconds <= since.seconds,
            };
            if takes_over {
                best = Some(index);
            }
        }
        index = index + 1;
    }
    match best {
        None => {
            assert forall|other: int| !applies(entries@, other, at) by {}
            None
        },
        Some(found) => {
            proof {
                assert(in_force(entries@, found as int, at));
                lemma_price_of_entry_in_force(entries@, found as int, at);
            }
            Some(entries[found].micropence())
        },
    }
}

/// What a day with `consumption` watt-hours cost, where both prices are
/// known for it: the standing charge of the day plus the energy at the unit
/// price. A day for which either price is not known cannot be costed.
pub open spec fn cost_of(
    day: (Date, i64),
    standing_charges: Seq<StandingChargeRecord>,
    unit_prices: Seq<UnitPriceRecord>,
) -> Option<DailyCost> {
    match (price_at(standing_charges, day.0.midnight()), price_at(unit_prices, day.0.midnight())) {
        (Some(standing_charge), Some(unit_price)) => Some(
            DailyCost {
                date: day.0,
                cost_pence: (standing_charge + day.1 * unit_price) as i128,
            },
        ),
        _ => None,
    }
}

/// The costs of the days that can be costed, in the order of the days.
pub open spec fn costed(
    days: Seq<(Date, i64)>,
    standing_charges: Seq<StandingChargeRecord>,
    unit_prices: Seq<UnitPriceRecord>,
) -> Seq<DailyCost>
    decreases days.len(),
{
    if days.len() == 0 {
        Seq::empty()
    } else {
        let before = costed(days.drop_last(), standing_charges, unit_prices);
        match cost_of(days.last(), standing_charges, unit_prices) {
            Some(cost) => before.push(cost),
            None => before,
        }
    }
}

/// `days` in the order of their dates, days of one date in the order they
/// had, as the standard library's stable sort leaves them.
pub uninterp spec fn sorted_by_date(days: Seq<(Date, i64)>) -> Seq<(Date, i64)>;

/// `slice::sort_by_key` of the standard library, with the date as the key.
/// Trusted: the outcome depends on the days alone, holds the same days as
/// before, and is in the order of the dates.
#[verifier::external_body]
fn sort_by_date(days: &mut Vec<(Date, i64)>)
    ensures
        final(days)@ == sorted_by_date(old(days)@),
        final(days)@.to_multiset() == old(days)@.to_multiset(),
        forall|i: int, j: int|
            0 <= i < j < final(days)@.len() ==> (#[trigger] final(days)@[i]).0.days <= (
            #[trigger] final(days)@[j]).0.days,
{
    days.sort_by_key(|day| day.0.days);
}

/// The cost of every day that can be costed, in the order given. `days`
/// holds each day's consumption in watt-hours; a day for which no standing
/// charge or no unit price is known is left out.
pub fn cost_days(
    days: &Vec<(Date, i64)>,
    standing_charges: &Vec<StandingChargeRecord>,
    unit_prices: &Vec<UnitPriceRecord>,
) -> (costs: Vec<DailyCost>)
    ensures
        costs@ == costed(days@, standing_charges@, unit_prices@),
        costs.len() <= days.len(),
{
    let mut costs: Vec<DailyCost> = Vec::new();
    let mut index: usize = 0;
    while index < days.len()
        invariant
            index <= days.len(),
            costs@ == costed(days@.take(index as int), standing_charges@, unit_prices@),
            costs.len() <= index,
        decreases days.len() - index,
    {
        let day = days[index];
        proof {
            let upto = days@.take(index as int + 1);
            assert(upto.drop_last() =~= days@.take(index as int));
            assert(upto.last() == day);
        }
        let at = day.0.at_midnight();
        let standing_charge = price_in_force(standing_charges, at);
        let unit_price = price_in_force(unit_prices, at);
        match (standing_charge, unit_price) {
            (Some(charge), Some(price)) => {
                assert(-0x4000_0000_0000_0000_0000_0000_0000_0000 <= day.1 * price
                    <= 0x4000_0000_0000_0000_0000_0000_0000_0000) by (nonlinear_arith)
                    requires
                        -0x8000_0000_0000_0000 <= day.1 <= 0x7fff_ffff_ffff_ffff,
                        -0x8000_0000_0000_0000 <= price <= 0x7fff_ffff_ffff_ffff,
                ;
                let energy: i128 = (day.1 as i128) * (price as i128);
                costs.push(DailyCost { date: day.0, cost_pence: charge as i128 + energy });
            },
            _ => {},
        }
        index = index + 1;
    }
    proof {
        assert(days@.take(index as int) =~= days@);
    }
    costs
}

/// The daily cost history: the days are put in the order of their dates,
/// and every day for which both a standing charge and a unit price are known
/// is costed.
pub fn cost_history(
    consumption: Vec<(Date, i64)>,
    standing_charges: &Vec<StandingChargeRecord>,
    unit_prices: &Vec<UnitPriceRecord>,
) -> (costs: Vec<DailyCost>)
    ensures
        costs@ == costed(sorted_by_date(consumption@), standing_charges@, unit_prices@),
        costs.len() <= consumption.len(),
{
    let mut days = consumption;
    sort_by_date(&mut days);
    proof {
        days@.to_multiset_ensures();
        consumption@.to_multiset_ensures();
    }
    cost_days(&days, standing_charges, unit_prices)
}

/// Every day is either costed or left out, and only days that have both
/// prices are costed: the costs are at most as many as the days, they are as
/// many where every day has both prices, and a last day without a price adds
/// nothing.
pub proof fn lemma_costed_or_dropped(
    days: Seq<(Date, i64)>,
    standing_charges: Seq<StandingChargeRecord>,
    unit_prices: Seq<UnitPriceRecord>,
)
    ensures
        costed(days, standing_charges, unit_prices).len() <= days.len(),
        (forall|i: int|
            0 <= i < days.len() ==> cost_of(#[trigger] days[i], standing_charges, unit_prices)
                is Some) ==> costed(days, standing_charges, unit_prices).len() == days.len(),
        (forall|i: int|
            0 <= i < days.len() ==> cost_of(#[trigger] days[i], standing_charges, unit_prices)
                is None) ==> costed(days, standing_charges, unit_prices).len() == 0,
    decreases days.len(),
{
    if days.len() > 0 {
        let front = days.drop_last();
        lemma_costed_or_dropped(front, standing_charges, unit_prices);
        assert forall|i: int| 0 <= i < front.len() implies front[i] == days[i] by {}
        if forall|i: int|
            0 <= i < days.len() ==> cost_of(#[trigger] days[i], standing_charges, unit_prices)
                is Some {
            assert forall|i: int| 0 <= i < front.len() implies cost_of(
                #[trigger] front[i],
                standing_charges,
                unit_prices,
            ) is Some by {
                assert(front[i] == days[i]);
            }
            assert(days.last() == days[days.len() - 1]);
        }
        if forall|i: int|
            0 <= i < days.len() ==> cost_of(#[trigger] days[i], standing_charges, unit_prices)
                is None {
            assert forall|i: int| 0 <= i < front.len() implies cost_of(
                #[trigger] front[i],
                standing_charges,
                unit_prices,
            ) is None by {
                assert(front[i] == days[i]);
            }
            assert(days.last() == days[days.len() - 1]);
        }
    }
}

} // verus!
