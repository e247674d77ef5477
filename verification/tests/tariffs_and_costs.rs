use chrono::Datelike;
use chrono::NaiveDate;
use smart_energy_explorer::calendar::Date;
use smart_energy_explorer::calendar::Timestamp;
use smart_energy_explorer::cost::cost_days;
use smart_energy_explorer::cost::cost_history;
use smart_energy_explorer::cost::price_in_force;
use smart_energy_explorer::cost::DailyCost;
use smart_energy_explorer::tariff::collapse_history;
use smart_energy_explorer::tariff::PricePoint;
use smart_energy_explorer::tariff::StandingChargeRecord;
use smart_energy_explorer::tariff::TariffPlan;
use smart_energy_explorer::tariff::UnitPriceRecord;

const MICRO: i64 = 1_000_000;

fn tariff_day(year: i32, month: u32, day: u32) -> Date {
    Date { days: NaiveDate::from_ymd_opt(year, month, day).unwrap().num_days_from_ce() }
}

fn charge(year: i32, month: u32, day: u32, pence: i64) -> StandingChargeRecord {
    StandingChargeRecord {
        start_date: tariff_day(year, month, day).at_midnight(),
        standing_charge_pence: pence * MICRO,
    }
}

/// A unit price given in pence per kWh.
fn price(year: i32, month: u32, day: u32, pence_per_kwh: i64) -> UnitPriceRecord {
    UnitPriceRecord {
        price_effective_time: tariff_day(year, month, day).at_midnight(),
        unit_price_pence: pence_per_kwh * MICRO / 1_000,
    }
}

#[test]
fn raw_history_collapses_to_its_changes() {
    let raw: Vec<UnitPriceRecord> = [100, 100, 150, 150, 100]
        .iter()
        .enumerate()
        .map(|(i, pence)| price(2024, 1 + i as u32, 1, *pence))
        .collect();
    let collapsed = collapse_history(&raw);
    assert_eq!(collapsed, vec![raw[0], raw[2], raw[4]]);
    let values: Vec<i64> = collapsed.iter().map(|entry| entry.micropence()).collect();
    assert_eq!(values, vec![100_000, 150_000, 100_000]);
}

#[test]
fn collapsing_keeps_the_first_of_every_run() {
    let raw = vec![
        charge(2024, 1, 1, 40),
        charge(2024, 2, 1, 40),
        charge(2024, 3, 1, 40),
        charge(2024, 4, 1, 45),
    ];
    assert_eq!(collapse_history(&raw), vec![raw[0], raw[3]]);
    assert_eq!(collapse_history(&raw[..1].to_vec()), vec![raw[0]]);
    assert!(collapse_history(&Vec::<StandingChargeRecord>::new()).is_empty());
    let collapsed = collapse_history(&raw);
    assert_eq!(collapse_history(&collapsed), collapsed);
}

#[test]
fn price_points_give_their_instant_and_price() {
    let standing = charge(2024, 1, 1, 500);
    let unit = price(2024, 1, 1, 25);
    assert_eq!(standing.effective_from(), tariff_day(2024, 1, 1).at_midnight());
    assert_eq!(standing.micropence(), 500_000_000);
    assert_eq!(unit.effective_from(), tariff_day(2024, 1, 1).at_midnight());
    assert_eq!(unit.micropence(), 25_000);
}

#[test]
fn price_in_force_is_the_latest_at_or_before() {
    let charges = vec![charge(2024, 1, 1, 500), charge(2024, 2, 1, 550)];
    let at = |year, month, day| tariff_day(year, month, day).at_midnight();
    assert_eq!(price_in_force(&charges, at(2024, 1, 15)), Some(500 * MICRO));
    assert_eq!(price_in_force(&charges, at(2024, 1, 1)), Some(500 * MICRO));
    assert_eq!(price_in_force(&charges, at(2024, 1, 31)), Some(500 * MICRO));
    assert_eq!(price_in_force(&charges, at(2024, 2, 1)), Some(550 * MICRO));
    assert_eq!(price_in_force(&charges, at(2030, 1, 1)), Some(550 * MICRO));
    assert_eq!(price_in_force(&charges, at(2023, 12, 31)), None);
    assert_eq!(price_in_force(&Vec::<UnitPriceRecord>::new(), at(2024, 1, 1)), None);
    let just_before = Timestamp { seconds: at(2024, 2, 1).seconds - 1 };
    assert_eq!(price_in_force(&charges, just_before), Some(500 * MICRO));
}

#[test]
fn price_in_force_does_not_depend_on_the_order_of_entries() {
    let charges = vec![charge(2024, 2, 1, 550), charge(2024, 1, 1, 500), charge(2023, 6, 1, 450)];
    let at = |year, month, day| tariff_day(year, month, day).at_midnight();
    assert_eq!(price_in_force(&charges, at(2024, 1, 15)), Some(500 * MICRO));
    assert_eq!(price_in_force(&charges, at(2023, 7, 1)), Some(450 * MICRO));
    assert_eq!(price_in_force(&charges, at(2024, 5, 1)), Some(550 * MICRO));
}

#[test]
fn of_two_entries_for_one_instant_the_last_counts() {
    let charges = vec![charge(2024, 1, 1, 500), charge(2024, 1, 1, 510), charge(2023, 1, 1, 400)];
    let at = tariff_day(2024, 1, 15).at_midnight();
    assert_eq!(price_in_force(&charges, at), Some(510 * MICRO));
}

#[test]
fn day_costs_standing_charge_plus_energy_at_unit_price() {
    let charges = vec![charge(2024, 1, 1, 500), charge(2024, 2, 1, 550)];
    let prices = vec![price(2024, 1, 1, 25)];
    // 10 kWh on 15 January: 500p + 10 x 25p = 750p.
    let days = vec![(tariff_day(2024, 1, 15), 10_000)];
    assert_eq!(
        cost_days(&days, &charges, &prices),
        vec![DailyCost { date: tariff_day(2024, 1, 15), cost_pence: 750 * MICRO as i128 }]
    );
    // 12.345 kWh on 3 February: 550p + 12.345 x 25p = 858.625p.
    let days = vec![(tariff_day(2024, 2, 3), 12_345)];
    assert_eq!(
        cost_days(&days, &charges, &prices),
        vec![DailyCost { date: tariff_day(2024, 2, 3), cost_pence: 858_625_000 }]
    );
}

#[test]
fn day_without_a_price_is_dropped() {
    let charges = vec![charge(2024, 1, 1, 500), charge(2024, 2, 1, 550)];
    let prices = vec![price(2024, 1, 10, 25)];
    let days = vec![
        (tariff_day(2023, 12, 31), 10_000),
        (tariff_day(2024, 1, 5), 10_000),
        (tariff_day(2024, 1, 10), 4_000),
        (tariff_day(2024, 2, 1), 0),
    ];
    assert_eq!(
        cost_days(&days, &charges, &prices),
        vec![
            DailyCost { date: tariff_day(2024, 1, 10), cost_pence: 600 * MICRO as i128 },
            DailyCost { date: tariff_day(2024, 2, 1), cost_pence: 550 * MICRO as i128 },
        ]
    );
    assert!(cost_days(&days, &charges, &Vec::new()).is_empty());
    assert!(cost_days(&days, &Vec::new(), &prices).is_empty());
    assert!(cost_days(&Vec::new(), &charges, &prices).is_empty());
}

#[test]
fn cost_history_is_in_the_order_of_the_days() {
    let charges = vec![charge(2024, 1, 1, 100)];
    let prices = vec![price(2024, 1, 1, 10)];
    let days = vec![
        (tariff_day(2024, 1, 20), 3_000),
        (tariff_day(2024, 1, 5), 1_000),
        (tariff_day(2023, 12, 25), 9_000),
        (tariff_day(2024, 1, 12), 2_000),
        (tariff_day(2024, 1, 5), 5_000),
    ];
    assert_eq!(
        cost_history(days, &charges, &prices),
        vec![
            DailyCost { date: tariff_day(2024, 1, 5), cost_pence: 110 * MICRO as i128 },
            DailyCost { date: tariff_day(2024, 1, 5), cost_pence: 150 * MICRO as i128 },
            DailyCost { date: tariff_day(2024, 1, 12), cost_pence: 120 * MICRO as i128 },
            DailyCost { date: tariff_day(2024, 1, 20), cost_pence: 130 * MICRO as i128 },
        ]
    );
}

#[test]
fn cost_does_not_overflow() {
    let charges = vec![StandingChargeRecord {
        start_date: Timestamp { seconds: 0 },
        standing_charge_pence: i64::MAX,
    }];
    let prices = vec![UnitPriceRecord {
        price_effective_time: Timestamp { seconds: 0 },
        unit_price_pence: i64::MAX,
    }];
    let day = tariff_day(2024, 1, 1);
    let costs = cost_days(&vec![(day, i64::MAX), (day, i64::MIN)], &charges, &prices);
    let most = i64::MAX as i128;
    assert_eq!(costs[0].cost_pence, most + most * most);
    assert_eq!(costs[1].cost_pence, most + (i64::MIN as i128) * most);
}

#[test]
fn tariff_plan_becomes_a_row_of_either_store() {
    let plan = || TariffPlan {
        tariff_id: "abc-123".to_string(),
        plan: "[{\"standing\":45.5,\"rate\":28.1}]".to_string(),
        effective_date: tariff_day(2024, 1, 1).at_midnight(),
        display_name: "Standard".to_string(),
    };
    let electricity = plan().into_electricity();
    assert_eq!(electricity.tariff_id, "abc-123");
    assert_eq!(electricity.plan, "[{\"standing\":45.5,\"rate\":28.1}]");
    assert_eq!(electricity.effective_date, tariff_day(2024, 1, 1).at_midnight());
    assert_eq!(electricity.display_name, "Standard");
    let gas = plan().into_gas();
    assert_eq!(gas.tariff_id, "abc-123");
    assert_eq!(gas.plan, "[{\"standing\":45.5,\"rate\":28.1}]");
    assert_eq!(gas.effective_date, tariff_day(2024, 1, 1).at_midnight());
    assert_eq!(gas.display_name, "Standard");
}

#[test]
fn collapsing_changes_no_price() {
    let raw: Vec<StandingChargeRecord> = [40, 40, 45, 45, 45, 40, 50, 50]
        .iter()
        .enumerate()
        .map(|(i, pence)| charge(2024, 1 + i as u32, 1, *pence))
        .collect();
    let collapsed = collapse_history(&raw);
    assert_eq!(collapsed.len(), 4);
    let first = tariff_day(2023, 12, 1).days;
    for day in first..first + 400 {
        let at = Date { days: day }.at_midnight();
        assert_eq!(price_in_force(&collapsed, at), price_in_force(&raw, at));
    }
}
