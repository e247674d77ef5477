use smart_energy_explorer::calendar::Date;
use smart_energy_explorer::calendar::Timestamp;
use smart_energy_explorer::consumption::is_error_code;
use smart_energy_explorer::consumption::ConsumptionRecord;
use smart_energy_explorer::consumption::ConsumptionTable;
use smart_energy_explorer::consumption::ElectricityConsumptionValue;
use smart_energy_explorer::consumption::GasConsumptionValue;
use smart_energy_explorer::consumption::Reading;
use smart_energy_explorer::consumption::ENERGY_CONSUMPTION_ERROR_CODE;

// Midnight of 1 January 2024.
const NEW_YEAR: i64 = 1_704_067_200;

#[test]
fn same_instant_twice_leaves_one_row_with_the_later_value() {
    let mut table = ConsumptionTable::new();
    table.upsert(Timestamp { seconds: NEW_YEAR }, 1_500);
    table.upsert(Timestamp { seconds: NEW_YEAR }, 2_000);
    assert_eq!(table.len(), 1);
    assert_eq!(table.get(Timestamp { seconds: NEW_YEAR }), Some(2_000));
    assert_eq!(
        table.rows,
        vec![ConsumptionRecord { timestamp: Timestamp { seconds: NEW_YEAR }, energy_consumption: 2_000 }]
    );
}

#[test]
fn storing_the_same_reading_again_changes_nothing() {
    let mut table = ConsumptionTable::new();
    table.upsert(Timestamp { seconds: NEW_YEAR }, 1_500);
    table.upsert(Timestamp { seconds: NEW_YEAR + 1_800 }, 700);
    let before = table.rows.clone();
    table.upsert(Timestamp { seconds: NEW_YEAR }, 1_500);
    assert_eq!(table.rows, before);
}

#[test]
fn other_instants_are_left_alone() {
    let mut table = ConsumptionTable::new();
    table.upsert(Timestamp { seconds: NEW_YEAR }, 1);
    table.upsert(Timestamp { seconds: NEW_YEAR + 1_800 }, 2);
    table.upsert(Timestamp { seconds: NEW_YEAR + 3_600 }, 3);
    table.upsert(Timestamp { seconds: NEW_YEAR + 1_800 }, 20);
    assert_eq!(table.len(), 3);
    assert_eq!(table.get(Timestamp { seconds: NEW_YEAR }), Some(1));
    assert_eq!(table.get(Timestamp { seconds: NEW_YEAR + 1_800 }), Some(20));
    assert_eq!(table.get(Timestamp { seconds: NEW_YEAR + 3_600 }), Some(3));
    assert_eq!(table.get(Timestamp { seconds: NEW_YEAR + 5_400 }), None);
}

#[test]
fn window_of_readings_is_stored_in_order() {
    let mut table = ConsumptionTable::new();
    table.insert(&vec![
        ElectricityConsumptionValue { timestamp: Timestamp { seconds: NEW_YEAR }, value: 10 },
        ElectricityConsumptionValue { timestamp: Timestamp { seconds: NEW_YEAR + 1_800 }, value: 20 },
        ElectricityConsumptionValue { timestamp: Timestamp { seconds: NEW_YEAR }, value: 30 },
    ]);
    assert_eq!(table.len(), 2);
    assert_eq!(table.get(Timestamp { seconds: NEW_YEAR }), Some(30));
    table.insert(&vec![GasConsumptionValue {
        timestamp: Timestamp { seconds: NEW_YEAR + 1_800 },
        value: ENERGY_CONSUMPTION_ERROR_CODE,
    }]);
    assert_eq!(table.len(), 2);
    assert_eq!(table.get(Timestamp { seconds: NEW_YEAR + 1_800 }), Some(16_777_215));
    table.insert(&Vec::<GasConsumptionValue>::new());
    assert_eq!(table.len(), 2);
}

#[test]
fn overlapping_windows_do_not_duplicate() {
    let first: Vec<GasConsumptionValue> = (0..48)
        .map(|i| GasConsumptionValue { timestamp: Timestamp { seconds: NEW_YEAR + i * 1_800 }, value: i })
        .collect();
    let second: Vec<GasConsumptionValue> = (24..72)
        .map(|i| GasConsumptionValue {
            timestamp: Timestamp { seconds: NEW_YEAR + i * 1_800 },
            value: 1_000 + i,
        })
        .collect();
    let mut table = ConsumptionTable::new();
    table.insert(&first);
    table.insert(&second);
    assert_eq!(table.len(), 72);
    assert_eq!(table.get(Timestamp { seconds: NEW_YEAR + 23 * 1_800 }), Some(23));
    assert_eq!(table.get(Timestamp { seconds: NEW_YEAR + 24 * 1_800 }), Some(1_024));
    table.insert(&second);
    assert_eq!(table.len(), 72);
}

#[test]
fn raw_rows_lie_in_the_half_open_range() {
    let mut table = ConsumptionTable::new();
    for half_hour in [-1i64, 0, 1, 47, 48, 95, 96] {
        table.upsert(Timestamp { seconds: NEW_YEAR + half_hour * 1_800 }, half_hour);
    }
    let new_year = Timestamp { seconds: NEW_YEAR }.date();
    let two_days_on = Date { days: new_year.days + 2 };
    let values: Vec<i64> =
        table.get_raw(new_year, two_days_on).iter().map(|row| row.energy_consumption).collect();
    assert_eq!(values, vec![0, 1, 47, 48, 95]);
    assert!(table.get_raw(two_days_on, new_year).is_empty());
    assert!(table.get_raw(new_year, new_year).is_empty());
}

#[test]
fn readings_give_their_instant_and_energy() {
    let electricity =
        ElectricityConsumptionValue { timestamp: Timestamp { seconds: NEW_YEAR }, value: 1_500 };
    let gas = GasConsumptionValue { timestamp: Timestamp { seconds: NEW_YEAR + 60 }, value: 42 };
    assert_eq!(electricity.timestamp(), Timestamp { seconds: NEW_YEAR });
    assert_eq!(electricity.watt_hours(), 1_500);
    assert_eq!(gas.timestamp(), Timestamp { seconds: NEW_YEAR + 60 });
    assert_eq!(gas.watt_hours(), 42);
}

#[test]
fn error_code_is_the_largest_24_bit_number() {
    assert_eq!(ENERGY_CONSUMPTION_ERROR_CODE, 0xff_ffff);
    assert!(is_error_code(16_777_215));
    assert!(!is_error_code(16_777_214));
    assert!(!is_error_code(0));
}

#[test]
fn rows_keep_the_order_in_which_instants_were_first_stored() {
    let mut table = ConsumptionTable::new();
    table.upsert(Timestamp { seconds: NEW_YEAR + 3_600 }, 3);
    table.upsert(Timestamp { seconds: NEW_YEAR }, 1);
    table.upsert(Timestamp { seconds: NEW_YEAR + 3_600 }, 30);
    let stored: Vec<(i64, i64)> =
        table.rows.iter().map(|row| (row.timestamp.seconds - NEW_YEAR, row.energy_consumption)).collect();
    assert_eq!(stored, vec![(3_600, 30), (0, 1)]);
}
