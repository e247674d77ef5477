use chrono::Datelike;
use chrono::NaiveDate;
use smart_energy_explorer::calendar::Date;
use smart_energy_explorer::window::earlier_window_start;
use smart_energy_explorer::window::first_window_start;
use smart_energy_explorer::window::plan_windows;
use smart_energy_explorer::window::progress_percentage;
use smart_energy_explorer::window::Window;
use smart_energy_explorer::window::WindowPolicy;

fn window_day(year: i32, month: u32, day: u32) -> Date {
    Date { days: NaiveDate::from_ymd_opt(year, month, day).unwrap().num_days_from_ce() }
}

fn span(start: Date, end: Date) -> Window {
    Window { start, end }
}

const WEEKLY: WindowPolicy = WindowPolicy::FixedDays { days: 7 };

#[test]
fn weekly_windows_walk_back_to_the_checkpoint() {
    let today = window_day(2024, 3, 21);
    let until = window_day(2024, 3, 1);
    let windows = plan_windows(WEEKLY, today, until);
    assert_eq!(
        windows,
        vec![
            span(window_day(2024, 3, 14), window_day(2024, 3, 21)),
            span(window_day(2024, 3, 7), window_day(2024, 3, 14)),
            span(window_day(2024, 3, 1), window_day(2024, 3, 7)),
        ]
    );
    assert_eq!(windows[2].length(), 6);
}

#[test]
fn window_ends_strictly_decrease_and_floor_is_reached_once() {
    let today = window_day(2024, 6, 30);
    for back in 1..200 {
        let until = Date { days: today.days - back };
        for days in 1..12u32 {
            let windows = plan_windows(WindowPolicy::FixedDays { days }, today, until);
            assert!(!windows.is_empty());
            assert_eq!(windows[0].end, today);
            assert_eq!(windows.last().unwrap().start, until);
            for pair in windows.windows(2) {
                assert_eq!(pair[0].start, pair[1].end);
                assert!(pair[1].end.days < pair[0].end.days);
                assert!(pair[0].start.days > until.days);
            }
            for window in &windows {
                assert!(window.start.days < window.end.days);
                assert!(window.length() <= days as i64);
            }
            let expected = (back as usize + days as usize - 1) / days as usize;
            assert_eq!(windows.len(), expected);
        }
    }
}

#[test]
fn nothing_is_planned_when_up_to_date() {
    let today = window_day(2024, 3, 21);
    assert!(plan_windows(WEEKLY, today, today).is_empty());
    assert!(plan_windows(WindowPolicy::CalendarMonth, today, today).is_empty());
    assert!(plan_windows(WEEKLY, today, window_day(2024, 4, 1)).is_empty());
}

#[test]
fn policy_of_no_days_plans_nothing() {
    let today = window_day(2024, 3, 21);
    let until = window_day(2024, 3, 1);
    assert!(plan_windows(WindowPolicy::FixedDays { days: 0 }, today, until).is_empty());
}

#[test]
fn single_window_when_checkpoint_is_recent() {
    let today = window_day(2024, 3, 21);
    let until = window_day(2024, 3, 18);
    assert_eq!(plan_windows(WEEKLY, today, until), vec![span(until, today)]);
}

#[test]
fn monthly_windows_follow_the_calendar() {
    let today = window_day(2024, 3, 21);
    let until = window_day(2023, 12, 15);
    assert_eq!(
        plan_windows(WindowPolicy::CalendarMonth, today, until),
        vec![
            span(window_day(2024, 3, 1), window_day(2024, 3, 21)),
            span(window_day(2024, 2, 1), window_day(2024, 3, 1)),
            span(window_day(2024, 1, 1), window_day(2024, 2, 1)),
            span(window_day(2023, 12, 15), window_day(2024, 1, 1)),
        ]
    );
}

#[test]
fn monthly_walk_does_not_start_on_the_first_of_a_month() {
    let today = window_day(2024, 3, 1);
    let until = window_day(2024, 1, 10);
    assert!(plan_windows(WindowPolicy::CalendarMonth, today, until).is_empty());
}

#[test]
fn first_start_is_cut_at_the_checkpoint() {
    let today = window_day(2024, 3, 21);
    assert_eq!(first_window_start(WEEKLY, today, window_day(2024, 1, 1)), window_day(2024, 3, 14));
    assert_eq!(first_window_start(WEEKLY, today, window_day(2024, 3, 20)), window_day(2024, 3, 20));
    assert_eq!(
        first_window_start(WindowPolicy::CalendarMonth, today, window_day(2024, 1, 1)),
        window_day(2024, 3, 1)
    );
    assert_eq!(
        first_window_start(WindowPolicy::CalendarMonth, today, window_day(2024, 3, 5)),
        window_day(2024, 3, 5)
    );
    assert_eq!(first_window_start(WEEKLY, today, window_day(2024, 4, 1)), window_day(2024, 4, 1));
}

#[test]
fn earlier_start_steps_back_and_stays_on_the_floor() {
    let until = window_day(2024, 1, 10);
    assert_eq!(
        earlier_window_start(WEEKLY, window_day(2024, 3, 14), until),
        window_day(2024, 3, 7)
    );
    assert_eq!(earlier_window_start(WEEKLY, window_day(2024, 1, 12), until), until);
    assert_eq!(earlier_window_start(WEEKLY, until, until), until);
    assert_eq!(
        earlier_window_start(WindowPolicy::CalendarMonth, window_day(2024, 3, 1), until),
        window_day(2024, 2, 1)
    );
    assert_eq!(
        earlier_window_start(WindowPolicy::CalendarMonth, window_day(2024, 2, 1), until),
        until
    );
    assert_eq!(earlier_window_start(WindowPolicy::CalendarMonth, until, until), until);
}

#[test]
fn progress_is_rounded_to_the_nearest_percent() {
    assert_eq!(progress_percentage(20, 13), 35);
    assert_eq!(progress_percentage(20, 6), 70);
    assert_eq!(progress_percentage(20, 0), 100);
    assert_eq!(progress_percentage(3, 2), 33);
    assert_eq!(progress_percentage(3, 1), 67);
    assert_eq!(progress_percentage(8, 7), 13);
    assert_eq!(progress_percentage(40, 39), 3);
    assert_eq!(progress_percentage(200, 199), 1);
    assert_eq!(progress_percentage(1000, 999), 0);
}

#[test]
fn progress_of_an_empty_walk_is_complete() {
    assert_eq!(progress_percentage(0, 0), 100);
    assert_eq!(progress_percentage(0, 5), 100);
    assert_eq!(progress_percentage(-3, 0), 100);
}

#[test]
fn progress_stays_between_nothing_and_everything() {
    assert_eq!(progress_percentage(10, 10), 0);
    assert_eq!(progress_percentage(10, 25), 0);
    assert_eq!(progress_percentage(10, -4), 100);
    assert_eq!(progress_percentage(i64::MAX, 1), 100);
    assert_eq!(progress_percentage(i64::MAX, i64::MAX), 0);
    assert_eq!(progress_percentage(i64::MAX, i64::MAX / 2), 50);
}
