use smart_energy_explorer::calendar::Date;
use smart_energy_explorer::calendar::Timestamp;
use smart_energy_explorer::download::DownloadAction;
use smart_energy_explorer::download::DownloadEvent;
use smart_energy_explorer::download::DownloadFailure;
use smart_energy_explorer::download::DownloadUpdateEvent;
use smart_energy_explorer::profile::EnergyProfile;
use smart_energy_explorer::sync::download_outcome;
use smart_energy_explorer::sync::Capabilities;
use smart_energy_explorer::sync::DataKind;
use smart_energy_explorer::sync::Stream;
use smart_energy_explorer::sync::SyncAction;
use smart_energy_explorer::sync::SyncEvent;
use smart_energy_explorer::sync::SyncFailure;
use smart_energy_explorer::sync::SyncGuard;
use smart_energy_explorer::sync::SyncPass;
use smart_energy_explorer::sync::SyncPhase;

const BOTH: Capabilities = Capabilities { electricity_tariff_history: true, gas_tariff_history: true };
const NEITHER: Capabilities =
    Capabilities { electricity_tariff_history: false, gas_tariff_history: false };

fn stream_profile(id: i32, name: &str, active: bool, last: Option<i64>) -> EnergyProfile {
    EnergyProfile {
        energy_profile_id: id,
        name: name.to_string(),
        is_active: active,
        start_date: Timestamp { seconds: 1_700_000_000 },
        last_date_retrieved: last.map(|seconds| Timestamp { seconds }),
        base_unit: "kWh".to_string(),
    }
}

fn describe(action: &SyncAction) -> String {
    match action {
        SyncAction::Announce(event) => format!("announce {}", event.is_downloading),
        SyncAction::FetchProfile { stream } => {
            format!("profile {} {}", stream.profile_name(), stream.base_unit())
        }
        SyncAction::Download { stream, kind, until } => {
            format!("download {} from {}", stream.download_name(*kind), until.seconds)
        }
        SyncAction::SaveProfile { energy_profile_id, is_active, start_date, last_date_retrieved } => {
            format!(
                "save {} {} {} {}",
                energy_profile_id, is_active, start_date.seconds, last_date_retrieved.seconds
            )
        }
        SyncAction::Release => "release".to_string(),
        SyncAction::Done { outcome } => format!("done {:?}", outcome),
    }
}

/// Runs a pass to its end, answering every action from `answers` in turn.
fn run_pass(capabilities: Capabilities, answers: Vec<SyncEvent>) -> (Vec<String>, SyncGuard) {
    let mut guard = SyncGuard::new();
    let (mut pass, mut action) = SyncPass::begin(&mut guard, capabilities).unwrap();
    let mut trace = vec![describe(&action)];
    for event in answers {
        assert!(!pass.is_finished());
        if matches!(action, SyncAction::Release) {
            guard.finish();
        }
        let next = pass.step(event);
        pass = next.0;
        action = next.1;
        trace.push(describe(&action));
    }
    assert!(pass.is_finished());
    (trace, guard)
}

#[test]
fn full_pass_works_electricity_then_gas() {
    let day = Date { days: 738_966 };
    let midnight = day.at_midnight().seconds;
    let (trace, guard) = run_pass(
        BOTH,
        vec![
            SyncEvent::Announced,
            SyncEvent::ProfileReady(stream_profile(1, "electricity", true, Some(1_710_000_000))),
            SyncEvent::Downloaded { checkpoint: day },
            SyncEvent::Downloaded { checkpoint: day },
            SyncEvent::ProfileSaved,
            SyncEvent::ProfileReady(stream_profile(2, "gas", true, None)),
            SyncEvent::Downloaded { checkpoint: day },
            SyncEvent::Downloaded { checkpoint: day },
            SyncEvent::ProfileSaved,
            SyncEvent::Released,
            SyncEvent::Announced,
        ],
    );
    assert_eq!(
        trace,
        vec![
            "announce true".to_string(),
            "profile electricity kWh".to_string(),
            "download electricity consumption from 1710000000".to_string(),
            "download electricity tariff from 1710000000".to_string(),
            format!("save 1 true 1700000000 {}", midnight),
            "profile gas kWh".to_string(),
            "download gas consumption from 1700000000".to_string(),
            "download gas tariff from 1700000000".to_string(),
            format!("save 2 true 1700000000 {}", midnight),
            "release".to_string(),
            "announce false".to_string(),
            "done Ok(())".to_string(),
        ]
    );
    assert!(!guard.downloading);
}

#[test]
fn later_of_the_two_checkpoints_is_saved() {
    let earlier = Date { days: 738_960 };
    let later = Date { days: 738_966 };
    for (first, second) in [(earlier, later), (later, earlier)] {
        let mut guard = SyncGuard::new();
        let (pass, _) = SyncPass::begin(&mut guard, BOTH).unwrap();
        let (pass, _) = pass.step(SyncEvent::Announced);
        let (pass, _) = pass.step(SyncEvent::ProfileReady(stream_profile(7, "electricity", true, None)));
        let (pass, _) = pass.step(SyncEvent::Downloaded { checkpoint: first });
        let (_, action) = pass.step(SyncEvent::Downloaded { checkpoint: second });
        match action {
            SyncAction::SaveProfile { last_date_retrieved, .. } => {
                assert_eq!(last_date_retrieved, later.at_midnight())
            }
            other => panic!("unexpected: {:?}", other),
        }
    }
}

#[test]
fn tariff_is_left_out_where_the_provider_has_none() {
    let day = Date { days: 738_966 };
    let (trace, _) = run_pass(
        Capabilities { electricity_tariff_history: false, gas_tariff_history: true },
        vec![
            SyncEvent::Announced,
            SyncEvent::ProfileReady(stream_profile(1, "electricity", true, None)),
            SyncEvent::Downloaded { checkpoint: day },
            SyncEvent::ProfileSaved,
            SyncEvent::ProfileReady(stream_profile(2, "gas", true, None)),
            SyncEvent::Downloaded { checkpoint: day },
            SyncEvent::Downloaded { checkpoint: day },
            SyncEvent::ProfileSaved,
            SyncEvent::Released,
            SyncEvent::Announced,
        ],
    );
    assert_eq!(trace[2], "download electricity consumption from 1700000000");
    assert!(trace[3].starts_with("save 1 "));
    assert_eq!(trace[6], "download gas tariff from 1700000000");
}

#[test]
fn inactive_stream_is_passed_over() {
    let day = Date { days: 738_966 };
    let (trace, _) = run_pass(
        NEITHER,
        vec![
            SyncEvent::Announced,
            SyncEvent::ProfileReady(stream_profile(1, "electricity", false, None)),
            SyncEvent::ProfileReady(stream_profile(2, "gas", true, None)),
            SyncEvent::Downloaded { checkpoint: day },
            SyncEvent::ProfileSaved,
            SyncEvent::Released,
            SyncEvent::Announced,
        ],
    );
    assert_eq!(
        trace,
        vec![
            "announce true".to_string(),
            "profile electricity kWh".to_string(),
            "profile gas kWh".to_string(),
            "download gas consumption from 1700000000".to_string(),
            format!("save 2 true 1700000000 {}", day.at_midnight().seconds),
            "release".to_string(),
            "announce false".to_string(),
            "done Ok(())".to_string(),
        ]
    );
}

#[test]
fn failed_download_saves_nothing_and_releases() {
    let (trace, guard) = run_pass(
        BOTH,
        vec![
            SyncEvent::Announced,
            SyncEvent::ProfileReady(stream_profile(1, "electricity", true, None)),
            SyncEvent::Downloaded { checkpoint: Date { days: 738_966 } },
            SyncEvent::DownloadFailed,
            SyncEvent::Released,
            SyncEvent::Announced,
        ],
    );
    assert_eq!(
        trace,
        vec![
            "announce true",
            "profile electricity kWh",
            "download electricity consumption from 1700000000",
            "download electricity tariff from 1700000000",
            "release",
            "announce false",
            "done Err(Download(Electricity, Tariff))",
        ]
    );
    assert!(trace.iter().all(|line| !line.starts_with("save")));
    assert!(!guard.downloading);
}

#[test]
fn profile_that_cannot_be_had_ends_the_work() {
    let (trace, guard) = run_pass(
        BOTH,
        vec![SyncEvent::Announced, SyncEvent::ProfileFailed, SyncEvent::Released, SyncEvent::Announced],
    );
    assert_eq!(
        trace,
        vec![
            "announce true",
            "profile electricity kWh",
            "release",
            "announce false",
            "done Err(Profile(Electricity))",
        ]
    );
    assert!(!guard.downloading);
}

#[test]
fn profile_that_cannot_be_saved_does_not_stop_the_next_stream() {
    let day = Date { days: 738_966 };
    let (trace, _) = run_pass(
        NEITHER,
        vec![
            SyncEvent::Announced,
            SyncEvent::ProfileReady(stream_profile(1, "electricity", true, None)),
            SyncEvent::Downloaded { checkpoint: day },
            SyncEvent::ProfileSaveFailed,
            SyncEvent::ProfileReady(stream_profile(2, "gas", true, None)),
            SyncEvent::Downloaded { checkpoint: day },
            SyncEvent::ProfileSaveFailed,
            SyncEvent::Released,
            SyncEvent::Announced,
        ],
    );
    assert_eq!(trace[4], "profile gas kWh");
    assert_eq!(trace[5], "download gas consumption from 1700000000");
    assert_eq!(trace.last().unwrap(), "done Err(Save(Electricity))");
}

#[test]
fn report_out_of_turn_goes_to_the_release() {
    let mut guard = SyncGuard::new();
    let (pass, _) = SyncPass::begin(&mut guard, BOTH).unwrap();
    let (pass, action) = pass.step(SyncEvent::ProfileSaved);
    assert!(matches!(action, SyncAction::Release));
    assert_eq!(pass.phase, SyncPhase::Releasing);
    assert_eq!(pass.failure, Some(SyncFailure::OutOfTurn));
    let (pass, action) = pass.step(SyncEvent::Released);
    assert!(matches!(action, SyncAction::Announce(event) if !event.is_downloading));
    let (pass, action) = pass.step(SyncEvent::Announced);
    assert!(matches!(action, SyncAction::Done { outcome: Err(SyncFailure::OutOfTurn) }));
    let (pass, action) = pass.step(SyncEvent::DownloadFailed);
    assert!(pass.is_finished());
    assert!(matches!(action, SyncAction::Done { outcome: Err(SyncFailure::OutOfTurn) }));
}

#[test]
fn pass_is_refused_while_another_runs() {
    let mut guard = SyncGuard::new();
    guard.set_client_available(true);
    let first = SyncPass::begin(&mut guard, BOTH);
    assert!(first.is_some());
    let held = guard;
    assert!(held.downloading);
    let second = SyncPass::begin(&mut guard, BOTH);
    assert!(second.is_none());
    assert_eq!(guard, held);
    guard.finish();
    assert_eq!(guard.status().is_downloading, false);
    assert_eq!(guard.status().is_client_available, true);
    assert!(SyncPass::begin(&mut guard, BOTH).is_some());
}

#[test]
fn end_of_a_download_becomes_a_report_to_the_pass() {
    let day = Date { days: 738_966 };
    assert!(matches!(
        download_outcome(&DownloadAction::Complete { checkpoint: day }),
        Some(SyncEvent::Downloaded { checkpoint }) if checkpoint == day
    ));
    assert!(matches!(
        download_outcome(&DownloadAction::Abandon { failure: DownloadFailure::Load }),
        Some(SyncEvent::DownloadFailed)
    ));
    assert!(download_outcome(&DownloadAction::Insert).is_none());
    assert!(download_outcome(&DownloadAction::Load { start: day, end: day }).is_none());
    assert!(download_outcome(&DownloadAction::Report(DownloadUpdateEvent {
        percentage: 100,
        name: "gas tariff".to_string()
    }))
    .is_none());
    let _ = DownloadEvent::Reported;
}
