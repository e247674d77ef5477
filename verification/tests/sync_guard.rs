use smart_energy_explorer::sync::SyncGuard;

#[test]
fn second_pass_is_refused_while_first_runs() {
    let mut guard = SyncGuard::new();
    assert!(guard.try_begin());
    assert!(guard.status().is_downloading);
    let before = guard;
    assert!(!guard.try_begin());
    assert_eq!(guard, before);
    guard.finish();
    assert!(!guard.status().is_downloading);
    assert!(guard.try_begin());
}
