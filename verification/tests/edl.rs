use nrho_engine::edl::{classify, DescentLog, EdlPhase};

#[test]
fn classify_each_regime() {
    assert_eq!(classify(true, true), EdlPhase::Landed);
    assert_eq!(classify(true, false), EdlPhase::Landed);
    assert_eq!(classify(false, true), EdlPhase::Parachute);
    assert_eq!(classify(false, false), EdlPhase::Hypersonic);
}

#[test]
fn parachute_drag_only_under_canopy() {
    assert!(EdlPhase::Parachute.parachute_deployed());
    assert!(!EdlPhase::Hypersonic.parachute_deployed());
    assert!(!EdlPhase::Landed.parachute_deployed());
}

#[test]
fn new_log_is_empty_and_running() {
    let log = DescentLog::new();
    assert_eq!(log.len(), 0);
    assert!(!log.is_finished());
}

#[test]
fn descent_through_all_phases_ends_on_ground() {
    let mut log = DescentLog::new();
    assert_eq!(log.observe(false, false), EdlPhase::Hypersonic);
    log.advance(false);
    assert!(!log.is_finished());
    assert_eq!(log.observe(false, false), EdlPhase::Hypersonic);
    log.advance(false);
    assert_eq!(log.observe(false, true), EdlPhase::Parachute);
    log.advance(false);
    assert!(!log.is_finished());
    assert_eq!(log.observe(true, true), EdlPhase::Landed);
    assert!(log.is_finished());
    assert_eq!(log.len(), 4);
    assert_eq!(log.phase_at(0), EdlPhase::Hypersonic);
    assert_eq!(log.phase_at(2), EdlPhase::Parachute);
    assert_eq!(log.phase_at(3), EdlPhase::Landed);
}

#[test]
fn descent_stops_at_time_cap_without_landing() {
    let mut log = DescentLog::new();
    assert_eq!(log.observe(false, true), EdlPhase::Parachute);
    log.advance(true);
    assert!(log.is_finished());
    assert_eq!(log.len(), 1);
    assert_eq!(log.phase_at(0), EdlPhase::Parachute);
}

#[test]
fn entry_below_ground_lands_at_once() {
    let mut log = DescentLog::new();
    assert_eq!(log.observe(true, false), EdlPhase::Landed);
    assert!(log.is_finished());
    assert_eq!(log.len(), 1);
}
