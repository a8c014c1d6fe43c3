use player_controller::attack::{Attack, AttackPhase};

#[test]
fn attack_slot_lifecycle() {
    let mut a = Attack::new(true, false);
    assert_eq!(a.phase, AttackPhase::Idle);
    assert!(!a.monitoring);
    a.begin_attack();
    assert_eq!(a.phase, AttackPhase::Armed);
    assert!(a.monitoring);
    a.end_attack();
    assert_eq!(a.phase, AttackPhase::Chaining);
    assert!(!a.monitoring);
    assert!(a.end_chain());
    assert_eq!(a.phase, AttackPhase::Idle);
}

#[test]
fn begin_during_chain_rearms() {
    let mut a = Attack::new(false, true);
    a.begin_attack();
    a.end_attack();
    a.begin_attack();
    assert_eq!(a.phase, AttackPhase::Armed);
    assert!(a.monitoring);
    assert!(!a.end_chain());
    assert!(a.chargeable);
}
