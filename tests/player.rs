use player_controller::player::{
    Animation, AnimationClip, AttackSlot, DashKind, PlanarMotion, Player, PlayerConfig, TickInput,
    VerticalMotion,
};
use player_controller::state::LocomotionState;

fn quiet(on_floor: bool) -> TickInput {
    TickInput {
        moving: false,
        jump: false,
        dash: false,
        attack: false,
        on_floor,
        rising: false,
        recharge_stopped: true,
    }
}

fn standard() -> Player {
    Player::new(PlayerConfig::standard())
}

#[test]
fn new_player_is_idle_and_full() {
    let p = standard();
    assert_eq!(p.current_state, LocomotionState::Idle);
    assert_eq!(p.dash_available, 5);
    assert_eq!(p.current_hp, 50);
    assert_eq!(p.current_shield, 50);
    assert_eq!(p.current_basic_ground_attack, 0);
    assert_eq!(p.current_basic_air_attack, 0);
    assert_eq!(p.num_basic_ground_attacks, 2);
    assert_eq!(p.num_basic_air_attacks, 1);
}

#[test]
fn move_input_from_idle_walks() {
    let mut p = standard();
    let plan = p.process_inputs(TickInput { moving: true, ..quiet(true) });
    assert_eq!(p.current_state, LocomotionState::Moving);
    assert_eq!(plan.planar, PlanarMotion::Walk);
    assert_eq!(plan.vertical, VerticalMotion::Keep);
    assert_eq!(plan.dash_timer, None);
    assert_eq!(plan.begin_attack, None);
    assert!(!plan.start_recharge);
}

#[test]
fn no_input_on_floor_rests() {
    let mut p = standard();
    p.modify_state(LocomotionState::Moving);
    let plan = p.process_inputs(quiet(true));
    assert_eq!(p.current_state, LocomotionState::Idle);
    assert_eq!(plan.planar, PlanarMotion::Rest);
    assert_eq!(plan.vertical, VerticalMotion::Keep);
}

#[test]
fn air_dash_with_last_charge() {
    let mut p = standard();
    p.dash_available = 1;
    let plan = p.process_inputs(TickInput { dash: true, ..quiet(false) });
    assert_eq!(p.current_state, LocomotionState::AirDashing);
    assert_eq!(p.dash_available, 0);
    assert_eq!(plan.planar, PlanarMotion::AirDash);
    assert_eq!(plan.dash_timer, Some(DashKind::Air));
    assert_eq!(plan.vertical, VerticalMotion::Fall);
    assert!(plan.start_recharge);
}

#[test]
fn ground_dash_uses_ground_timer() {
    let mut p = standard();
    let plan = p.process_inputs(TickInput { dash: true, moving: true, ..quiet(true) });
    assert_eq!(p.current_state, LocomotionState::GroundDashing);
    assert_eq!(p.dash_available, 4);
    assert_eq!(plan.planar, PlanarMotion::GroundDash);
    assert_eq!(plan.dash_timer, Some(DashKind::Ground));
}

#[test]
fn dashes_refused_once_charges_run_out() {
    let mut p = standard();
    for i in 0..5 {
        let plan = p.process_inputs(TickInput { dash: true, ..quiet(true) });
        assert_eq!(plan.dash_timer, Some(DashKind::Ground));
        assert_eq!(p.dash_available, 4 - i);
    }
    let plan = p.process_inputs(TickInput { dash: true, ..quiet(true) });
    assert_eq!(plan.dash_timer, None);
    assert_eq!(p.dash_available, 0);
}

#[test]
fn recharge_never_exceeds_max() {
    let mut p = standard();
    p.increase_dash_counter();
    p.increase_dash_counter();
    assert_eq!(p.dash_available, 5);
    p.dash_available = 3;
    p.increase_dash_counter();
    assert_eq!(p.dash_available, 4);
}

#[test]
fn recharge_timer_started_when_charges_missing() {
    let mut p = standard();
    p.dash_available = 2;
    let plan = p.process_inputs(quiet(true));
    assert!(plan.start_recharge);
    let running = TickInput { recharge_stopped: false, ..quiet(true) };
    let plan = p.process_inputs(running);
    assert!(!plan.start_recharge);
    let mut full = standard();
    let plan = full.process_inputs(quiet(true));
    assert!(!plan.start_recharge);
}

#[test]
fn dash_ends_idle_on_floor_and_falling_in_air() {
    let mut p = standard();
    p.modify_state_bypass_dash(LocomotionState::GroundDashing);
    p.disable_dash_state(true);
    assert_eq!(p.current_state, LocomotionState::Idle);
    p.modify_state_bypass_dash(LocomotionState::AirDashing);
    p.disable_dash_state(false);
    assert_eq!(p.current_state, LocomotionState::Falling);
}

#[test]
fn dash_keeps_overriding_while_dashing() {
    let mut p = standard();
    p.process_inputs(TickInput { dash: true, ..quiet(true) });
    let plan = p.process_inputs(TickInput { moving: true, ..quiet(true) });
    assert_eq!(p.current_state, LocomotionState::GroundDashing);
    assert_eq!(plan.planar, PlanarMotion::GroundDash);
    assert_eq!(p.dash_available, 4);
}

#[test]
fn ground_combo_wraps_after_last_index() {
    let mut p = standard();
    let mut seen = Vec::new();
    for _ in 0..6 {
        p.end_attack(true);
        seen.push(p.current_basic_ground_attack);
    }
    assert_eq!(seen, vec![1, 2, 0, 1, 2, 0]);
    assert_eq!(p.current_state, LocomotionState::Idle);
    assert_eq!(p.current_basic_air_attack, 0);
}

#[test]
fn air_combo_wraps_and_falls() {
    let mut p = standard();
    let mut seen = Vec::new();
    for _ in 0..4 {
        p.end_attack(false);
        seen.push(p.current_basic_air_attack);
    }
    assert_eq!(seen, vec![1, 0, 1, 0]);
    assert_eq!(p.current_state, LocomotionState::Falling);
}

#[test]
fn chain_end_resets_only_its_track() {
    let mut p = standard();
    p.end_attack(true);
    p.end_attack(true);
    p.end_attack(false);
    p.end_chain(true);
    assert_eq!(p.current_basic_ground_attack, 0);
    assert_eq!(p.current_basic_air_attack, 1);
    p.end_chain(false);
    assert_eq!(p.current_basic_air_attack, 0);
}

#[test]
fn locked_states_refuse_guarded_setter() {
    let locked = [
        LocomotionState::GroundDashing,
        LocomotionState::AirDashing,
        LocomotionState::GroundAttacking,
        LocomotionState::AirAttacking,
    ];
    for s in locked {
        let mut p = standard();
        p.modify_state_bypass_dash(s);
        p.modify_state(LocomotionState::Idle);
        assert_eq!(p.current_state, s);
        p.modify_state(LocomotionState::Falling);
        assert_eq!(p.current_state, s);
        p.modify_state_bypass_dash(LocomotionState::Jumping);
        assert_eq!(p.current_state, LocomotionState::Jumping);
    }
}

#[test]
fn unlocked_states_accept_guarded_setter() {
    let mut p = standard();
    p.modify_state(LocomotionState::Falling);
    assert_eq!(p.current_state, LocomotionState::Falling);
    p.modify_state(LocomotionState::GroundAttacking);
    assert_eq!(p.current_state, LocomotionState::GroundAttacking);
    p.modify_state(LocomotionState::Idle);
    assert_eq!(p.current_state, LocomotionState::GroundAttacking);
}

#[test]
fn jump_on_floor_launches() {
    let mut p = standard();
    let plan = p.process_inputs(TickInput { jump: true, ..quiet(true) });
    assert_eq!(p.current_state, LocomotionState::Jumping);
    assert_eq!(plan.vertical, VerticalMotion::Launch);
}

#[test]
fn jump_cancels_dash_on_floor() {
    let mut p = standard();
    p.modify_state_bypass_dash(LocomotionState::GroundDashing);
    let plan = p.process_inputs(TickInput { jump: true, ..quiet(true) });
    assert_eq!(p.current_state, LocomotionState::Jumping);
    assert_eq!(plan.planar, PlanarMotion::Rest);
}

#[test]
fn airborne_rises_then_falls() {
    let mut p = standard();
    let plan = p.process_inputs(TickInput { rising: true, ..quiet(false) });
    assert_eq!(p.current_state, LocomotionState::Jumping);
    assert_eq!(plan.vertical, VerticalMotion::Rise);
    let plan = p.process_inputs(quiet(false));
    assert_eq!(p.current_state, LocomotionState::Falling);
    assert_eq!(plan.vertical, VerticalMotion::Fall);
}

#[test]
fn gravity_does_not_cancel_air_dash() {
    let mut p = standard();
    p.modify_state_bypass_dash(LocomotionState::AirDashing);
    let plan = p.process_inputs(quiet(false));
    assert_eq!(p.current_state, LocomotionState::AirDashing);
    assert_eq!(plan.vertical, VerticalMotion::Fall);
    assert_eq!(plan.planar, PlanarMotion::AirDash);
}

#[test]
fn attack_on_floor_halts_and_begins_slot() {
    let mut p = standard();
    p.end_attack(true);
    let plan = p.process_inputs(TickInput { attack: true, moving: true, ..quiet(true) });
    assert_eq!(p.current_state, LocomotionState::GroundAttacking);
    assert_eq!(plan.planar, PlanarMotion::Halt);
    assert_eq!(plan.begin_attack, Some(AttackSlot { ground: true, index: 1 }));
}

#[test]
fn attack_in_air_begins_air_slot() {
    let mut p = standard();
    let plan = p.process_inputs(TickInput { attack: true, ..quiet(false) });
    assert_eq!(p.current_state, LocomotionState::AirAttacking);
    assert_eq!(plan.begin_attack, Some(AttackSlot { ground: false, index: 0 }));
    assert_eq!(plan.planar, PlanarMotion::Halt);
}

#[test]
fn attack_while_attacking_is_ignored() {
    let mut p = standard();
    p.process_inputs(TickInput { attack: true, ..quiet(true) });
    let plan = p.process_inputs(TickInput { attack: true, moving: true, ..quiet(true) });
    assert_eq!(plan.begin_attack, None);
    assert_eq!(plan.planar, PlanarMotion::Halt);
    assert_eq!(p.current_state, LocomotionState::GroundAttacking);
}

#[test]
fn attack_overrides_dash() {
    let mut p = standard();
    let plan = p.process_inputs(TickInput { dash: true, attack: true, ..quiet(true) });
    assert_eq!(p.current_state, LocomotionState::GroundAttacking);
    assert_eq!(plan.planar, PlanarMotion::Halt);
    assert_eq!(plan.dash_timer, Some(DashKind::Ground));
    assert_eq!(p.dash_available, 4);
}

#[test]
fn animations_follow_state() {
    let mut p = standard();
    assert_eq!(p.animations(), Animation { clip: AnimationClip::Float, speed_scale: 1 });
    p.modify_state(LocomotionState::Moving);
    assert_eq!(p.animations(), Animation { clip: AnimationClip::Float, speed_scale: 2 });
    p.modify_state(LocomotionState::Jumping);
    assert_eq!(p.animations(), Animation { clip: AnimationClip::Jump, speed_scale: 1 });
    p.modify_state(LocomotionState::Falling);
    assert_eq!(p.animations(), Animation { clip: AnimationClip::Fall, speed_scale: 1 });
    p.modify_state(LocomotionState::GroundDashing);
    assert_eq!(p.animations(), Animation { clip: AnimationClip::Dash, speed_scale: 1 });
    p.modify_state_bypass_dash(LocomotionState::AirDashing);
    assert_eq!(p.animations(), Animation { clip: AnimationClip::AirDash, speed_scale: 4 });
    p.end_attack(true);
    p.end_attack(true);
    p.modify_state_bypass_dash(LocomotionState::GroundAttacking);
    assert_eq!(p.animations(), Animation { clip: AnimationClip::GroundAttack(2), speed_scale: 1 });
    p.modify_state_bypass_dash(LocomotionState::AirAttacking);
    assert_eq!(p.animations(), Animation { clip: AnimationClip::AirAttack(0), speed_scale: 1 });
}

#[test]
fn hp_and_shield_change_by_amount() {
    let mut p = standard();
    p.modify_hp(-12);
    assert_eq!(p.current_hp, 38);
    p.modify_shield(-50);
    assert_eq!(p.current_shield, 0);
    p.modify_hp(4);
    assert_eq!(p.current_hp, 42);
}

fn agrees(s: LocomotionState, plan: &player_controller::player::TickPlan) -> bool {
    match s {
        LocomotionState::Idle => {
            plan.planar == PlanarMotion::Rest && plan.vertical == VerticalMotion::Keep
        }
        LocomotionState::Moving => {
            plan.planar == PlanarMotion::Walk && plan.vertical == VerticalMotion::Keep
        }
        LocomotionState::Jumping => {
            plan.vertical == VerticalMotion::Launch || plan.vertical == VerticalMotion::Rise
        }
        LocomotionState::Falling => plan.vertical == VerticalMotion::Fall,
        LocomotionState::GroundDashing => plan.planar == PlanarMotion::GroundDash,
        LocomotionState::AirDashing => plan.planar == PlanarMotion::AirDash,
        LocomotionState::GroundAttacking | LocomotionState::AirAttacking => {
            plan.planar == PlanarMotion::Halt
        }
    }
}

#[test]
fn every_input_combination_agrees_with_state() {
    let starts = [
        LocomotionState::Idle,
        LocomotionState::Moving,
        LocomotionState::Jumping,
        LocomotionState::Falling,
        LocomotionState::GroundDashing,
        LocomotionState::AirDashing,
        LocomotionState::GroundAttacking,
        LocomotionState::AirAttacking,
    ];
    for start in starts {
        for bits in 0u32..128 {
            let bit = |i: u32| bits & (1 << i) != 0;
            let input = TickInput {
                moving: bit(0),
                jump: bit(1),
                dash: bit(2),
                attack: bit(3),
                on_floor: bit(4),
                rising: bit(5),
                recharge_stopped: bit(6),
            };
            let mut p = standard();
            p.dash_available = 2;
            p.modify_state_bypass_dash(start);
            let plan = p.process_inputs(input);
            assert!(agrees(p.current_state, &plan));
            assert!(p.dash_available >= 0 && p.dash_available <= p.max_dash_amount);
        }
    }
}

#[test]
fn ground_combo_with_last_index_three_cycles_through_four_hits() {
    let config = PlayerConfig { num_basic_ground_attacks: 4, ..PlayerConfig::standard() };
    let mut p = Player::new(config);
    assert_eq!(p.num_basic_ground_attacks, 3);
    let mut seen = Vec::new();
    for _ in 0..6 {
        p.end_attack(true);
        seen.push(p.current_basic_ground_attack);
    }
    assert_eq!(seen, vec![1, 2, 3, 0, 1, 2]);
}
