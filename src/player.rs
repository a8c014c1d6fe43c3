use vstd::prelude::*;

use crate::combo::next_combo;
use crate::state::LocomotionState;

verus! {

/// How the planar (x, z) part of the velocity is produced on a tick.
#[derive(Clone, Copy, Debug, PartialEq, Eq, Structural)]
pub enum PlanarMotion {
    /// The input axes summed to (about) zero: they are passed on unscaled.
    Rest,
    /// The input axes, normalised and scaled by the move speed.
    Walk,
    /// The last facing direction, normalised and scaled by the ground dash speed.
    GroundDash,
    /// The last facing direction, normalised and scaled by the air dash speed.
    AirDash,
    /// Zero: attacks hold the character in place.
    Halt,
}

/// How the vertical part of the velocity is produced on a tick.
#[derive(Clone, Copy, Debug, PartialEq, Eq, Structural)]
pub enum VerticalMotion {
    /// The body's current vertical speed is kept.
    Keep,
    /// The vertical speed becomes the jump velocity.
    Launch,
    /// The body is rising: the jump gravity is applied for the tick.
    Rise,
    /// The body is not rising: the fall gravity is applied for the tick.
    Fall,
}

/// Which dash-duration timer to start.
#[derive(Clone, Copy, Debug, PartialEq, Eq, Structural)]
pub enum DashKind {
    Ground,
    Air,
}

/// An attack slot to begin: its track and its combo index.
#[derive(Clone, Copy, Debug, PartialEq, Eq, Structural)]
pub struct AttackSlot {
    pub ground: bool,
    pub index: i8,
}

/// What the dash stage decides.
#[derive(Clone, Copy, Debug, PartialEq, Eq, Structural)]
pub struct DashOutcome {
    pub planar: PlanarMotion,
    /// The dash-duration timer to start, where a dash began.
    pub dash_timer: Option<DashKind>,
    /// Whether the recharge timer must be started.
    pub start_recharge: bool,
}

/// What the combat stage decides.
#[derive(Clone, Copy, Debug, PartialEq, Eq, Structural)]
pub struct AttackOutcome {
    pub planar: PlanarMotion,
    /// The attack slot to begin, where an attack began.
    pub begin: Option<AttackSlot>,
}

/// One tick's input sample, with what the host reads from the body and its
/// timers before the tick.
#[derive(Clone, Copy, Debug, PartialEq, Eq, Structural)]
pub struct TickInput {
    /// Whether the input axes sum to a planar vector that is not about zero.
    pub moving: bool,
    pub jump: bool,
    pub dash: bool,
    pub attack: bool,
    pub on_floor: bool,
    /// Whether the body's vertical speed is positive.
    pub rising: bool,
    /// Whether the dash recharge timer is stopped.
    pub recharge_stopped: bool,
}

/// Everything a tick decides: how to build the velocity and which timers
/// and attack slots to start.
#[derive(Clone, Copy, Debug, PartialEq, Eq, Structural)]
pub struct TickPlan {
    pub planar: PlanarMotion,
    pub vertical: VerticalMotion,
    pub dash_timer: Option<DashKind>,
    pub start_recharge: bool,
    pub begin_attack: Option<AttackSlot>,
}

/// The animation clip that a state plays.
#[derive(Clone, Copy, Debug, PartialEq, Eq, Structural)]
pub enum AnimationClip {
    Float,
    Jump,
    Dash,
    Fall,
    AirDash,
    /// The ground combo's clip for the given combo index.
    GroundAttack(i8),
    /// The air combo's clip for the given combo index.
    AirAttack(i8),
}

/// A clip and the speed at which it plays.
#[derive(Clone, Copy, Debug, PartialEq, Eq, Structural)]
pub struct Animation {
    pub clip: AnimationClip,
    pub speed_scale: u8,
}

/// The designer-tunable counts of a player.
#[derive(Clone, Copy, Debug, PartialEq, Eq, Structural)]
pub struct PlayerConfig {
    pub max_dash_amount: i8,
    pub max_hp: i16,
    pub max_shield: i16,
    /// The number of attacks in the ground combo.
    pub num_basic_ground_attacks: i8,
    /// The number of attacks in the air combo.
    pub num_basic_air_attacks: i8,
}

impl PlayerConfig {
    /// Five dash charges, 50 HP and shield, three ground attacks and two
    /// air attacks.
    pub fn standard() -> (r: PlayerConfig)
        ensures
            r.max_dash_amount == 5,
            r.max_hp == 50,
            r.max_shield == 50,
            r.num_basic_ground_attacks == 3,
            r.num_basic_air_attacks == 2,
    {
        PlayerConfig {
            max_dash_amount: 5,
            max_hp: 50,
            max_shield: 50,
            num_basic_ground_attacks: 3,
            num_basic_air_attacks: 2,
        }
    }

    pub open spec fn valid(self) -> bool {
        &&& self.max_dash_amount >= 0
        &&& self.num_basic_ground_attacks >= 1
        &&& self.num_basic_air_attacks >= 1
    }
}

/// The player's locomotion and combat state: its discrete state, dash
/// charges and combo indices.
#[derive(Clone, Copy, Debug, PartialEq, Eq, Structural)]
pub struct Player {
    pub current_state: LocomotionState,
    pub max_dash_amount: i8,
    pub dash_available: i8,
    pub max_hp: i16,
    pub current_hp: i16,
    pub max_shield: i16,
    pub current_shield: i16,
    /// The last combo index of the ground track: one less than its number
    /// of attacks.
    pub num_basic_ground_attacks: i8,
    pub current_basic_ground_attack: i8,
    /// The last combo index of the air track: one less than its number of
    /// attacks.
    pub num_basic_air_attacks: i8,
    pub current_basic_air_attack: i8,
}

/// Whether a tick's plan agrees with the state that the tick left.
pub open spec fn consistent(s: LocomotionState, plan: TickPlan) -> bool {
    match s {
        LocomotionState::Idle => plan.planar == PlanarMotion::Rest && plan.vertical
            == VerticalMotion::Keep,
        LocomotionState::Moving => plan.planar == PlanarMotion::Walk && plan.vertical
            == VerticalMotion::Keep,
        LocomotionState::Jumping => plan.vertical == VerticalMotion::Launch || plan.vertical
            == VerticalMotion::Rise,
        LocomotionState::Falling => plan.vertical == VerticalMotion::Fall,
        LocomotionState::GroundDashing => plan.planar == PlanarMotion::GroundDash,
        LocomotionState::AirDashing => plan.planar == PlanarMotion::AirDash,
        LocomotionState::GroundAttacking | LocomotionState::AirAttacking => plan.planar
            == PlanarMotion::Halt,
    }
}

impl Player {
    /// Charges lie in `[0, max_dash_amount]` and each combo index in
    /// `[0, last index of its track]`.
    pub open spec fn wf(self) -> bool {
        &&& 0 <= self.dash_available <= self.max_dash_amount
        &&& 0 <= self.current_basic_ground_attack <= self.num_basic_ground_attacks
        &&& 0 <= self.current_basic_air_attack <= self.num_basic_air_attacks
    }

    /// The player with its state replaced.
    pub open spec fn with_state(self, s: LocomotionState) -> Player {
        Player { current_state: s, ..self }
    }

    /// The state after the guarded setter is asked for `s`.
    pub open spec fn guarded(self, s: LocomotionState) -> LocomotionState {
        if self.current_state.locked() {
            self.current_state
        } else {
            s
        }
    }

    /// The movement stage: the guarded setter is asked for Moving where the
    /// input is not about zero, and for Idle where it is.
    pub open spec fn movement_step(self, moving: bool) -> (Player, PlanarMotion) {
        if moving {
            (self.with_state(self.guarded(LocomotionState::Moving)), PlanarMotion::Walk)
        } else {
            (self.with_state(self.guarded(LocomotionState::Idle)), PlanarMotion::Rest)
        }
    }

    /// The vertical stage: a jump pressed on the floor launches and forces
    /// Jumping; in the air the guarded setter is asked for Jumping while
    /// rising and for Falling otherwise; on the floor without a jump nothing
    /// changes.
    pub open spec fn jump_step(self, jump: bool, on_floor: bool, rising: bool) -> (
        Player,
        VerticalMotion,
    ) {
        if jump && on_floor {
            (self.with_state(LocomotionState::Jumping), VerticalMotion::Launch)
        } else if !on_floor {
            if rising {
                (self.with_state(self.guarded(LocomotionState::Jumping)), VerticalMotion::Rise)
            } else {
                (self.with_state(self.guarded(LocomotionState::Falling)), VerticalMotion::Fall)
            }
        } else {
            (self, VerticalMotion::Keep)
        }
    }

    /// The player after a dash starts: one charge fewer and the dashing
    /// state of the ground or the air forced.
    pub open spec fn dash_started(self, on_floor: bool) -> Player {
        Player {
            dash_available: (self.dash_available - 1) as i8,
            current_state: if on_floor {
                LocomotionState::GroundDashing
            } else {
                LocomotionState::AirDashing
            },
            ..self
        }
    }

    /// The planar motion in a dashing state, else `planar` unchanged.
    pub open spec fn dash_override(self, planar: PlanarMotion) -> PlanarMotion {
        match self.current_state {
            LocomotionState::GroundDashing => PlanarMotion::GroundDash,
            LocomotionState::AirDashing => PlanarMotion::AirDash,
            _ => planar,
        }
    }

    /// The dash stage: a press with a charge left starts a dash; a dashing
    /// state overrides the planar motion; the recharge timer is started
    /// whenever charges are missing and it is stopped.
    pub open spec fn dash_step(
        self,
        planar: PlanarMotion,
        dash: bool,
        on_floor: bool,
        recharge_stopped: bool,
    ) -> (Player, DashOutcome) {
        let started = dash && self.dash_available > 0;
        let p = if started {
            self.dash_started(on_floor)
        } else {
            self
        };
        let timer = if !started {
            None
        } else if on_floor {
            Some(DashKind::Ground)
        } else {
            Some(DashKind::Air)
        };
        (
            p,
            DashOutcome {
                planar: p.dash_override(planar),
                dash_timer: timer,
                start_recharge: p.dash_available < p.max_dash_amount && recharge_stopped,
            },
        )
    }

    /// The combat stage: a press outside an attacking state forces the
    /// attacking state of the ground or the air and begins the slot at that
    /// track's combo index; an attacking state halts the planar motion.
    pub open spec fn attack_step(self, attack: bool, on_floor: bool, planar: PlanarMotion) -> (
        Player,
        AttackOutcome,
    ) {
        let started = attack && !self.current_state.attacking();
        let p = if !started {
            self
        } else if on_floor {
            self.with_state(LocomotionState::GroundAttacking)
        } else {
            self.with_state(LocomotionState::AirAttacking)
        };
        let begin = if !started {
            None
        } else if on_floor {
            Some(AttackSlot { ground: true, index: self.current_basic_ground_attack })
        } else {
            Some(AttackSlot { ground: false, index: self.current_basic_air_attack })
        };
        (
            p,
            AttackOutcome {
                planar: if p.current_state.attacking() {
                    PlanarMotion::Halt
                } else {
                    planar
                },
                begin,
            },
        )
    }

    /// One tick: movement, vertical motion, dash and combat, in that order,
    /// each stage reading the state that the one before left.
    pub open spec fn tick(self, input: TickInput) -> (Player, TickPlan) {
        let (p1, planar1) = self.movement_step(input.moving);
        let (p2, vertical) = p1.jump_step(input.jump, input.on_floor, input.rising);
        let (p3, d) = p2.dash_step(planar1, input.dash, input.on_floor, input.recharge_stopped);
        let (p4, a) = p3.attack_step(input.attack, input.on_floor, d.planar);
        (
            p4,
            TickPlan {
                planar: a.planar,
                vertical,
                dash_timer: d.dash_timer,
                start_recharge: d.start_recharge,
                begin_attack: a.begin,
            },
        )
    }

    /// The player after an "attack ended" event.
    pub open spec fn attack_ended(self, on_floor: bool) -> Player {
        if on_floor {
            Player {
                current_state: LocomotionState::Idle,
                current_basic_ground_attack: next_combo(
                    self.current_basic_ground_attack as int,
                    self.num_basic_ground_attacks as int,
                ) as i8,
                ..self
            }
        } else {
            Player {
                current_state: LocomotionState::Falling,
                current_basic_air_attack: next_combo(
                    self.current_basic_air_attack as int,
                    self.num_basic_air_attacks as int,
                ) as i8,
                ..self
            }
        }
    }

    /// The player after a "chain ended" event of the ground track
    /// (`ground`) or of the air track.
    pub open spec fn chain_ended(self, ground: bool) -> Player {
        if ground {
            Player { current_basic_ground_attack: 0, ..self }
        } else {
            Player { current_basic_air_attack: 0, ..self }
        }
    }

    /// The player after `k` "attack ended" events in a row.
    pub open spec fn attacks_ended(self, on_floor: bool, k: nat) -> Player
        decreases k,
    {
        if k == 0 {
            self
        } else {
            self.attacks_ended(on_floor, (k - 1) as nat).attack_ended(on_floor)
        }
    }

    /// The player after a recharge event: one more charge, unless full.
    pub open spec fn recharged(self) -> Player {
        if self.dash_available < self.max_dash_amount {
            Player { dash_available: (self.dash_available + 1) as i8, ..self }
        } else {
            self
        }
    }

    /// The player after `k` recharge events in a row.
    pub open spec fn recharges(self, k: nat) -> Player
        decreases k,
    {
        if k == 0 {
            self
        } else {
            self.recharges((k - 1) as nat).recharged()
        }
    }

    /// The player after `n` dash presses in a row with no time passing.
    pub open spec fn dashes_pressed(self, on_floor: bool, n: nat) -> Player
        decreases n,
    {
        if n == 0 {
            self
        } else {
            self.dashes_pressed(on_floor, (n - 1) as nat).dash_step(
                PlanarMotion::Rest,
                true,
                on_floor,
                false,
            ).0
        }
    }

    /// The animation of the current state: Idle floats at speed 1 and
    /// Moving at speed 2; the air dash plays at speed 4; an attack plays the
    /// clip of its track's combo index; every other clip plays at speed 1.
    pub open spec fn animation_of(self) -> Animation {
        match self.current_state {
            LocomotionState::Idle => Animation { clip: AnimationClip::Float, speed_scale: 1 },
            LocomotionState::Moving => Animation { clip: AnimationClip::Float, speed_scale: 2 },
            LocomotionState::Jumping => Animation { clip: AnimationClip::Jump, speed_scale: 1 },
            LocomotionState::Falling => Animation { clip: AnimationClip::Fall, speed_scale: 1 },
            LocomotionState::GroundDashing => Animation {
                clip: AnimationClip::Dash,
                speed_scale: 1,
            },
            LocomotionState::AirDashing => Animation {
                clip: AnimationClip::AirDash,
                speed_scale: 4,
            },
            LocomotionState::GroundAttacking => Animation {
                clip: AnimationClip::GroundAttack(self.current_basic_ground_attack),
                speed_scale: 1,
            },
            LocomotionState::AirAttacking => Animation {
                clip: AnimationClip::AirAttack(self.current_basic_air_attack),
                speed_scale: 1,
            },
        }
    }

    /// A player at rest: full charges, HP and shield, both combos at their
    /// first hit. Each track's last combo index is one less than its
    /// configured number of attacks.
    pub fn new(config: PlayerConfig) -> (r: Player)
        requires
            config.valid(),
        ensures
            r.wf(),
            r.current_state == LocomotionState::Idle,
            r.max_dash_amount == config.max_dash_amount,
            r.dash_available == config.max_dash_amount,
            r.max_hp == config.max_hp,
            r.current_hp == config.max_hp,
            r.max_shield == config.max_shield,
            r.current_shield == config.max_shield,
            r.num_basic_ground_attacks == config.num_basic_ground_attacks - 1,
            r.current_basic_ground_attack == 0,
            r.num_basic_air_attacks == config.num_basic_air_attacks - 1,
            r.current_basic_air_attack == 0,
    {
        Player {
            current_state: LocomotionState::Idle,
            max_dash_amount: config.max_dash_amount,
            dash_available: config.max_dash_amount,
            max_hp: config.max_hp,
            current_hp: config.max_hp,
            max_shield: config.max_shield,
            current_shield: config.max_shield,
            num_basic_ground_attacks: config.num_basic_ground_attacks - 1,
            current_basic_ground_attack: 0,
            num_basic_air_attacks: config.num_basic_air_attacks - 1,
            current_basic_air_attack: 0,
        }
    }

    /// A recharge event: one charge comes back, never more than the maximum.
    pub fn increase_dash_counter(&mut self)
        requires
            old(self).wf(),
        ensures
            final(self).wf(),
            *final(self) == old(self).recharged(),
    {
        if self.dash_available < self.max_dash_amount {
            self.dash_available = self.dash_available + 1;
        }
    }

    /// A dash-duration timer has expired: the state is forced to Idle on the
    /// floor and to Falling in the air.
    pub fn disable_dash_state(&mut self, on_floor: bool)
        ensures
            *final(self) == old(self).with_state(
                if on_floor {
                    LocomotionState::Idle
                } else {
                    LocomotionState::Falling
                },
            ),
    {
        if on_floor {
            self.modify_state_bypass_dash(LocomotionState::Idle);
        } else {
            self.modify_state_bypass_dash(LocomotionState::Falling);
        }
    }

    /// The movement stage of a tick; `moving` tells whether the input axes
    /// sum to a planar vector that is not about zero.
    pub fn movement(&mut self, moving: bool) -> (r: PlanarMotion)
        ensures
            (*final(self), r) == old(self).movement_step(moving),
    {
        if moving {
            self.modify_state(LocomotionState::Moving);
            PlanarMotion::Walk
        } else {
            self.modify_state(LocomotionState::Idle);
            PlanarMotion::Rest
        }
    }

    /// The vertical stage of a tick; `rising` tells whether the body's
    /// vertical speed is positive.
    pub fn jump(&mut self, jump: bool, on_floor: bool, rising: bool) -> (r: VerticalMotion)
        ensures
            (*final(self), r) == old(self).jump_step(jump, on_floor, rising),
    {
        if jump && on_floor {
            self.modify_state_bypass_dash(LocomotionState::Jumping);
            VerticalMotion::Launch
        } else if !on_floor {
            if rising {
                self.modify_state(LocomotionState::Jumping);
                VerticalMotion::Rise
            } else {
                self.modify_state(LocomotionState::Falling);
                VerticalMotion::Fall
            }
        } else {
            VerticalMotion::Keep
        }
    }

    /// The dash stage of a tick.
    pub fn dash(&mut self, planar: PlanarMotion, dash: bool, on_floor: bool, recharge_stopped: bool) -> (r: DashOutcome)
        requires
            old(self).wf(),
        ensures
            (*final(self), r) == old(self).dash_step(planar, dash, on_floor, recharge_stopped),
            final(self).wf(),
            old(self).dash_available == 0 ==> r.dash_timer is None && final(self).dash_available == 0,
            r.start_recharge == (final(self).dash_available < final(self).max_dash_amount
                && recharge_stopped),
    {
        let mut timer: Option<DashKind> = None;
        if dash && self.dash_available > 0 {
            self.dash_available = self.dash_available - 1;
            if on_floor {
                self.modify_state_bypass_dash(LocomotionState::GroundDashing);
                timer = Some(DashKind::Ground);
            } else {
                self.modify_state_bypass_dash(LocomotionState::AirDashing);
                timer = Some(DashKind::Air);
            }
        }
        let out_planar = match self.current_state {
            LocomotionState::GroundDashing => PlanarMotion::GroundDash,
            LocomotionState::AirDashing => PlanarMotion::AirDash,
            _ => planar,
        };
        let start_recharge = self.dash_available < self.max_dash_amount && recharge_stopped;
        DashOutcome { planar: out_planar, dash_timer: timer, start_recharge }
    }

    /// The combat stage of a tick.
    pub fn basic_attack(&mut self, attack: bool, on_floor: bool, planar: PlanarMotion) -> (r: AttackOutcome)
        ensures
            (*final(self), r) == old(self).attack_step(attack, on_floor, planar),
    {
        let mut begin: Option<AttackSlot> = None;
        if attack && !self.current_state.is_attacking() {
            if on_floor {
                self.modify_state_bypass_dash(LocomotionState::GroundAttacking);
                begin = Some(AttackSlot { ground: true, index: self.current_basic_ground_attack });
            } else {
                self.modify_state_bypass_dash(LocomotionState::AirAttacking);
                begin = Some(AttackSlot { ground: false, index: self.current_basic_air_attack });
            }
        }
        let out_planar = if self.current_state.is_attacking() {
            PlanarMotion::Halt
        } else {
            planar
        };
        AttackOutcome { planar: out_planar, begin }
    }

    /// One tick of the pipeline. The state that the tick leaves agrees with
    /// the plan: Idle and Moving keep the vertical speed, with the input at
    /// rest or walking; Jumping launches or rises; Falling falls; a dashing
    /// state dashes and an attacking state halts.
    pub fn process_inputs(&mut self, input: TickInput) -> (r: TickPlan)
        requires
            old(self).wf(),
        ensures
            (*final(self), r) == old(self).tick(input),
            final(self).wf(),
            consistent(final(self).current_state, r),
            r.start_recharge == (final(self).dash_available < final(self).max_dash_amount
                && input.recharge_stopped),
    {
        let planar = self.movement(input.moving);
        let vertical = self.jump(input.jump, input.on_floor, input.rising);
        let d = self.dash(planar, input.dash, input.on_floor, input.recharge_stopped);
        let a = self.basic_attack(input.attack, input.on_floor, d.planar);
        TickPlan {
            planar: a.planar,
            vertical,
            dash_timer: d.dash_timer,
            start_recharge: d.start_recharge,
            begin_attack: a.begin,
        }
    }

    /// An "attack ended" event: the state is forced to Idle on the floor and
    /// to Falling in the air, and that track's combo index moves on,
    /// wrapping to 0 past its last index.
    pub fn end_attack(&mut self, on_floor: bool)
        requires
            old(self).wf(),
        ensures
            final(self).wf(),
            *final(self) == old(self).attack_ended(on_floor),
    {
        if on_floor {
            self.modify_state_bypass_dash(LocomotionState::Idle);
            if self.current_basic_ground_attack < self.num_basic_ground_attacks {
                self.current_basic_ground_attack = self.current_basic_ground_attack + 1;
            } else {
                self.current_basic_ground_attack = 0;
            }
        } else {
            self.modify_state_bypass_dash(LocomotionState::Falling);
            if self.current_basic_air_attack < self.num_basic_air_attacks {
                self.current_basic_air_attack = self.current_basic_air_attack + 1;
            } else {
                self.current_basic_air_attack = 0;
            }
        }
    }

    /// A "chain ended" event: the combo index of the track it names goes
    /// back to the first hit, whatever it was.
    pub fn end_chain(&mut self, ground_attack: bool)
        requires
            old(self).wf(),
        ensures
            final(self).wf(),
            *final(self) == old(self).chain_ended(ground_attack),
    {
        if ground_attack {
            self.current_basic_ground_attack = 0;
        } else {
            self.current_basic_air_attack = 0;
        }
    }

    /// Adds `change` to the HP.
    pub fn modify_hp(&mut self, change: i16)
        requires
            i16::MIN <= old(self).current_hp + change <= i16::MAX,
        ensures
            *final(self) == (Player {
                current_hp: (old(self).current_hp + change) as i16,
                ..*old(self)
            }),
    {
        self.current_hp = self.current_hp + change;
    }

    /// Adds `change` to the shield.
    pub fn modify_shield(&mut self, change: i16)
        requires
            i16::MIN <= old(self).current_shield + change <= i16::MAX,
        ensures
            *final(self) == (Player {
                current_shield: (old(self).current_shield + change) as i16,
                ..*old(self)
            }),
    {
        self.current_shield = self.current_shield + change;
    }

    /// Selects the animation from the current state.
    pub fn animations(&self) -> (r: Animation)
        ensures
            r == self.animation_of(),
    {
        match self.current_state {
            LocomotionState::Idle => Animation { clip: AnimationClip::Float, speed_scale: 1 },
            LocomotionState::Moving => Animation { clip: AnimationClip::Float, speed_scale: 2 },
            LocomotionState::Jumping => Animation { clip: AnimationClip::Jump, speed_scale: 1 },
            LocomotionState::Falling => Animation { clip: AnimationClip::Fall, speed_scale: 1 },
            LocomotionState::GroundDashing => Animation {
                clip: AnimationClip::Dash,
                speed_scale: 1,
            },
            LocomotionState::AirDashing => Animation {
                clip: AnimationClip::AirDash,
                speed_scale: 4,
            },
            LocomotionState::GroundAttacking => Animation {
                clip: AnimationClip::GroundAttack(self.current_basic_ground_attack),
                speed_scale: 1,
            },
            LocomotionState::AirAttacking => Animation {
                clip: AnimationClip::AirAttack(self.current_basic_air_attack),
                speed_scale: 1,
            },
        }
    }

    /// The guarded setter: a dashing or attacking state is kept, any other
    /// state is replaced by `state`.
    pub fn modify_state(&mut self, state: LocomotionState)
        ensures
            *final(self) == old(self).with_state(old(self).guarded(state)),
    {
        if !self.current_state.is_locked() {
            self.current_state = state;
        }
    }

    /// The bypass setter: the state becomes `state` whatever it was.
    pub fn modify_state_bypass_dash(&mut self, state: LocomotionState)
        ensures
            *final(self) == old(self).with_state(state),
    {
        self.current_state = state;
    }
}

} // verus!
