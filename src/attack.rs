use vstd::prelude::*;

verus! {

/// Where one attack slot stands in its timing cycle.
#[derive(Clone, Copy, Debug, PartialEq, Eq, Structural)]
pub enum AttackPhase {
    /// No window is open.
    Idle,
    /// The hit window is open: the hitbox is monitoring.
    Armed,
    /// The hit window has closed and the chain window is open.
    Chaining,
}

/// One attack slot of a combo track. The slot's hit window and chain
/// window are timed by the host; the slot only records which window is
/// open and which events their expiries produce.
#[derive(Clone, Copy, Debug, PartialEq, Eq, Structural)]
pub struct Attack {
    /// Whether the attack can be charged.
    pub chargeable: bool,
    /// Whether the slot belongs to the ground track (else to the air track).
    pub ground_attack: bool,
    /// The window that is open.
    pub phase: AttackPhase,
    /// Whether the hitbox is looking for targets.
    pub monitoring: bool,
}

impl Attack {
    /// A slot of the given track with no window open.
    pub fn new(ground_attack: bool, chargeable: bool) -> (r: Attack)
        ensures
            r.ground_attack == ground_attack,
            r.chargeable == chargeable,
            r.phase == AttackPhase::Idle,
            !r.monitoring,
    {
        Attack { chargeable, ground_attack, phase: AttackPhase::Idle, monitoring: false }
    }

    /// Opens the hit window: any pending chain window is cancelled and the
    /// hitbox starts monitoring.
    pub fn begin_attack(&mut self)
        ensures
            final(self).phase == AttackPhase::Armed,
            final(self).monitoring,
            final(self).ground_attack == old(self).ground_attack,
            final(self).chargeable == old(self).chargeable,
    {
        self.monitoring = true;
        self.phase = AttackPhase::Armed;
    }

    /// The hit window has expired: the hitbox stops monitoring and the chain
    /// window opens. The host then reports "attack ended" to the player.
    pub fn end_attack(&mut self)
        ensures
            final(self).phase == AttackPhase::Chaining,
            !final(self).monitoring,
            final(self).ground_attack == old(self).ground_attack,
            final(self).chargeable == old(self).chargeable,
    {
        self.monitoring = false;
        self.phase = AttackPhase::Chaining;
    }

    /// The chain window has expired: the slot is idle again, and the result
    /// is the payload of the "chain ended" event, true for the ground track.
    pub fn end_chain(&mut self) -> (ground: bool)
        ensures
            ground == old(self).ground_attack,
            final(self).phase == AttackPhase::Idle,
            final(self).monitoring == old(self).monitoring,
            final(self).ground_attack == old(self).ground_attack,
            final(self).chargeable == old(self).chargeable,
    {
        self.phase = AttackPhase::Idle;
        self.ground_attack
    }
}

} // verus!
