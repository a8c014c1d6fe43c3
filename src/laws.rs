use vstd::prelude::*;

use crate::combo::{combo_after, lemma_combo_wraps};
use crate::player::{consistent, PlanarMotion, Player, TickInput};
use crate::state::LocomotionState;

verus! {

/// Every tick leaves a well-formed player whose state agrees with the plan
/// of velocity that the tick produced.
pub proof fn lemma_tick_consistent(p: Player, input: TickInput)
    requires
        p.wf(),
    ensures
        p.tick(input).0.wf(),
        consistent(p.tick(input).0.current_state, p.tick(input).1),
{
}

/// While the state is dashing or attacking, the guarded setter leaves the
/// player as it is, whatever state it is asked for; the bypass setter
/// always installs the state asked for.
pub proof fn lemma_lock_holds(p: Player, s: LocomotionState)
    ensures
        p.current_state.locked() ==> p.with_state(p.guarded(s)) == p,
        p.with_state(s).current_state == s,
{
}

/// Pressing dash `n` times in a row with no time passing uses one charge
/// per press until none are left; from then on a press starts no dash and
/// the charges stay at 0.
pub proof fn lemma_dashes_exhaust_charges(
    p: Player,
    on_floor: bool,
    n: nat,
    planar: PlanarMotion,
    recharge_stopped: bool,
)
    requires
        p.wf(),
    ensures
        p.dashes_pressed(on_floor, n).wf(),
        p.dashes_pressed(on_floor, n).max_dash_amount == p.max_dash_amount,
        p.dashes_pressed(on_floor, n).dash_available == if n <= p.dash_available {
            p.dash_available - n
        } else {
            0
        },
        n >= p.dash_available ==> {
            let (q, d) = p.dashes_pressed(on_floor, n).dash_step(
                planar,
                true,
                on_floor,
                recharge_stopped,
            );
            &&& d.dash_timer is None
            &&& q.dash_available == 0
        },
    decreases n,
{
    if n > 0 {
        lemma_dashes_exhaust_charges(p, on_floor, (n - 1) as nat, planar, recharge_stopped);
    }
}

/// Recharge events add one charge each until the maximum is reached; any
/// further events, received while full, leave the charges at the maximum.
pub proof fn lemma_recharges_saturate(p: Player, k: nat)
    requires
        p.wf(),
    ensures
        p.recharges(k).wf(),
        p.recharges(k).max_dash_amount == p.max_dash_amount,
        p.recharges(k).dash_available == if p.dash_available + k <= p.max_dash_amount {
            p.dash_available + k
        } else {
            p.max_dash_amount as int
        },
    decreases k,
{
    if k > 0 {
        lemma_recharges_saturate(p, (k - 1) as nat);
    }
}

/// The combo index of the track that `on_floor` selects.
pub open spec fn combo_index(p: Player, on_floor: bool) -> int {
    if on_floor {
        p.current_basic_ground_attack as int
    } else {
        p.current_basic_air_attack as int
    }
}

/// The last combo index of the track that `on_floor` selects.
pub open spec fn last_combo_index(p: Player, on_floor: bool) -> int {
    if on_floor {
        p.num_basic_ground_attacks as int
    } else {
        p.num_basic_air_attacks as int
    }
}

/// When a track's chain window expires, that track's combo index is back at
/// the first hit whatever it was, and the other track's index is untouched.
pub proof fn lemma_chain_end_resets(p: Player, ground: bool)
    requires
        p.wf(),
    ensures
        p.chain_ended(ground).wf(),
        combo_index(p.chain_ended(ground), ground) == 0,
        combo_index(p.chain_ended(ground), !ground) == combo_index(p, !ground),
        p.chain_ended(ground).current_state == p.current_state,
{
}

/// Ending attacks of one track again and again, from its first hit, cycles
/// its combo index 0, 1, ..., last, 0, 1, ...: after `k` endings it is `k`
/// modulo one more than the last index.
pub proof fn lemma_combo_cycles(p: Player, on_floor: bool, k: nat)
    requires
        p.wf(),
        combo_index(p, on_floor) == 0,
    ensures
        p.attacks_ended(on_floor, k).wf(),
        last_combo_index(p.attacks_ended(on_floor, k), on_floor) == last_combo_index(p, on_floor),
        combo_index(p.attacks_ended(on_floor, k), on_floor) == (k as int) % (last_combo_index(
            p,
            on_floor,
        ) + 1),
{
    lemma_attacks_ended_follow_combo(p, on_floor, k);
    lemma_combo_wraps(last_combo_index(p, on_floor), k);
}

proof fn lemma_attacks_ended_follow_combo(p: Player, on_floor: bool, k: nat)
    requires
        p.wf(),
        combo_index(p, on_floor) == 0,
    ensures
        p.attacks_ended(on_floor, k).wf(),
        last_combo_index(p.attacks_ended(on_floor, k), on_floor) == last_combo_index(p, on_floor),
        combo_index(p.attacks_ended(on_floor, k), on_floor) == combo_after(
            last_combo_index(p, on_floor),
            k,
        ),
    decreases k,
{
    if k > 0 {
        lemma_attacks_ended_follow_combo(p, on_floor, (k - 1) as nat);
    }
}

} // verus!
