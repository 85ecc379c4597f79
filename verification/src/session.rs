use vstd::prelude::*;

use crate::combat::{
    CombatData, CombatModel, CombatTurn, GAP_MAX_Y, GAP_MIN_Y, MAX_HEALTH, SHAKE_DECAY,
};
use crate::enemy::spec_enemy_frame;
use crate::fight::spec_fighting_step;
use crate::input::{FrameRand, InputSnapshot};
use crate::lines::{taunt_line, taunt_line_spec};
use crate::menu::spec_menu_step;
use crate::rng::{pick_bool, pick_i32, pick_usize};

verus! {

/// One frame of the Acting or Mercy turn: both freeze until confirm. A
/// confirm in Mercy requests the combat exit (the returned flag); a confirm
/// in Acting starts the enemy turn with a fresh taunt.
pub open spec fn spec_acting_mercy_step(
    m: CombatModel,
    inp: InputSnapshot,
    taunt_index: int,
) -> (CombatModel, bool) {
    if inp.confirm {
        if m.turn == CombatTurn::Mercy {
            (m, true)
        } else {
            (
                CombatModel {
                    turn: CombatTurn::SansTurn,
                    timer: 0,
                    dialogue_text: taunt_line_spec(taunt_index),
                    ..m
                },
                false,
            )
        }
    } else {
        (m, false)
    }
}

impl CombatData {
    /// Advance one frame of the Acting or Mercy turn. The returned flag asks
    /// the host to leave combat (spare confirmed); the host then switches
    /// scenes and repositions the player away from the encounter trigger.
    pub fn acting_mercy_step(&mut self, input: &InputSnapshot, taunt_index: usize) -> (exit: bool)
        requires
            old(self).wf(),
            old(self).turn == CombatTurn::Acting || old(self).turn == CombatTurn::Mercy,
            taunt_index < 10,
        ensures
            final(self)@ == spec_acting_mercy_step(old(self)@, *input, taunt_index as int).0,
            exit == spec_acting_mercy_step(old(self)@, *input, taunt_index as int).1,
            final(self).wf(),
    {
        let mut exit: bool = false;
        if input.confirm {
            if self.turn == CombatTurn::Mercy {
                exit = true;
            } else {
                self.turn = CombatTurn::SansTurn;
                self.timer = 0;
                self.dialogue_text = taunt_line(taunt_index);
            }
        }
        proof {
            assert(self@ =~= spec_acting_mercy_step(old(self)@, *input, taunt_index as int).0);
        }
        exit
    }
}

/// One whole frame of the combat session: dispatch on the current turn,
/// then apply the cosmetic shake decay. Returns the next state, the next
/// health value, and whether the host should leave combat.
pub open spec fn spec_update(
    m: CombatModel,
    inp: InputSnapshot,
    health: int,
    r: FrameRand,
) -> (CombatModel, int, bool) {
    let stepped: (CombatModel, int, bool) = match m.turn {
        CombatTurn::Menu => {
            let s: (CombatModel, int) = spec_menu_step(m, inp, health, r.act_index as int);
            (s.0, s.1, false)
        },
        CombatTurn::Fighting => (spec_fighting_step(m, inp, r.taunt_index as int), health, false),
        CombatTurn::Acting => {
            let s: (CombatModel, bool) = spec_acting_mercy_step(m, inp, r.taunt_index as int);
            (s.0, health, s.1)
        },
        CombatTurn::Mercy => {
            let s: (CombatModel, bool) = spec_acting_mercy_step(m, inp, r.taunt_index as int);
            (s.0, health, s.1)
        },
        CombatTurn::SansTurn => {
            let s: (CombatModel, int) = spec_enemy_frame(m, inp, health, r.blue_mode,
                r.pattern as int, r.gap_y as int);
            (s.0, s.1, false)
        },
    };
    let decayed: CombatModel = if stepped.0.sans_shake > 0 {
        CombatModel { sans_shake: stepped.0.sans_shake - SHAKE_DECAY, ..stepped.0 }
    } else {
        stepped.0
    };
    (decayed, stepped.1, stepped.2)
}

/// Advance the combat session by one frame with the frame's random draws
/// supplied by the caller, so a host or a test can fix them. `health` is the
/// externally owned player health, kept within `[0, MAX_HEALTH]`.
pub fn update_with(
    data: &mut CombatData,
    input: &InputSnapshot,
    health: &mut u32,
    r: &FrameRand,
) -> (exit: bool)
    requires
        old(data).wf(),
        *old(health) <= MAX_HEALTH,
        r.wf(),
    ensures
        final(data)@ == spec_update(old(data)@, *input, *old(health) as int, *r).0,
        *final(health) as int == spec_update(old(data)@, *input, *old(health) as int, *r).1,
        exit == spec_update(old(data)@, *input, *old(health) as int, *r).2,
        final(data).wf(),
        *final(health) <= MAX_HEALTH,
{
    let mut exit: bool = false;
    match data.turn {
        CombatTurn::Menu => {
            data.menu_step(input, health, r.act_index);
        },
        CombatTurn::Fighting => {
            data.fighting_step(input, r.taunt_index);
        },
        CombatTurn::Acting => {
            exit = data.acting_mercy_step(input, r.taunt_index);
        },
        CombatTurn::Mercy => {
            exit = data.acting_mercy_step(input, r.taunt_index);
        },
        CombatTurn::SansTurn => {
            data.enemy_turn_step(input, health, r.blue_mode, r.pattern, r.gap_y);
        },
    }
    if data.sans_shake > 0 {
        data.sans_shake = data.sans_shake - SHAKE_DECAY;
    }
    proof {
        assert(data@ =~= spec_update(old(data)@, *input, *old(health) as int, *r).0);
    }
    exit
}

/// Advance the combat session by one frame, drawing this frame's random
/// choices. Whatever the draws, the session invariant and the health bounds
/// are kept, and the new state is `spec_update` of the old one for some
/// well-formed draw.
pub fn update(data: &mut CombatData, input: &InputSnapshot, health: &mut u32) -> (exit: bool)
    requires
        old(data).wf(),
        *old(health) <= MAX_HEALTH,
    ensures
        final(data).wf(),
        *final(health) <= MAX_HEALTH,
        exists|r: FrameRand|
            #![auto]
            r.wf() && final(data)@ == spec_update(old(data)@, *input, *old(health) as int, r).0
                && *final(health) as int == spec_update(old(data)@, *input,
                *old(health) as int, r).1 && exit == spec_update(old(data)@, *input,
                *old(health) as int, r).2,
{
    let r: FrameRand = FrameRand {
        blue_mode: pick_bool(),
        act_index: pick_usize(5),
        taunt_index: pick_usize(10),
        pattern: pick_usize(3),
        gap_y: pick_i32(GAP_MIN_Y, GAP_MAX_Y),
    };
    let exit: bool = update_with(data, input, health, &r);
    proof {
        assert(r.wf() && data@ == spec_update(old(data)@, *input, *old(health) as int, r).0
            && *health as int == spec_update(old(data)@, *input, *old(health) as int, r).1
            && exit == spec_update(old(data)@, *input, *old(health) as int, r).2);
    }
    exit
}

} // verus!
