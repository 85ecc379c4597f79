use vstd::prelude::*;

use crate::combat::{BAR_START, CombatData, CombatModel, CombatTurn, HEAL_AMOUNT, MAX_HEALTH};
use crate::input::InputSnapshot;
use crate::lines::{act_line, act_line_spec};

verus! {

/// Menu selection after one frame of navigation input: left, then right,
/// each clamped silently at the ends.
pub open spec fn spec_navigate(sel: int, inp: InputSnapshot) -> int {
    let l: int = if inp.left_pressed && sel > 0 {
        sel - 1
    } else {
        sel
    };
    if inp.right_pressed && l < 3 {
        l + 1
    } else {
        l
    }
}

/// One frame of the Menu turn: move the selection, then on confirm dispatch
/// to the selected action. Fight arms the attack bar; Act shows a flavor
/// line; Item heals the external health value, clamped to the cap; Mercy
/// asks for the spare confirmation. Returns the next state and health.
pub open spec fn spec_menu_step(
    m: CombatModel,
    inp: InputSnapshot,
    health: int,
    act_index: int,
) -> (CombatModel, int) {
    let sel: int = spec_navigate(m.menu_selection, inp);
    if inp.confirm {
        if sel == 0 {
            (
                CombatModel {
                    menu_selection: sel,
                    turn: CombatTurn::Fighting,
                    timer: 0,
                    attack_bar_active: true,
                    attack_bar_pos: BAR_START as int,
                    action_text: Seq::<char>::empty(),
                    ..m
                },
                health,
            )
        } else if sel == 1 {
            (
                CombatModel {
                    menu_selection: sel,
                    turn: CombatTurn::Acting,
                    action_text: act_line_spec(act_index),
                    ..m
                },
                health,
            )
        } else if sel == 2 {
            (
                CombatModel {
                    menu_selection: sel,
                    turn: CombatTurn::Acting,
                    action_text: "You ate the Legendary Hero.\nYou recovered 40 HP!"@,
                    ..m
                },
                if health + HEAL_AMOUNT > MAX_HEALTH {
                    MAX_HEALTH as int
                } else {
                    health + HEAL_AMOUNT
                },
            )
        } else {
            (
                CombatModel {
                    menu_selection: sel,
                    turn: CombatTurn::Mercy,
                    action_text: "You spared Sans."@,
                    ..m
                },
                health,
            )
        }
    } else {
        (CombatModel { menu_selection: sel, ..m }, health)
    }
}

impl CombatData {
    /// Advance one frame of the Menu turn. `health` is the externally owned
    /// player health this subsystem may heal (Item) or damage (enemy turn).
    pub fn menu_step(&mut self, input: &InputSnapshot, health: &mut u32, act_index: usize)
        requires
            old(self).wf(),
            old(self).turn == CombatTurn::Menu,
            *old(health) <= MAX_HEALTH,
            act_index < 5,
        ensures
            final(self)@ == spec_menu_step(old(self)@, *input, *old(health) as int,
                act_index as int).0,
            *final(health) as int == spec_menu_step(old(self)@, *input, *old(health) as int,
                act_index as int).1,
            final(self).wf(),
            *final(health) <= MAX_HEALTH,
    {
        if input.left_pressed && self.menu_selection > 0 {
            self.menu_selection = self.menu_selection - 1;
        }
        if input.right_pressed && self.menu_selection < 3 {
            self.menu_selection = self.menu_selection + 1;
        }
        if input.confirm {
            if self.menu_selection == 0 {
                self.turn = CombatTurn::Fighting;
                self.timer = 0;
                self.attack_bar_active = true;
                self.attack_bar_pos = BAR_START;
                self.action_text = String::new();
            } else if self.menu_selection == 1 {
                self.turn = CombatTurn::Acting;
                self.action_text = act_line(act_index);
            } else if self.menu_selection == 2 {
                self.turn = CombatTurn::Acting;
                self.action_text = "You ate the Legendary Hero.\nYou recovered 40 HP!".to_owned();
                let healed: u32 = *health + HEAL_AMOUNT;
                *health = if healed > MAX_HEALTH {
                    MAX_HEALTH
                } else {
                    healed
                };
            } else {
                self.turn = CombatTurn::Mercy;
                self.action_text = "You spared Sans.".to_owned();
            }
        }
        proof {
            assert(self@ =~= spec_menu_step(old(self)@, *input, *old(health) as int,
                act_index as int).0);
        }
    }
}

} // verus!
