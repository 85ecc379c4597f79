use vstd::prelude::*;

use crate::combat::{BAR_CENTER, BAR_END, CombatData, CombatModel, CombatTurn, SHAKE_ON_HIT};
use crate::input::InputSnapshot;
use crate::lines::taunt_line_spec;
use crate::lines::taunt_line;
use vstd::string::StringExecFns;

verus! {

/// Distance from the attack bar's stopping position to the arena center.
pub open spec fn spec_distance(pos: int) -> int {
    if pos >= BAR_CENTER {
        pos - BAR_CENTER
    } else {
        BAR_CENTER - pos
    }
}

/// Damage dealt by stopping the attack bar at `pos`: full damage inside the
/// inner dead-zone, a linear falloff in the outer band, zero beyond. The
/// inner band spans 2.0 units of distance, the outer 10.0, in the arena's
/// coordinates (tenths).
pub open spec fn spec_damage(pos: int) -> int {
    let dist: int = spec_distance(pos);
    if dist < 200 {
        100
    } else if dist < 1000 {
        (1000 - dist) / 10
    } else {
        0
    }
}

/// Damage for an attack-bar stop, a pure function of the distance to center.
pub fn attack_damage(pos: i32) -> (d: i32)
    requires
        -100_000 <= pos <= 100_000,
    ensures
        d as int == spec_damage(pos as int),
        0 <= d <= 100,
{
    let dist: i32 = if pos >= BAR_CENTER {
        pos - BAR_CENTER
    } else {
        BAR_CENTER - pos
    };
    if dist < 200 {
        100
    } else if dist < 1000 {
        (1000 - dist) / 10
    } else {
        0
    }
}

/// The decimal digit `d` as a character.
pub open spec fn spec_digit_char(d: int) -> char {
    if d == 0 {
        '0'
    } else if d == 1 {
        '1'
    } else if d == 2 {
        '2'
    } else if d == 3 {
        '3'
    } else if d == 4 {
        '4'
    } else if d == 5 {
        '5'
    } else if d == 6 {
        '6'
    } else if d == 7 {
        '7'
    } else if d == 8 {
        '8'
    } else {
        '9'
    }
}

fn digit_str(d: u32) -> (r: &'static str)
    requires
        d < 10,
    ensures
        r@ =~= seq![spec_digit_char(d as int)],
{
    if d == 0 {
        proof {
            reveal_strlit("0");
        }
        "0"
    } else if d == 1 {
        proof {
            reveal_strlit("1");
        }
        "1"
    } else if d == 2 {
        proof {
            reveal_strlit("2");
        }
        "2"
    } else if d == 3 {
        proof {
            reveal_strlit("3");
        }
        "3"
    } else if d == 4 {
        proof {
            reveal_strlit("4");
        }
        "4"
    } else if d == 5 {
        proof {
            reveal_strlit("5");
        }
        "5"
    } else if d == 6 {
        proof {
            reveal_strlit("6");
        }
        "6"
    } else if d == 7 {
        proof {
            reveal_strlit("7");
        }
        "7"
    } else if d == 8 {
        proof {
            reveal_strlit("8");
        }
        "8"
    } else {
        proof {
            reveal_strlit("9");
        }
        "9"
    }
}

/// The action line recorded for a landed hit: the damage in decimal,
/// followed by " DMG".
pub open spec fn spec_damage_text(d: int) -> Seq<char> {
    if d == 100 {
        "100 DMG"@
    } else if d >= 10 {
        seq![spec_digit_char(d / 10), spec_digit_char(d % 10)] + " DMG"@
    } else {
        seq![spec_digit_char(d)] + " DMG"@
    }
}

/// Render a damage amount as its action line.
pub fn damage_text(d: u32) -> (r: String)
    requires
        1 <= d <= 100,
    ensures
        r@ == spec_damage_text(d as int),
{
    if d == 100 {
        "100 DMG".to_owned()
    } else if d >= 10 {
        let tens: u32 = d / 10;
        let ones: u32 = d % 10;
        let mut s = digit_str(tens).to_owned();
        s.append(digit_str(ones));
        s.append(" DMG");
        proof {
            assert(tens as int == d as int / 10);
            assert(ones as int == d as int % 10);
            assert(s@ =~= spec_damage_text(d as int));
        }
        s
    } else {
        let mut s = digit_str(d).to_owned();
        s.append(" DMG");
        proof {
            assert(s@ =~= spec_damage_text(d as int));
        }
        s
    }
}

/// One frame of the Fighting turn. While the bar is live it advances and
/// either auto-misses past the far bound or resolves on confirm; once
/// resolved, the next confirm starts the enemy turn with a fresh taunt.
pub open spec fn spec_fighting_step(m: CombatModel, inp: InputSnapshot, taunt_index: int) -> CombatModel {
    if m.attack_bar_active {
        let pos: int = m.attack_bar_pos + m.attack_bar_speed;
        if pos > BAR_END {
            CombatModel {
                attack_bar_pos: pos,
                attack_bar_active: false,
                action_text: "MISS"@,
                timer: 0,
                ..m
            }
        } else if inp.confirm {
            let d: int = spec_damage(pos);
            if d > 0 {
                CombatModel {
                    attack_bar_pos: pos,
                    attack_bar_active: false,
                    action_text: spec_damage_text(d),
                    sans_shake: SHAKE_ON_HIT as int,
                    timer: 0,
                    ..m
                }
            } else {
                CombatModel {
                    attack_bar_pos: pos,
                    attack_bar_active: false,
                    action_text: "MISS"@,
                    timer: 0,
                    ..m
                }
            }
        } else {
            CombatModel { attack_bar_pos: pos, ..m }
        }
    } else {
        if inp.confirm {
            CombatModel {
                turn: CombatTurn::SansTurn,
                timer: 0,
                dialogue_text: taunt_line_spec(taunt_index),
                ..m
            }
        } else {
            m
        }
    }
}

impl CombatData {
    /// Advance one frame of the Fighting turn.
    pub fn fighting_step(&mut self, input: &InputSnapshot, taunt_index: usize)
        requires
            old(self).wf(),
            old(self).turn == CombatTurn::Fighting,
            taunt_index < 10,
        ensures
            final(self)@ == spec_fighting_step(old(self)@, *input, taunt_index as int),
            final(self).wf(),
    {
        if self.attack_bar_active {
            self.attack_bar_pos = self.attack_bar_pos + self.attack_bar_speed;
            if self.attack_bar_pos > BAR_END {
                self.attack_bar_active = false;
                self.action_text = "MISS".to_owned();
                self.timer = 0;
            } else if input.confirm {
                self.attack_bar_active = false;
                let damage: i32 = attack_damage(self.attack_bar_pos);
                if damage > 0 {
                    self.action_text = damage_text(damage as u32);
                    self.sans_shake = SHAKE_ON_HIT;
                } else {
                    self.action_text = "MISS".to_owned();
                }
                self.timer = 0;
            }
        } else {
            if input.confirm {
                self.turn = CombatTurn::SansTurn;
                self.timer = 0;
                self.dialogue_text = taunt_line(taunt_index);
            }
        }
        proof {
            assert(self@ =~= spec_fighting_step(old(self)@, *input, taunt_index as int));
        }
    }
}

} // verus!
