use gorkitale::combat::{CombatData, CombatTurn};
use gorkitale::fight::attack_damage;
use gorkitale::input::{FrameRand, InputSnapshot};
use gorkitale::session::update_with;

fn confirm() -> InputSnapshot {
    InputSnapshot {
        confirm: true,
        left_pressed: false,
        right_pressed: false,
        up_pressed: false,
        down_held: false,
        left_held: false,
        right_held: false,
    }
}

fn rand_fixed() -> FrameRand {
    FrameRand { blue_mode: false, act_index: 0, taunt_index: 0, pattern: 0, gap_y: 3300 }
}

fn fighting_at(bar_pos: i32) -> CombatData {
    let mut d = CombatData::new();
    d.turn = CombatTurn::Fighting;
    d.attack_bar_active = true;
    d.attack_bar_pos = bar_pos;
    d
}

#[test]
fn damage_at_center_is_full() {
    assert_eq!(attack_damage(4000), 100);
}

#[test]
fn damage_inside_dead_zone_is_full() {
    // Distance 19.9 on either side still deals full damage.
    assert_eq!(attack_damage(4199), 100);
    assert_eq!(attack_damage(3801), 100);
}

#[test]
fn damage_at_falloff_start() {
    // Distance 20.0 leaves the dead-zone: 80 damage.
    assert_eq!(attack_damage(4200), 80);
    assert_eq!(attack_damage(3800), 80);
}

#[test]
fn damage_near_outer_band_truncates_to_zero() {
    // Distance 99.9 would deal 0.1 damage; whole-point damage truncates it
    // to zero.
    assert_eq!(attack_damage(4999), 0);
    assert_eq!(attack_damage(4990), 1);
}

#[test]
fn damage_beyond_band_is_miss() {
    assert_eq!(attack_damage(5000), 0);
    assert_eq!(attack_damage(750), 0);
}

#[test]
fn damage_is_symmetric_in_distance() {
    assert_eq!(attack_damage(4300), attack_damage(3700));
    assert_eq!(attack_damage(4650), attack_damage(3350));
}

#[test]
fn center_stop_deals_full_damage_and_shakes() {
    // The bar sits at 400.0 with confirm pressed: full damage, shake set.
    let mut d = fighting_at(4000);
    let mut health: u32 = 100;
    d.fighting_step(&confirm(), 0);
    assert!(!d.attack_bar_active);
    assert_eq!(d.action_text, "100 DMG");
    assert_eq!(d.sans_shake, 100);
    assert_eq!(health, 100);
    // Through a whole frame the same-frame decay already applies.
    let mut d2 = fighting_at(4000);
    update_with(&mut d2, &confirm(), &mut health, &rand_fixed());
    assert_eq!(d2.sans_shake, 95);
    assert_eq!(d2.action_text, "100 DMG");
}

#[test]
fn falloff_stop_records_partial_damage() {
    // Advancing from 4120 lands at 4200: distance 200, 80 damage.
    let mut d = fighting_at(4120);
    d.fighting_step(&confirm(), 0);
    assert_eq!(d.action_text, "80 DMG");
    // Advancing from 4870 lands at 4950: distance 950, 5 damage.
    let mut d2 = fighting_at(4870);
    d2.fighting_step(&confirm(), 0);
    assert_eq!(d2.action_text, "5 DMG");
}

#[test]
fn outer_stop_is_miss_without_shake() {
    // Advancing from 4920 lands at 5000: distance 1000, a miss.
    let mut d = fighting_at(4920);
    d.fighting_step(&confirm(), 0);
    assert_eq!(d.action_text, "MISS");
    assert_eq!(d.sans_shake, 0);
}

#[test]
fn bar_overrun_auto_misses_without_confirm() {
    // Past the far bound the bar resolves on its own, no input needed.
    let mut d = fighting_at(7460);
    d.fighting_step(&InputSnapshot::idle(), 0);
    assert!(!d.attack_bar_active);
    assert_eq!(d.action_text, "MISS");
    assert_eq!(d.turn, CombatTurn::Fighting);
}

#[test]
fn live_bar_advances_without_input() {
    let mut d = fighting_at(500);
    d.fighting_step(&InputSnapshot::idle(), 0);
    assert!(d.attack_bar_active);
    assert_eq!(d.attack_bar_pos, 580);
}

#[test]
fn resolved_bar_confirm_starts_enemy_turn() {
    let mut d = fighting_at(500);
    d.attack_bar_active = false;
    d.timer = 77;
    d.fighting_step(&confirm(), 3);
    assert_eq!(d.turn, CombatTurn::SansTurn);
    assert_eq!(d.timer, 0);
    assert_eq!(d.dialogue_text, "birds are singing, flowers are blooming...");
}
