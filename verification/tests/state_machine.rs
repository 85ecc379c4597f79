use gorkitale::combat::{CombatData, CombatTurn};
use gorkitale::input::{FrameRand, InputSnapshot};
use gorkitale::lines::{act_line, taunt_line};
use gorkitale::session::{update, update_with};

fn idle() -> InputSnapshot {
    InputSnapshot::idle()
}

fn confirm() -> InputSnapshot {
    InputSnapshot { confirm: true, ..idle() }
}

fn pressed_left() -> InputSnapshot {
    InputSnapshot { left_pressed: true, ..idle() }
}

fn pressed_right() -> InputSnapshot {
    InputSnapshot { right_pressed: true, ..idle() }
}

fn rand_fixed() -> FrameRand {
    FrameRand { blue_mode: false, act_index: 2, taunt_index: 1, pattern: 0, gap_y: 3300 }
}

#[test]
fn new_session_starts_in_menu() {
    let d = CombatData::new();
    assert_eq!(d.turn, CombatTurn::Menu);
    assert_eq!(d.menu_selection, 0);
    assert_eq!(d.dialogue_text, "You feel like you're gonna have a bad time.");
    assert_eq!(d.action_text, "");
    assert!(!d.attack_bar_active);
    assert_eq!(d.attack_bar_speed, 80);
    assert_eq!(d.heart_pos.x, 4000);
    assert_eq!(d.heart_pos.y, 4000);
    assert!(d.bones.is_empty());
    assert!(d.can_jump);
}

#[test]
fn menu_selection_clamps_at_both_ends() {
    let mut d = CombatData::new();
    let mut health: u32 = 100;
    // Left from index 0 stays at 0, however often it is pressed.
    for _ in 0..5 {
        update_with(&mut d, &pressed_left(), &mut health, &rand_fixed());
        assert_eq!(d.menu_selection, 0);
    }
    // Right walks up to the last index and stays there.
    for _ in 0..6 {
        update_with(&mut d, &pressed_right(), &mut health, &rand_fixed());
        assert!(d.menu_selection <= 3);
    }
    assert_eq!(d.menu_selection, 3);
    // And back.
    update_with(&mut d, &pressed_left(), &mut health, &rand_fixed());
    assert_eq!(d.menu_selection, 2);
}

#[test]
fn menu_confirm_fight_arms_attack_bar() {
    // Selection 0 plus confirm: Fighting, bar live at its start position.
    let mut d = CombatData::new();
    let mut health: u32 = 100;
    let exit = update_with(&mut d, &confirm(), &mut health, &rand_fixed());
    assert!(!exit);
    assert_eq!(d.turn, CombatTurn::Fighting);
    assert!(d.attack_bar_active);
    assert_eq!(d.attack_bar_pos, 500);
    assert_eq!(d.action_text, "");
    assert_eq!(d.timer, 0);
}

#[test]
fn menu_confirm_act_shows_flavor_line() {
    let mut d = CombatData::new();
    d.menu_selection = 1;
    let mut health: u32 = 100;
    update_with(&mut d, &confirm(), &mut health, &rand_fixed());
    assert_eq!(d.turn, CombatTurn::Acting);
    assert_eq!(d.action_text, act_line(2));
    assert_eq!(health, 100);
}

#[test]
fn menu_confirm_item_heals_clamped() {
    let mut d = CombatData::new();
    d.menu_selection = 2;
    let mut health: u32 = 30;
    update_with(&mut d, &confirm(), &mut health, &rand_fixed());
    assert_eq!(d.turn, CombatTurn::Acting);
    assert_eq!(health, 70);
    assert_eq!(d.action_text, "You ate the Legendary Hero.\nYou recovered 40 HP!");

    let mut d2 = CombatData::new();
    d2.menu_selection = 2;
    let mut health2: u32 = 90;
    update_with(&mut d2, &confirm(), &mut health2, &rand_fixed());
    assert_eq!(health2, 100);
}

#[test]
fn menu_mercy_then_confirm_exits() {
    // Walk to the last index, confirm into Mercy, then confirm again to
    // leave combat.
    let mut d = CombatData::new();
    let mut health: u32 = 100;
    for _ in 0..3 {
        update_with(&mut d, &pressed_right(), &mut health, &rand_fixed());
    }
    assert_eq!(d.menu_selection, 3);
    let exit = update_with(&mut d, &confirm(), &mut health, &rand_fixed());
    assert!(!exit);
    assert_eq!(d.turn, CombatTurn::Mercy);
    assert!(!d.action_text.is_empty());
    assert_eq!(d.action_text, "You spared Sans.");
    let exit2 = update_with(&mut d, &confirm(), &mut health, &rand_fixed());
    assert!(exit2);
    assert_eq!(d.turn, CombatTurn::Mercy);
}

#[test]
fn mercy_without_confirm_does_not_exit() {
    let mut d = CombatData::new();
    d.turn = CombatTurn::Mercy;
    let mut health: u32 = 100;
    let exit = update_with(&mut d, &idle(), &mut health, &rand_fixed());
    assert!(!exit);
    assert_eq!(d.turn, CombatTurn::Mercy);
}

#[test]
fn acting_confirm_starts_enemy_turn_with_taunt() {
    let mut d = CombatData::new();
    d.turn = CombatTurn::Acting;
    d.timer = 9;
    let mut health: u32 = 100;
    let exit = update_with(&mut d, &confirm(), &mut health, &rand_fixed());
    assert!(!exit);
    assert_eq!(d.turn, CombatTurn::SansTurn);
    assert_eq!(d.timer, 0);
    assert_eq!(d.dialogue_text, taunt_line(1));
}

#[test]
fn shake_decays_every_frame_until_zero() {
    let mut d = CombatData::new();
    d.sans_shake = 100;
    let mut health: u32 = 100;
    for expected in [95, 90, 85] {
        update_with(&mut d, &idle(), &mut health, &rand_fixed());
        assert_eq!(d.sans_shake, expected);
    }
    for _ in 0..30 {
        update_with(&mut d, &idle(), &mut health, &rand_fixed());
    }
    assert_eq!(d.sans_shake, 0);
}

#[test]
fn randomized_update_keeps_invariants() {
    // Drive whole random turns; whatever the draws, the bounds hold.
    let mut d = CombatData::new();
    let mut health: u32 = 100;
    for frame in 0..1000u32 {
        let inp = InputSnapshot {
            confirm: frame % 7 == 0,
            left_pressed: frame % 3 == 0,
            right_pressed: frame % 5 == 0,
            up_pressed: frame % 2 == 0,
            down_held: frame % 11 == 0,
            left_held: frame % 4 == 0,
            right_held: frame % 6 == 0,
        };
        update(&mut d, &inp, &mut health);
        assert!(d.menu_selection <= 3);
        assert!(health <= 100);
        assert!(d.heart_pos.y <= 4400);
        assert!(d.heart_pos.x >= 550 && d.heart_pos.x <= 7350);
        assert!(d.timer <= 401);
    }
}

#[test]
fn left_and_right_in_one_frame_cancel_out() {
    // Left is handled first, then right; from index 0 only right lands.
    let mut d = CombatData::new();
    let mut health: u32 = 100;
    let both = InputSnapshot { left_pressed: true, right_pressed: true, ..idle() };
    update_with(&mut d, &both, &mut health, &rand_fixed());
    assert_eq!(d.menu_selection, 1);
    update_with(&mut d, &both, &mut health, &rand_fixed());
    assert_eq!(d.menu_selection, 1);
}

#[test]
fn act_and_taunt_pools_have_expected_lines() {
    assert_eq!(
        act_line(0),
        "Check: Sans 1 ATK 1 DEF.\nThe easiest enemy. Can only deal 1 damage."
    );
    assert_eq!(act_line(4), "You looked at Sans.\nHe's still smiling.");
    assert_eq!(taunt_line(0), "heh heh heh...");
    assert_eq!(taunt_line(9), "geeeeeet dunked on!");
}
