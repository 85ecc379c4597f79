use vstd::prelude::*;

use crate::combat::{
    ARENA_MAX_X, ARENA_MIN_X, ARENA_MIN_Y, BAR_END, BONE_MAX_X, BONE_MIN_X, BoneM, CombatModel,
    CombatTurn, FLOOR_Y, MAX_HEALTH, SPAWN_X, SPAWN_Y, bone_wf, bones_wf, heart_wf, wf_model,
};
use crate::enemy::{
    bone_out, spec_advance_bone, spec_enemy_enter, spec_enemy_frame, spec_physics,
    spec_step_bones, spec_wave,
};
use crate::fight::{spec_damage, spec_distance, spec_fighting_step};
use crate::input::{FrameRand, InputSnapshot};
use crate::session::spec_update;

verus! {

/// Attack-bar damage is a pure function of the distance to the arena
/// center: two stopping positions at the same distance deal the same
/// damage.
pub proof fn lemma_damage_pure(p: int, q: int)
    requires
        spec_distance(p) == spec_distance(q),
    ensures
        spec_damage(p) == spec_damage(q),
{
}

/// The damage curve: full damage inside the inner dead-zone, a linear
/// falloff across the outer band, and zero (a miss) beyond it.
pub proof fn lemma_damage_curve(p: int)
    ensures
        spec_distance(p) < 200 ==> spec_damage(p) == 100,
        200 <= spec_distance(p) < 1000 ==> spec_damage(p) == (1000 - spec_distance(p)) / 10,
        spec_distance(p) >= 1000 ==> spec_damage(p) == 0,
        0 <= spec_damage(p) <= 100,
{
}

/// A live attack bar that would pass the far bound this frame resolves to
/// "MISS" on its own: no confirm press is needed, the bar deactivates, and
/// the turn stays Fighting awaiting the next confirm.
pub proof fn lemma_bar_overrun_is_miss(m: CombatModel, inp: InputSnapshot, taunt_index: int)
    requires
        m.attack_bar_active,
        m.attack_bar_pos + m.attack_bar_speed > BAR_END,
    ensures
        spec_fighting_step(m, inp, taunt_index).action_text == "MISS"@,
        !spec_fighting_step(m, inp, taunt_index).attack_bar_active,
        spec_fighting_step(m, inp, taunt_index).turn == m.turn,
{
}

/// Entering the enemy turn always resets the projectile list to empty and
/// the avatar to its spawn point with zero velocity.
pub proof fn lemma_enemy_entry_reset(m: CombatModel, blue_mode: bool)
    ensures
        spec_enemy_enter(m, blue_mode).bones.len() == 0,
        spec_enemy_enter(m, blue_mode).heart_x == SPAWN_X as int,
        spec_enemy_enter(m, blue_mode).heart_y == SPAWN_Y as int,
        spec_enemy_enter(m, blue_mode).vel_x == 0,
        spec_enemy_enter(m, blue_mode).vel_y == 0,
{
}

/// After any physics step, the avatar never sinks below the floor line and
/// stays inside the clamped arena rectangle.
pub proof fn lemma_avatar_in_arena(m: CombatModel, inp: InputSnapshot)
    requires
        heart_wf(m),
    ensures
        spec_physics(m, inp).heart_y <= FLOOR_Y,
        ARENA_MIN_Y <= spec_physics(m, inp).heart_y,
        ARENA_MIN_X <= spec_physics(m, inp).heart_x <= ARENA_MAX_X,
        heart_wf(spec_physics(m, inp)),
{
}

/// Advancing the projectiles keeps exactly the advanced projectiles whose
/// horizontal position is still inside the generous bounds: every survivor
/// lies inside them, and every advanced projectile inside them survives.
pub proof fn lemma_projectile_culling(bones: Seq<BoneM>)
    ensures
        forall|j: int|
            0 <= j < spec_step_bones(bones).len() ==> BONE_MIN_X <= (
            #[trigger] spec_step_bones(bones)[j]).px <= BONE_MAX_X,
        forall|j: int|
            0 <= j < bones.len() && !bone_out(spec_advance_bone(#[trigger] bones[j]))
                ==> spec_step_bones(bones).contains(spec_advance_bone(bones[j])),
    decreases bones.len(),
{
    if bones.len() == 0 {
    } else {
        lemma_projectile_culling(bones.drop_last());
        let rest: Seq<BoneM> = spec_step_bones(bones.drop_last());
        let moved: BoneM = spec_advance_bone(bones.last());
        let stepped: Seq<BoneM> = spec_step_bones(bones);
        if bone_out(moved) {
            assert(stepped == rest);
        } else {
            assert(stepped == rest.push(moved));
        }
        assert forall|j: int|
            0 <= j < bones.len() && !bone_out(spec_advance_bone(#[trigger] bones[j]))
                implies stepped.contains(spec_advance_bone(bones[j])) by {
            if j < bones.len() - 1 {
                assert(bones.drop_last()[j] == bones[j]);
                assert(rest.contains(spec_advance_bone(bones[j])));
                let w: int = choose|w: int|
                    0 <= w < rest.len() && rest[w] == spec_advance_bone(bones[j]);
                if bone_out(moved) {
                    assert(stepped[w] == spec_advance_bone(bones[j]));
                } else {
                    assert(rest.push(moved)[w] == rest[w]);
                    assert(stepped[w] == spec_advance_bone(bones[j]));
                }
            } else {
                assert(bones[j] == bones.last());
                assert(rest.push(moved)[rest.len() as int] == moved);
            }
        }
    }
}

/// Advancing well-formed projectiles yields well-formed projectiles.
pub proof fn lemma_step_bones_wf(bones: Seq<BoneM>)
    requires
        bones_wf(bones),
    ensures
        bones_wf(spec_step_bones(bones)),
    decreases bones.len(),
{
    if bones.len() == 0 {
    } else {
        assert forall|i: int| 0 <= i < bones.drop_last().len() implies bone_wf(
            #[trigger] bones.drop_last()[i]) by {
            assert(bones.drop_last()[i] == bones[i]);
        }
        lemma_step_bones_wf(bones.drop_last());
        let rest: Seq<BoneM> = spec_step_bones(bones.drop_last());
        let moved: BoneM = spec_advance_bone(bones.last());
        assert(bone_wf(bones[bones.len() - 1]));
        if !bone_out(moved) {
            assert forall|j: int| 0 <= j < rest.push(moved).len() implies bone_wf(
                #[trigger] rest.push(moved)[j]) by {
                if j < rest.len() {
                    assert(rest.push(moved)[j] == rest[j]);
                } else {
                    assert(rest.push(moved)[j] == moved);
                }
            }
        }
    }
}

/// A spawned wave consists of well-formed projectiles.
pub proof fn lemma_wave_wf(blue_mode: bool, pattern: int, gap_y: int)
    requires
        crate::combat::GAP_MIN_Y <= gap_y < crate::combat::GAP_MAX_Y,
    ensures
        bones_wf(spec_wave(blue_mode, pattern, gap_y)),
{
}

/// One enemy-turn frame preserves the session invariant and the health
/// bounds.
pub proof fn lemma_enemy_frame_wf(
    m: CombatModel,
    inp: InputSnapshot,
    health: int,
    blue_mode: bool,
    pattern: int,
    gap_y: int,
)
    requires
        wf_model(m),
        m.turn == CombatTurn::SansTurn,
        0 <= health <= MAX_HEALTH,
        crate::combat::GAP_MIN_Y <= gap_y < crate::combat::GAP_MAX_Y,
    ensures
        wf_model(spec_enemy_frame(m, inp, health, blue_mode, pattern, gap_y).0),
        0 <= spec_enemy_frame(m, inp, health, blue_mode, pattern, gap_y).1 <= MAX_HEALTH,
{
    let entered: CombatModel = if m.timer == 0 {
        spec_enemy_enter(m, blue_mode)
    } else {
        m
    };
    let ticked: CombatModel = CombatModel { timer: entered.timer + 1, ..entered };
    let moved: CombatModel = spec_physics(ticked, inp);
    lemma_avatar_in_arena(ticked, inp);
    let wave: Seq<BoneM> = spec_wave(moved.is_blue_mode, pattern, gap_y);
    let spawned_bones: Seq<BoneM> = moved.bones + wave;
    lemma_wave_wf(moved.is_blue_mode, pattern, gap_y);
    assert forall|i: int| 0 <= i < spawned_bones.len() implies bone_wf(
        #[trigger] spawned_bones[i]) by {
        if i < moved.bones.len() {
            assert(spawned_bones[i] == moved.bones[i]);
        } else {
            assert(spawned_bones[i] == wave[i - moved.bones.len()]);
        }
    }
    lemma_step_bones_wf(moved.bones);
    lemma_step_bones_wf(spawned_bones);
}

/// Every frame of the combat session preserves the session invariant and
/// keeps the externally owned health within `[0, MAX_HEALTH]`, whatever the
/// input and the frame's random draws.
pub proof fn lemma_update_preserves_wf(m: CombatModel, inp: InputSnapshot, health: int, r: FrameRand)
    requires
        wf_model(m),
        0 <= health <= MAX_HEALTH,
        r.wf(),
    ensures
        wf_model(spec_update(m, inp, health, r).0),
        0 <= spec_update(m, inp, health, r).1 <= MAX_HEALTH,
{
    if m.turn == CombatTurn::SansTurn {
        lemma_enemy_frame_wf(m, inp, health, r.blue_mode, r.pattern as int, r.gap_y as int);
    }
}

/// The menu selection never leaves `[0, 3]`: however often left or right is
/// pressed, a frame maps a well-formed session to one whose selection is
/// still in range.
pub proof fn lemma_menu_selection_bounded(
    m: CombatModel,
    inp: InputSnapshot,
    health: int,
    r: FrameRand,
)
    requires
        wf_model(m),
        0 <= health <= MAX_HEALTH,
        r.wf(),
    ensures
        0 <= spec_update(m, inp, health, r).0.menu_selection <= 3,
{
    lemma_update_preserves_wf(m, inp, health, r);
}

/// At most one health point is lost per frame, and only during the enemy
/// turn; health never increases except through the Item action.
pub proof fn lemma_health_decrement_bounded(
    m: CombatModel,
    inp: InputSnapshot,
    health: int,
    r: FrameRand,
)
    requires
        0 <= health <= MAX_HEALTH,
    ensures
        spec_update(m, inp, health, r).1 >= health - 1,
        m.turn == CombatTurn::SansTurn ==> spec_update(m, inp, health, r).1 <= health,
{
}

} // verus!
