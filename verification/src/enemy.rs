use vstd::prelude::*;

use crate::combat::{
    ARENA_BOTTOM, ARENA_MAX_X, ARENA_MAX_Y, ARENA_MIN_X, ARENA_MIN_Y, ARENA_TOP, BONE_MAX_X,
    BONE_MIN_X, Bone, BoneM, CombatData, CombatModel, CombatTurn, FAST_FALL, FLOOR_Y, GAP_MAX_Y,
    GAP_MIN_Y, GAP_SIZE, GRAVITY, HEART_SIZE, JUMP_VELOCITY, MAX_HEALTH, MOVE_SPEED, SPAWN_X,
    SPAWN_Y, SURVIVAL_TICKS, WAVE_PERIOD, bone_wf, bones_view, bones_wf, heart_wf,
};
use crate::geom::{Vec2i, clamp_i32, rect_intersects, rects_overlap, spec_clamp};
use crate::input::InputSnapshot;

verus! {

// ---------------------------------------------------------------------------
// Entry
// ---------------------------------------------------------------------------
/// The reset performed on the first frame of the enemy turn: avatar back at
/// its spawn point with zero velocity, no projectiles, and a pattern mode
/// fixed for the whole turn.
pub open spec fn spec_enemy_enter(m: CombatModel, blue_mode: bool) -> CombatModel {
    CombatModel {
        heart_x: SPAWN_X as int,
        heart_y: SPAWN_Y as int,
        vel_x: 0,
        vel_y: 0,
        bones: Seq::<BoneM>::empty(),
        is_blue_mode: blue_mode,
        ..m
    }
}

// ---------------------------------------------------------------------------
// Avatar physics
// ---------------------------------------------------------------------------
/// One frame of avatar physics: gravity, jump on a rising edge while
/// grounded, fast fall while airborne, direct horizontal movement, velocity
/// integration, floor collision, and the final clamp into the arena.
pub open spec fn spec_physics(m: CombatModel, inp: InputSnapshot) -> CombatModel {
    let vy_g: int = m.vel_y + GRAVITY;
    let jumped: bool = inp.up_pressed && m.can_jump;
    let vy_j: int = if jumped {
        JUMP_VELOCITY as int
    } else {
        vy_g
    };
    let grounded: bool = if jumped {
        false
    } else {
        m.can_jump
    };
    let vy_f: int = if inp.down_held && !grounded {
        vy_j + FAST_FALL
    } else {
        vy_j
    };
    let x_l: int = if inp.left_held {
        m.heart_x - MOVE_SPEED
    } else {
        m.heart_x
    };
    let x_r: int = if inp.right_held {
        x_l + MOVE_SPEED
    } else {
        x_l
    };
    let x_i: int = x_r + m.vel_x;
    let y_i: int = m.heart_y + vy_f;
    let on_floor: bool = y_i > FLOOR_Y;
    CombatModel {
        heart_x: spec_clamp(x_i, ARENA_MIN_X as int, ARENA_MAX_X as int),
        heart_y: spec_clamp(
            if on_floor {
                FLOOR_Y as int
            } else {
                y_i
            },
            ARENA_MIN_Y as int,
            ARENA_MAX_Y as int,
        ),
        vel_y: if on_floor {
            0
        } else {
            vy_f
        },
        can_jump: if on_floor {
            true
        } else {
            grounded
        },
        ..m
    }
}

// ---------------------------------------------------------------------------
// Pattern generator
// ---------------------------------------------------------------------------
/// A platform-mode ("blue") wave: one of three shapes, all travelling at a
/// fixed horizontal speed toward the opposite edge.
pub open spec fn spec_wave_blue(pattern: int) -> Seq<BoneM> {
    if pattern == 0 {
        // One low obstacle from the right: jump over it.
        seq![BoneM { px: 8000, py: 4200, w: 200, h: 500, vx: -60, vy: 0 }]
    } else if pattern == 1 {
        // One high obstacle from the left: stay low.
        seq![BoneM { px: -500, py: 3500, w: 200, h: 600, vx: 60, vy: 0 }]
    } else {
        // Two simultaneous low obstacles, one from each side.
        seq![
            BoneM { px: 8000, py: 4400, w: 200, h: 300, vx: -50, vy: 0 },
            BoneM { px: -500, py: 4400, w: 200, h: 300, vx: 50, vy: 0 },
        ]
    }
}

/// An evasive-mode ("red") wave: a full-height pair of obstacles from the
/// right with a safe gap of fixed height at a random position. A gap near
/// the bottom leaves the lower segment with non-positive height, a
/// degenerate rectangle that never collides.
pub open spec fn spec_wave_red(gap_y: int) -> Seq<BoneM> {
    seq![
        BoneM { px: 8000, py: ARENA_TOP as int, w: 200, h: gap_y - ARENA_TOP, vx: -50, vy: 0 },
        BoneM {
            px: 8000,
            py: gap_y + GAP_SIZE,
            w: 200,
            h: ARENA_BOTTOM - (gap_y + GAP_SIZE),
            vx: -50,
            vy: 0,
        },
    ]
}

/// The wave the current mode spawns.
pub open spec fn spec_wave(blue_mode: bool, pattern: int, gap_y: int) -> Seq<BoneM> {
    if blue_mode {
        spec_wave_blue(pattern)
    } else {
        spec_wave_red(gap_y)
    }
}

// ---------------------------------------------------------------------------
// Projectile advance, collision, and culling
// ---------------------------------------------------------------------------
/// A projectile after one frame of travel.
pub open spec fn spec_advance_bone(b: BoneM) -> BoneM {
    BoneM { px: b.px + b.vx, py: b.py + b.vy, ..b }
}

/// A projectile (already advanced) whose horizontal position has left the
/// arena's generous bounds; it is discarded the same frame.
pub open spec fn bone_out(b: BoneM) -> bool {
    b.px < BONE_MIN_X || b.px > BONE_MAX_X
}

/// Does an (already advanced) projectile overlap the avatar's hitbox?
pub open spec fn bone_hits_heart(b: BoneM, hx: int, hy: int) -> bool {
    rects_overlap(hx, hy, HEART_SIZE as int, HEART_SIZE as int, b.px, b.py, b.w, b.h)
}

/// The projectile list after one frame: every projectile advanced by its
/// velocity, in order, minus those that left the horizontal bounds.
pub open spec fn spec_step_bones(bones: Seq<BoneM>) -> Seq<BoneM>
    decreases bones.len(),
{
    if bones.len() == 0 {
        Seq::<BoneM>::empty()
    } else {
        let rest: Seq<BoneM> = spec_step_bones(bones.drop_last());
        let moved: BoneM = spec_advance_bone(bones.last());
        if bone_out(moved) {
            rest
        } else {
            rest.push(moved)
        }
    }
}

/// Does any projectile, after advancing, overlap the avatar this frame?
/// Projectiles are tested before the out-of-bounds cull.
pub open spec fn spec_any_hit(bones: Seq<BoneM>, hx: int, hy: int) -> bool
    decreases bones.len(),
{
    if bones.len() == 0 {
        false
    } else {
        spec_any_hit(bones.drop_last(), hx, hy) || bone_hits_heart(
            spec_advance_bone(bones.last()),
            hx,
            hy,
        )
    }
}

// ---------------------------------------------------------------------------
// The whole enemy-turn frame
// ---------------------------------------------------------------------------
/// One frame of the enemy turn: entry reset on the first tick, timer
/// advance, avatar physics, the periodic wave spawn, projectile advance
/// with collision (at most one health decrement per frame, floored at
/// zero), and the return to Menu once the survival threshold is passed.
pub open spec fn spec_enemy_frame(
    m: CombatModel,
    inp: InputSnapshot,
    health: int,
    blue_mode: bool,
    pattern: int,
    gap_y: int,
) -> (CombatModel, int) {
    let entered: CombatModel = if m.timer == 0 {
        spec_enemy_enter(m, blue_mode)
    } else {
        m
    };
    let ticked: CombatModel = CombatModel { timer: entered.timer + 1, ..entered };
    let moved: CombatModel = spec_physics(ticked, inp);
    let spawned: CombatModel = if moved.timer % (WAVE_PERIOD as int) == 0 {
        CombatModel {
            bones: moved.bones + spec_wave(moved.is_blue_mode, pattern, gap_y),
            ..moved
        }
    } else {
        moved
    };
    let hit: bool = spec_any_hit(spawned.bones, spawned.heart_x, spawned.heart_y);
    let culled: CombatModel = CombatModel { bones: spec_step_bones(spawned.bones), ..spawned };
    let next_health: int = if hit && health > 0 {
        health - 1
    } else {
        health
    };
    let done: CombatModel = if culled.timer > SURVIVAL_TICKS as int {
        CombatModel {
            turn: CombatTurn::Menu,
            dialogue_text: "You feel your sins crawling on your back."@,
            bones: Seq::<BoneM>::empty(),
            is_blue_mode: false,
            ..culled
        }
    } else {
        culled
    };
    (done, next_health)
}

impl CombatData {
    /// Reset performed when the enemy turn begins (timer still zero).
    pub fn enemy_turn_enter(&mut self, blue_mode: bool)
        requires
            old(self).wf(),
        ensures
            final(self)@ == spec_enemy_enter(old(self)@, blue_mode),
            final(self).wf(),
            final(self)@.bones.len() == 0,
            final(self)@.heart_x == SPAWN_X as int,
            final(self)@.heart_y == SPAWN_Y as int,
            final(self)@.vel_x == 0,
            final(self)@.vel_y == 0,
    {
        self.heart_pos = Vec2i { x: SPAWN_X, y: SPAWN_Y };
        self.heart_velocity = Vec2i::zero();
        self.bones = Vec::new();
        self.is_blue_mode = blue_mode;
        proof {
            assert(bones_view(self.bones@) =~= Seq::<BoneM>::empty());
            assert(self@ =~= spec_enemy_enter(old(self)@, blue_mode));
        }
    }

    /// One frame of avatar physics during the enemy turn.
    pub fn avatar_physics_step(&mut self, input: &InputSnapshot)
        requires
            heart_wf(old(self)@),
        ensures
            final(self)@ == spec_physics(old(self)@, *input),
            heart_wf(final(self)@),
    {
        self.heart_velocity.y = self.heart_velocity.y + GRAVITY;
        if input.up_pressed && self.can_jump {
            self.heart_velocity.y = JUMP_VELOCITY;
            self.can_jump = false;
        }
        if input.down_held && !self.can_jump {
            self.heart_velocity.y = self.heart_velocity.y + FAST_FALL;
        }
        if input.left_held {
            self.heart_pos.x = self.heart_pos.x - MOVE_SPEED;
        }
        if input.right_held {
            self.heart_pos.x = self.heart_pos.x + MOVE_SPEED;
        }
        self.heart_pos.x = self.heart_pos.x + self.heart_velocity.x;
        self.heart_pos.y = self.heart_pos.y + self.heart_velocity.y;
        if self.heart_pos.y > FLOOR_Y {
            self.heart_pos.y = FLOOR_Y;
            self.heart_velocity.y = 0;
            self.can_jump = true;
        }
        self.heart_pos.x = clamp_i32(self.heart_pos.x, ARENA_MIN_X, ARENA_MAX_X);
        self.heart_pos.y = clamp_i32(self.heart_pos.y, ARENA_MIN_Y, ARENA_MAX_Y);
        proof {
            assert(self@ =~= spec_physics(old(self)@, *input));
        }
    }

    /// Append one wave of projectiles from the current mode's generator.
    pub fn spawn_wave(&mut self, pattern: usize, gap_y: i32)
        requires
            bones_wf(old(self)@.bones),
            pattern < 3,
            GAP_MIN_Y <= gap_y < GAP_MAX_Y,
        ensures
            final(self)@ == (CombatModel {
                bones: old(self)@.bones + spec_wave(old(self)@.is_blue_mode, pattern as int,
                    gap_y as int),
                ..old(self)@
            }),
            bones_wf(final(self)@.bones),
    {
        if self.is_blue_mode {
            if pattern == 0 {
                self.bones.push(
                    Bone {
                        pos: Vec2i { x: 8000, y: 4200 },
                        size: Vec2i { x: 200, y: 500 },
                        velocity: Vec2i { x: -60, y: 0 },
                    },
                );
            } else if pattern == 1 {
                self.bones.push(
                    Bone {
                        pos: Vec2i { x: -500, y: 3500 },
                        size: Vec2i { x: 200, y: 600 },
                        velocity: Vec2i { x: 60, y: 0 },
                    },
                );
            } else {
                self.bones.push(
                    Bone {
                        pos: Vec2i { x: 8000, y: 4400 },
                        size: Vec2i { x: 200, y: 300 },
                        velocity: Vec2i { x: -50, y: 0 },
                    },
                );
                self.bones.push(
                    Bone {
                        pos: Vec2i { x: -500, y: 4400 },
                        size: Vec2i { x: 200, y: 300 },
                        velocity: Vec2i { x: 50, y: 0 },
                    },
                );
            }
        } else {
            let top_height: i32 = gap_y - ARENA_TOP;
            let bottom_y: i32 = gap_y + GAP_SIZE;
            let bottom_height: i32 = ARENA_BOTTOM - bottom_y;
            self.bones.push(
                Bone {
                    pos: Vec2i { x: 8000, y: ARENA_TOP },
                    size: Vec2i { x: 200, y: top_height },
                    velocity: Vec2i { x: -50, y: 0 },
                },
            );
            self.bones.push(
                Bone {
                    pos: Vec2i { x: 8000, y: bottom_y },
                    size: Vec2i { x: 200, y: bottom_height },
                    velocity: Vec2i { x: -50, y: 0 },
                },
            );
        }
        proof {
            assert(bones_view(self.bones@) =~= old(self)@.bones + spec_wave(
                old(self)@.is_blue_mode, pattern as int, gap_y as int));
            assert(self@ =~= (CombatModel {
                bones: old(self)@.bones + spec_wave(old(self)@.is_blue_mode, pattern as int,
                    gap_y as int),
                ..old(self)@
            }));
        }
    }

    /// Advance every projectile, report whether any overlaps the avatar this
    /// frame, and discard the ones that left the horizontal bounds.
    pub fn advance_bones(&mut self) -> (hit: bool)
        requires
            bones_wf(old(self)@.bones),
            heart_wf(old(self)@),
        ensures
            final(self)@ == (CombatModel { bones: spec_step_bones(old(self)@.bones), ..old(self)@ }),
            hit == spec_any_hit(old(self)@.bones, old(self)@.heart_x, old(self)@.heart_y),
            bones_wf(final(self)@.bones),
    {
        let ghost bm: Seq<BoneM> = self@.bones;
        let mut kept: Vec<Bone> = Vec::new();
        let mut hit: bool = false;
        let mut i: usize = 0;
        let n: usize = self.bones.len();
        while i < n
            invariant
                *self == *old(self),
                n == self.bones@.len(),
                i <= n,
                bm == self@.bones,
                bones_wf(bm),
                heart_wf(self@),
                bones_view(kept@) == spec_step_bones(bm.take(i as int)),
                bones_wf(bones_view(kept@)),
                hit == spec_any_hit(bm.take(i as int), self@.heart_x, self@.heart_y),
            decreases n - i,
        {
            let b: Bone = self.bones[i];
            proof {
                assert(b@ == bm[i as int]);
                assert(bone_wf(bm[i as int]));
            }
            let moved: Bone = Bone {
                pos: Vec2i { x: b.pos.x + b.velocity.x, y: b.pos.y + b.velocity.y },
                size: b.size,
                velocity: b.velocity,
            };
            proof {
                assert(bm.take(i as int + 1).drop_last() =~= bm.take(i as int));
                assert(bm.take(i as int + 1).last() == bm[i as int]);
                assert(moved@ == spec_advance_bone(bm[i as int]));
            }
            let overlap: bool = rect_intersects(
                self.heart_pos.x,
                self.heart_pos.y,
                HEART_SIZE,
                HEART_SIZE,
                moved.pos.x,
                moved.pos.y,
                moved.size.x,
                moved.size.y,
            );
            if overlap {
                hit = true;
            }
            if moved.pos.x >= BONE_MIN_X && moved.pos.x <= BONE_MAX_X {
                kept.push(moved);
            }
            proof {
                assert(bones_view(kept@) =~= spec_step_bones(bm.take(i as int + 1)));
            }
            i = i + 1;
        }
        proof {
            assert(bm.take(n as int) =~= bm);
        }
        self.bones = kept;
        proof {
            assert(self@ =~= (CombatModel {
                bones: spec_step_bones(old(self)@.bones),
                ..old(self)@
            }));
        }
        hit
    }

    /// Advance one frame of the enemy turn, including the entry reset on its
    /// first tick. `health` is the externally owned player health; overlap
    /// with any projectile costs one point this frame, floored at zero.
    pub fn enemy_turn_step(
        &mut self,
        input: &InputSnapshot,
        health: &mut u32,
        blue_mode: bool,
        pattern: usize,
        gap_y: i32,
    )
        requires
            old(self).wf(),
            old(self).turn == CombatTurn::SansTurn,
            *old(health) <= MAX_HEALTH,
            pattern < 3,
            GAP_MIN_Y <= gap_y < GAP_MAX_Y,
        ensures
            final(self)@ == spec_enemy_frame(old(self)@, *input, *old(health) as int, blue_mode,
                pattern as int, gap_y as int).0,
            *final(health) as int == spec_enemy_frame(old(self)@, *input, *old(health) as int,
                blue_mode, pattern as int, gap_y as int).1,
            final(self).wf(),
            *final(health) <= MAX_HEALTH,
    {
        if self.timer == 0 {
            self.enemy_turn_enter(blue_mode);
        }
        self.timer = self.timer + 1;
        self.avatar_physics_step(input);
        if self.timer % WAVE_PERIOD == 0 {
            self.spawn_wave(pattern, gap_y);
        }
        let hit: bool = self.advance_bones();
        if hit && *health > 0 {
            *health = *health - 1;
        }
        if self.timer > SURVIVAL_TICKS {
            self.turn = CombatTurn::Menu;
            self.dialogue_text = "You feel your sins crawling on your back.".to_owned();
            self.bones = Vec::new();
            self.is_blue_mode = false;
        }
        proof {
            if self.timer > SURVIVAL_TICKS {
                assert(bones_view(self.bones@) =~= Seq::<BoneM>::empty());
            }
            assert(self@ =~= spec_enemy_frame(old(self)@, *input, *old(health) as int, blue_mode,
                pattern as int, gap_y as int).0);
        }
    }
}

} // verus!
