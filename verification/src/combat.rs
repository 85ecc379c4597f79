use vstd::prelude::*;

use crate::geom::Vec2i;

verus! {

// ---------------------------------------------------------------------------
// Arena constants, in tenths of an arena unit (one frame = one tick).
// ---------------------------------------------------------------------------
/// Leftmost position the attack bar starts from.
pub const BAR_START: i32 = 500;

/// Rightmost position of the attack bar's travel; past it the swing misses.
pub const BAR_END: i32 = 7500;

/// Center of the attack bar's travel, the ideal stopping point.
pub const BAR_CENTER: i32 = 4000;

/// How far the attack bar advances per frame.
pub const BAR_SPEED: i32 = 80;

/// Gravity added to the avatar's vertical velocity each frame.
pub const GRAVITY: i32 = 9;

/// Vertical velocity set by a jump.
pub const JUMP_VELOCITY: i32 = -130;

/// Extra downward acceleration while fast-falling.
pub const FAST_FALL: i32 = 15;

/// Horizontal distance the avatar moves per frame of held input.
pub const MOVE_SPEED: i32 = 40;

/// The floor line: the avatar's vertical position is clamped here.
pub const FLOOR_Y: i32 = 4400;

/// Arena rectangle the avatar is clamped into.
pub const ARENA_MIN_X: i32 = 550;

pub const ARENA_MAX_X: i32 = 7350;

pub const ARENA_MIN_Y: i32 = 3250;

pub const ARENA_MAX_Y: i32 = 4550;

/// Top and bottom of the arena span the gap-wave obstacles cover.
pub const ARENA_TOP: i32 = 3200;

pub const ARENA_BOTTOM: i32 = 4700;

/// Side length of the avatar's square hitbox.
pub const HEART_SIZE: i32 = 100;

/// Where the avatar respawns at the start of the enemy turn.
pub const SPAWN_X: i32 = 4000;

pub const SPAWN_Y: i32 = 3950;

/// A projectile is discarded once its horizontal position leaves
/// `[BONE_MIN_X, BONE_MAX_X]`.
pub const BONE_MIN_X: i32 = -500;

pub const BONE_MAX_X: i32 = 8500;

/// A new projectile wave spawns every `WAVE_PERIOD` ticks of the enemy turn.
pub const WAVE_PERIOD: u32 = 40;

/// The enemy turn ends once its timer passes this many ticks.
pub const SURVIVAL_TICKS: u32 = 400;

/// Shake magnitude set when a hit lands, and its per-frame decay.
pub const SHAKE_ON_HIT: i32 = 100;

pub const SHAKE_DECAY: i32 = 5;

/// Vertical size of the safe gap in an evasive-mode wave.
pub const GAP_SIZE: i32 = 600;

/// Bounds (inclusive-exclusive) for the random gap center of an evasive wave.
pub const GAP_MIN_Y: i32 = 3300;

pub const GAP_MAX_Y: i32 = 4400;

/// Health restored by the Item action, and the health cap.
pub const HEAL_AMOUNT: u32 = 40;

pub const MAX_HEALTH: u32 = 100;

// ---------------------------------------------------------------------------
// Data types
// ---------------------------------------------------------------------------
/// The current turn of the combat state machine.
#[derive(Clone, Copy, PartialEq, Eq, Structural, Debug)]
pub enum CombatTurn {
    Menu,
    Fighting,
    Acting,
    Mercy,
    SansTurn,
}

/// A projectile: an axis-aligned rectangle moving through the arena.
/// Evasive-mode waves may produce a degenerate segment with non-positive
/// height; such a segment never overlaps anything.
#[derive(Clone, Copy, PartialEq, Eq, Structural, Debug)]
pub struct Bone {
    pub pos: Vec2i,
    pub size: Vec2i,
    pub velocity: Vec2i,
}

/// Mathematical model of a projectile, over unbounded integers.
#[verifier::ext_equal]
pub ghost struct BoneM {
    pub px: int,
    pub py: int,
    pub w: int,
    pub h: int,
    pub vx: int,
    pub vy: int,
}

impl View for Bone {
    type V = BoneM;

    open spec fn view(&self) -> BoneM {
        BoneM {
            px: self.pos.x as int,
            py: self.pos.y as int,
            w: self.size.x as int,
            h: self.size.y as int,
            vx: self.velocity.x as int,
            vy: self.velocity.y as int,
        }
    }
}

/// The whole combat session state. The host owns the player health value and
/// the scene; this struct owns everything the combat loop itself tracks.
pub struct CombatData {
    pub sans_hp: i32,
    pub sans_max_hp: i32,
    pub turn: CombatTurn,
    /// Index into the Fight / Act / Item / Mercy menu, always in `[0, 3]`.
    pub menu_selection: usize,
    pub sub_menu_selection: usize,
    pub dialogue_text: String,
    pub action_text: String,
    /// Frame counter local to the current turn, reset on every transition.
    pub timer: u32,
    /// Decaying hit-flash magnitude, cosmetic only.
    pub sans_shake: i32,
    pub attack_bar_pos: i32,
    pub attack_bar_speed: i32,
    pub attack_bar_active: bool,
    pub heart_pos: Vec2i,
    pub heart_velocity: Vec2i,
    /// Which bullet-pattern generator runs this enemy turn.
    pub is_blue_mode: bool,
    /// Grounded flag for the avatar.
    pub can_jump: bool,
    pub bones: Vec<Bone>,
}

/// Mathematical model of the combat session, over unbounded integers and
/// character sequences.
#[verifier::ext_equal]
pub ghost struct CombatModel {
    pub sans_hp: int,
    pub sans_max_hp: int,
    pub turn: CombatTurn,
    pub menu_selection: int,
    pub sub_menu_selection: int,
    pub dialogue_text: Seq<char>,
    pub action_text: Seq<char>,
    pub timer: int,
    pub sans_shake: int,
    pub attack_bar_pos: int,
    pub attack_bar_speed: int,
    pub attack_bar_active: bool,
    pub heart_x: int,
    pub heart_y: int,
    pub vel_x: int,
    pub vel_y: int,
    pub is_blue_mode: bool,
    pub can_jump: bool,
    pub bones: Seq<BoneM>,
}

/// The model of a projectile list.
pub open spec fn bones_view(bones: Seq<Bone>) -> Seq<BoneM> {
    bones.map_values(|b: Bone| b@)
}

impl View for CombatData {
    type V = CombatModel;

    open spec fn view(&self) -> CombatModel {
        CombatModel {
            sans_hp: self.sans_hp as int,
            sans_max_hp: self.sans_max_hp as int,
            turn: self.turn,
            menu_selection: self.menu_selection as int,
            sub_menu_selection: self.sub_menu_selection as int,
            dialogue_text: self.dialogue_text@,
            action_text: self.action_text@,
            timer: self.timer as int,
            sans_shake: self.sans_shake as int,
            attack_bar_pos: self.attack_bar_pos as int,
            attack_bar_speed: self.attack_bar_speed as int,
            attack_bar_active: self.attack_bar_active,
            heart_x: self.heart_pos.x as int,
            heart_y: self.heart_pos.y as int,
            vel_x: self.heart_velocity.x as int,
            vel_y: self.heart_velocity.y as int,
            is_blue_mode: self.is_blue_mode,
            can_jump: self.can_jump,
            bones: bones_view(self.bones@),
        }
    }
}

// ---------------------------------------------------------------------------
// Well-formedness
// ---------------------------------------------------------------------------
/// Bounds every projectile in play satisfies: it sits in or just outside the
/// arena, travels horizontally at a bounded speed, and never vertically.
pub open spec fn bone_wf(b: BoneM) -> bool {
    &&& -600 <= b.px <= 8600
    &&& 0 <= b.py <= 10_000
    &&& 0 <= b.w <= 1000
    &&& -1500 <= b.h <= 2000
    &&& -100 <= b.vx <= 100
    &&& b.vy == 0
}

pub open spec fn bones_wf(bones: Seq<BoneM>) -> bool {
    forall|i: int| 0 <= i < bones.len() ==> bone_wf(#[trigger] bones[i])
}

/// Bounds on the avatar: inside the arena, at or above the floor line, with
/// no horizontal velocity of its own and a bounded vertical velocity.
pub open spec fn heart_wf(m: CombatModel) -> bool {
    &&& ARENA_MIN_X <= m.heart_x <= ARENA_MAX_X
    &&& ARENA_MIN_Y <= m.heart_y <= FLOOR_Y
    &&& m.vel_x == 0
    &&& JUMP_VELOCITY <= m.vel_y <= 1150
}

/// The session invariant: established by `CombatData::new` and preserved by
/// every frame update.
pub open spec fn wf_model(m: CombatModel) -> bool {
    &&& 0 <= m.menu_selection <= 3
    &&& 0 <= m.timer <= SURVIVAL_TICKS + 1
    &&& (m.turn == CombatTurn::SansTurn ==> m.timer <= SURVIVAL_TICKS)
    &&& 0 <= m.sans_shake <= SHAKE_ON_HIT
    &&& m.sans_shake % 5 == 0
    &&& 0 < m.attack_bar_speed <= 1000
    &&& 0 <= m.attack_bar_pos <= 8600
    &&& (m.attack_bar_active ==> BAR_START <= m.attack_bar_pos <= BAR_END)
    &&& heart_wf(m)
    &&& bones_wf(m.bones)
}

impl CombatData {
    /// The session invariant, stated on the concrete type.
    pub open spec fn wf(&self) -> bool {
        wf_model(self@)
    }

    /// A fresh session: in the Menu turn, attack bar idle, avatar parked at
    /// the arena center, no projectiles.
    pub fn new() -> (d: CombatData)
        ensures
            d@ == initial_model(),
            d.wf(),
    {
        let d = CombatData {
            sans_hp: 1,
            sans_max_hp: 1,
            turn: CombatTurn::Menu,
            menu_selection: 0,
            sub_menu_selection: 0,
            dialogue_text: "You feel like you're gonna have a bad time.".to_owned(),
            action_text: String::new(),
            timer: 0,
            sans_shake: 0,
            attack_bar_pos: 0,
            attack_bar_speed: BAR_SPEED,
            attack_bar_active: false,
            heart_pos: Vec2i { x: 4000, y: 4000 },
            heart_velocity: Vec2i::zero(),
            is_blue_mode: false,
            can_jump: true,
            bones: Vec::new(),
        };
        proof {
            assert(d@ =~= initial_model());
        }
        d
    }
}

/// The state `CombatData::new` produces.
pub open spec fn initial_model() -> CombatModel {
    CombatModel {
        sans_hp: 1,
        sans_max_hp: 1,
        turn: CombatTurn::Menu,
        menu_selection: 0,
        sub_menu_selection: 0,
        dialogue_text: "You feel like you're gonna have a bad time."@,
        action_text: Seq::<char>::empty(),
        timer: 0,
        sans_shake: 0,
        attack_bar_pos: 0,
        attack_bar_speed: BAR_SPEED as int,
        attack_bar_active: false,
        heart_x: 4000,
        heart_y: 4000,
        vel_x: 0,
        vel_y: 0,
        is_blue_mode: false,
        can_jump: true,
        bones: Seq::<BoneM>::empty(),
    }
}

} // verus!
