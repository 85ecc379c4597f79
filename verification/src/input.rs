use vstd::prelude::*;

verus! {

/// One frame's worth of input, already decoded by the host into
/// edge-triggered (`*_pressed`) and level-triggered (`*_held`) signals.
#[derive(Clone, Copy, PartialEq, Eq, Structural, Debug)]
pub struct InputSnapshot {
    /// Confirm was pressed this frame.
    pub confirm: bool,
    /// Menu navigation, edge-triggered.
    pub left_pressed: bool,
    pub right_pressed: bool,
    /// Jump, edge-triggered.
    pub up_pressed: bool,
    /// Fast fall, level-triggered.
    pub down_held: bool,
    /// Horizontal movement, level-triggered.
    pub left_held: bool,
    pub right_held: bool,
}

impl InputSnapshot {
    /// A frame with no input at all.
    pub fn idle() -> (s: InputSnapshot)
        ensures
            s == (InputSnapshot {
                confirm: false,
                left_pressed: false,
                right_pressed: false,
                up_pressed: false,
                down_held: false,
                left_held: false,
                right_held: false,
            }),
    {
        InputSnapshot {
            confirm: false,
            left_pressed: false,
            right_pressed: false,
            up_pressed: false,
            down_held: false,
            left_held: false,
            right_held: false,
        }
    }
}

/// The random draws one frame may consume, each already reduced to its
/// range. A frame in a given turn reads only the fields that turn needs.
#[derive(Clone, Copy, PartialEq, Eq, Structural, Debug)]
pub struct FrameRand {
    /// Pattern generator chosen on entering the enemy turn.
    pub blue_mode: bool,
    /// Which flavor line the Act action shows.
    pub act_index: usize,
    /// Which taunt line opens the enemy turn.
    pub taunt_index: usize,
    /// Which platform-mode wave shape spawns.
    pub pattern: usize,
    /// Top of the safe gap of an evasive-mode wave.
    pub gap_y: i32,
}

impl FrameRand {
    /// Every draw lies in the range its consumer expects.
    pub open spec fn wf(self) -> bool {
        &&& self.act_index < 5
        &&& self.taunt_index < 10
        &&& self.pattern < 3
        &&& crate::combat::GAP_MIN_Y <= self.gap_y < crate::combat::GAP_MAX_Y
    }
}

} // verus!
