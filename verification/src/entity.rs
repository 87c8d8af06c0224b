//! The creature that the players steer, and the instance records that its
//! body parts are drawn from.

use crate::sprite::{Scalar, SpriteType2Color2, SpriteType3Color1};
use crate::vecmath::Vec2;
use vstd::prelude::*;

verus! {

/// The number of animation frames of a creature.
pub const CREATURE_FRAMES: i32 = 9;

/// The color in the body image that stands for the primary body color.
pub const BODY_KEY_PRIMARY: u32 = 0x0094FFFF;

/// The color in the body image that stands for the secondary body color.
pub const BODY_KEY_SECONDARY: u32 = 0x00C7FFFF;

/// The color in a foot image that stands for the primary foot color.
pub const FOOT_KEY_PRIMARY: u32 = 0xFF0000FF;

/// The color in a foot image that stands for the secondary foot color.
pub const FOOT_KEY_SECONDARY: u32 = 0xDB002FFF;

/// The color in the eye image that stands for the eye color.
pub const EYE_KEY: u32 = 0x5900FFFF;

/// A creature. Colors come in pairs of primary (`x`) and secondary (`y`).
#[derive(Clone, Copy, Debug, PartialEq, Eq)]
pub struct CrattleCrute {
    pub position: Vec2<Scalar>,
    pub frame: i32,
    pub flipped: bool,
    pub angle: Scalar,
    pub body_color: Vec2<u32>,
    pub left_foot_color: Vec2<u32>,
    pub right_foot_color: Vec2<u32>,
    pub eye_color: u32,
}

/// Where the eye sits in one animation frame of the body, and by how much it
/// is turned there.
#[derive(Clone, Copy, Debug, PartialEq, Eq)]
pub struct Offset {
    pub pos: Vec2<i32>,
    pub angle: Scalar,
}

/// The horizontal eye position in each animation frame.
pub open spec fn eye_offsets_x() -> Seq<i32> {
    seq![16, 17, 18, 18, 17, 17, 18, 18, 17]
}

/// The vertical eye position in each animation frame.
pub open spec fn eye_offsets_y() -> Seq<i32> {
    seq![21, 21, 20, 20, 20, 21, 20, 20, 20]
}

/// The eye's placement in the given animation frame. The eye is not turned
/// in any frame: the angle is the number zero.
pub fn eye_offset(frame: usize) -> (offset: Offset)
    requires
        frame < CREATURE_FRAMES,
    ensures
        offset.pos.x == eye_offsets_x()[frame as int],
        offset.pos.y == eye_offsets_y()[frame as int],
        offset.angle == (Scalar { bits: 0 }),
{
    let x: i32 = if frame == 0 {
        16
    } else if frame == 1 || frame == 4 || frame == 5 || frame == 8 {
        17
    } else {
        18
    };
    let y: i32 = if frame == 0 || frame == 1 || frame == 5 {
        21
    } else {
        20
    };
    Offset { pos: Vec2::new(x, y), angle: Scalar { bits: 0 } }
}

/// The frame that follows `frame` in the animation cycle: the next one, and
/// after the last the cycle starts over at frame 1.
pub open spec fn next_frame(frame: i32) -> i32 {
    if frame + 1 >= CREATURE_FRAMES {
        1
    } else {
        (frame + 1) as i32
    }
}

impl CrattleCrute {
    /// The creature's frame is one of its animation frames.
    pub open spec fn wf(&self) -> bool {
        0 <= self.frame < CREATURE_FRAMES
    }

    /// The flip flag as a record holds it.
    pub open spec fn flip_flag(self) -> i32 {
        if self.flipped {
            1
        } else {
            0
        }
    }

    /// The record of a body part with the given color swaps.
    pub open spec fn part(self, swap_1: Vec2<u32>, swap_2: Vec2<u32>) -> SpriteType2Color2 {
        SpriteType2Color2 {
            position: self.position,
            frame: self.frame,
            flipped: self.flip_flag(),
            angle: self.angle,
            color_swap_1: swap_1,
            color_swap_2: swap_2,
        }
    }

    /// The record of the body.
    pub open spec fn body(self) -> SpriteType2Color2 {
        self.part(
            Vec2 { x: BODY_KEY_PRIMARY, y: self.body_color.x },
            Vec2 { x: BODY_KEY_SECONDARY, y: self.body_color.y },
        )
    }

    /// The record of the left foot.
    pub open spec fn left_foot(self) -> SpriteType2Color2 {
        self.part(
            Vec2 { x: FOOT_KEY_PRIMARY, y: self.left_foot_color.x },
            Vec2 { x: FOOT_KEY_SECONDARY, y: self.left_foot_color.y },
        )
    }

    /// The record of the right foot.
    pub open spec fn right_foot(self) -> SpriteType2Color2 {
        self.part(
            Vec2 { x: FOOT_KEY_PRIMARY, y: self.right_foot_color.x },
            Vec2 { x: FOOT_KEY_SECONDARY, y: self.right_foot_color.y },
        )
    }

    /// The record of the eye, turned by `angle`.
    pub open spec fn eye(self, angle: Scalar) -> SpriteType3Color1 {
        SpriteType3Color1 {
            position: self.position,
            frame: 0,
            flipped: self.flip_flag(),
            angle: angle,
            focus: Vec2 {
                x: (2 - eye_offsets_x()[self.frame as int]) as i32,
                y: (0 - eye_offsets_y()[self.frame as int]) as i32,
            },
            color_swap: Vec2 { x: EYE_KEY, y: self.eye_color },
        }
    }

    /// Tests whether the creature's frame is one of its animation frames.
    pub fn is_wf(&self) -> (sound: bool)
        ensures
            sound == self.wf(),
    {
        0 <= self.frame && self.frame < CREATURE_FRAMES
    }

    /// Moves the creature to the next frame of its animation cycle.
    pub fn advance_frame(&mut self)
        requires
            old(self).frame < i32::MAX,
        ensures
            *final(self) == (CrattleCrute { frame: next_frame(old(self).frame), ..*old(self) }),
            old(self).wf() ==> final(self).wf(),
    {
        self.frame = self.frame + 1;
        if self.frame >= CREATURE_FRAMES {
            self.frame = 1;
        }
    }

    /// The record of a body part: the creature's placement, frame, flip and
    /// angle, with the two color swaps given.
    pub fn sprite(&self, color_swap_1: Vec2<u32>, color_swap_2: Vec2<u32>) -> (record:
        SpriteType2Color2)
        ensures
            record == self.part(color_swap_1, color_swap_2),
    {
        SpriteType2Color2 {
            position: self.position,
            frame: self.frame,
            flipped: if self.flipped {
                1
            } else {
                0
            },
            angle: self.angle,
            color_swap_1: color_swap_1,
            color_swap_2: color_swap_2,
        }
    }

    /// The record of the body: the body image's key colors give way to the
    /// creature's body colors.
    pub fn body_sprite(&self) -> (record: SpriteType2Color2)
        ensures
            record == self.body(),
    {
        self.sprite(
            Vec2::new(BODY_KEY_PRIMARY, self.body_color.x),
            Vec2::new(BODY_KEY_SECONDARY, self.body_color.y),
        )
    }

    /// The record of the left foot, in the left foot's colors.
    pub fn left_foot_sprite(&self) -> (record: SpriteType2Color2)
        ensures
            record == self.left_foot(),
    {
        self.sprite(
            Vec2::new(FOOT_KEY_PRIMARY, self.left_foot_color.x),
            Vec2::new(FOOT_KEY_SECONDARY, self.left_foot_color.y),
        )
    }

    /// The record of the right foot, in the right foot's colors.
    pub fn right_foot_sprite(&self) -> (record: SpriteType2Color2)
        ensures
            record == self.right_foot(),
    {
        self.sprite(
            Vec2::new(FOOT_KEY_PRIMARY, self.right_foot_color.x),
            Vec2::new(FOOT_KEY_SECONDARY, self.right_foot_color.y),
        )
    }

    /// The record of the eye. It is drawn from frame 0 of the eye image and
    /// turns about a focal point that depends on the body's animation frame:
    /// `(2, 0)` less the eye's position in that frame. `angle` is the eye's
    /// angle: the creature's angle and the frame's own turn, added up by the
    /// caller.
    pub fn eye_sprite(&self, angle: Scalar) -> (record: SpriteType3Color1)
        requires
            self.wf(),
        ensures
            record == self.eye(angle),
    {
        let offset = eye_offset(self.frame as usize);
        SpriteType3Color1 {
            position: self.position,
            frame: 0,
            flipped: if self.flipped {
                1
            } else {
                0
            },
            angle: angle,
            focus: Vec2::new(2, 0) - offset.pos,
            color_swap: Vec2::new(EYE_KEY, self.eye_color),
        }
    }
}

} // verus!
