//! The game module's two entry points, seen as decisions: what `load` sets up
//! and asks of the GPU, and how `update` turns a frame's input into the next
//! game state.
//!
//! Numbers that are not whole (positions, angles, time) are only carried
//! here. Where a decision depends on one, the host makes the comparison and
//! hands over the outcome; where one has to change, the host is told how.

use crate::assets::{GLData, ImageId};
use crate::controls::{closes_window, last_resize, Controls, InputEvent};
use crate::entity::{next_frame, CrattleCrute, BODY_KEY_PRIMARY};
use crate::image::BufferUsage;
use crate::shader::CompileReport;
use crate::sprite::{Scalar, Sprite, SpriteType3Color1};
use crate::vecmath::Vec2;
use vstd::prelude::*;

verus! {

/// The number of players, and so of records in each creature part's
/// instance buffer.
pub const PLAYER_COUNT: usize = 2;

/// How far a creature walks in a second, in pixels: the number 100 as a bit
/// pattern.
pub const WALK_SPEED: u32 = 0x42c8_0000;

/// How far a creature turns in a second, in radians: the number 3.14159 as a
/// bit pattern.
pub const TURN_SPEED: u32 = 0x4049_0fd0;

/// The length of the span after which the frames per second are taken, in
/// seconds: the number 1 as a bit pattern.
pub const FPS_SPAN: u32 = 0x3f80_0000;

/// The scale that every program is given after it linked: the number 2 as a
/// bit pattern.
pub const SPRITE_SCALE: u32 = 0x4000_0000;

/// The persistent state of the simulation.
#[derive(Clone, Copy, Debug, PartialEq, Eq)]
pub struct GameData {
    /// The frames counted in the last full span.
    pub fps: i32,
    /// The time since the last count, in seconds. The host keeps it.
    pub time_counter: Scalar,
    /// The frames since the last count.
    pub frame_counter: i32,
    /// The camera's position, in pixels.
    pub cam_pos: Vec2<Scalar>,
    pub controls: Controls,
    pub player: CrattleCrute,
    pub player2: CrattleCrute,
}

/// One thing that `load` asks the host to do on the GPU.
#[derive(Clone, Copy, Debug, PartialEq, Eq, Structural)]
pub enum LoadStep {
    /// Switch on blending by source alpha.
    EnableBlending,
    /// Make the vertex array and the vertex and element buffers of the unit
    /// quad, fill them, and record their handles.
    CreateSquare,
    /// Build the program of every sprite kind and hand the outcomes to the
    /// shader registry.
    CompileShaders,
    /// Send the camera position to every program.
    PushCamera,
    /// Decode the image, send it to the GPU, make its instance buffer, and
    /// hand both to the asset.
    LoadImage { image: ImageId },
    /// Size the asset's instance buffer for `count` records.
    AllocateInstances { image: ImageId, count: usize, usage: BufferUsage },
}

/// What a compile pass means for the load that ran it.
#[derive(Clone, Copy, Debug, PartialEq, Eq, Structural)]
pub enum LoadVerdict {
    /// Every program built.
    Ready,
    /// Some program did not build, on a reload: the programs from before
    /// stay in use, the failed kinds are to be logged, and the game goes on.
    Degraded,
    /// Some program did not build, on the first load: nothing can be drawn.
    Fatal,
}

/// A change that the host has to make to the first player, by the time that
/// has passed since the last frame.
#[derive(Clone, Copy, Debug, PartialEq, Eq, Structural)]
pub enum Motion {
    /// The position's `x` goes down by the walk speed times the time passed.
    WalkLeft,
    /// The position's `x` goes up by the walk speed times the time passed.
    WalkRight,
    /// The angle goes up by the turn speed times the time passed.
    TurnUp,
    /// The angle goes down by the turn speed times the time passed.
    TurnDown,
}

/// What `update` decides beside the new game state.
#[derive(Clone, Debug, PartialEq, Eq)]
pub struct Tick {
    /// Escape was pressed: the window should close.
    pub close_requested: bool,
    /// The window's new size, if it was resized: the viewport follows it.
    pub resized: Option<(i32, i32)>,
    /// The changes to the first player's position and angle, to make in this
    /// order.
    pub motions: Vec<Motion>,
}

/// The steps of the first load.
pub open spec fn first_load_steps() -> Seq<LoadStep> {
    seq![
        LoadStep::EnableBlending,
        LoadStep::CreateSquare,
        LoadStep::CompileShaders,
        LoadStep::PushCamera,
        LoadStep::LoadImage { image: ImageId::CrattlecruteFrontFoot },
        LoadStep::LoadImage { image: ImageId::CrattlecruteBody },
        LoadStep::LoadImage { image: ImageId::CrattlecruteBackFoot },
        LoadStep::LoadImage { image: ImageId::Eye1 },
        LoadStep::LoadImage { image: ImageId::TestSpin },
        LoadStep::AllocateInstances {
            image: ImageId::CrattlecruteFrontFoot,
            count: PLAYER_COUNT,
            usage: BufferUsage::DynamicDraw,
        },
        LoadStep::AllocateInstances {
            image: ImageId::CrattlecruteBody,
            count: PLAYER_COUNT,
            usage: BufferUsage::DynamicDraw,
        },
        LoadStep::AllocateInstances {
            image: ImageId::CrattlecruteBackFoot,
            count: PLAYER_COUNT,
            usage: BufferUsage::DynamicDraw,
        },
        LoadStep::AllocateInstances {
            image: ImageId::Eye1,
            count: PLAYER_COUNT,
            usage: BufferUsage::DynamicDraw,
        },
        LoadStep::AllocateInstances {
            image: ImageId::TestSpin,
            count: PLAYER_COUNT,
            usage: BufferUsage::DynamicDraw,
        },
    ]
}

/// The steps of a reload: only what does not survive the swap of the game
/// module is made again.
pub open spec fn reload_steps() -> Seq<LoadStep> {
    seq![LoadStep::CompileShaders, LoadStep::PushCamera]
}

/// The changes to the first player that the held controls call for, in
/// order: walking left, walking right, then the turns. `flipped` is the
/// creature's flip after the walking is settled; a flipped creature turns
/// the other way.
pub open spec fn motions_of(controls: Controls, flipped: bool) -> Seq<Motion> {
    (if controls.left.this_frame {
        seq![Motion::WalkLeft]
    } else {
        Seq::empty()
    }) + (if controls.right.this_frame {
        seq![Motion::WalkRight]
    } else {
        Seq::empty()
    }) + (if controls.up.this_frame {
        seq![
            if flipped {
                Motion::TurnDown
            } else {
                Motion::TurnUp
            },
        ]
    } else {
        Seq::empty()
    }) + (if controls.down.this_frame {
        seq![
            if flipped {
                Motion::TurnUp
            } else {
                Motion::TurnDown
            },
        ]
    } else {
        Seq::empty()
    })
}

/// The flip of the first player after the walking of a frame: walking left
/// flips the creature, walking right, which is settled last, flips it back.
pub open spec fn flip_of(controls: Controls, flipped: bool) -> bool {
    if controls.right.this_frame {
        false
    } else if controls.left.this_frame {
        true
    } else {
        flipped
    }
}

impl GameData {
    /// The state in which everything is zero and nothing is held.
    pub open spec fn blank() -> GameData {
        let zero = Scalar { bits: 0 };
        let nobody = CrattleCrute {
            position: Vec2 { x: zero, y: zero },
            frame: 0,
            flipped: false,
            angle: zero,
            body_color: Vec2 { x: 0, y: 0 },
            left_foot_color: Vec2 { x: 0, y: 0 },
            right_foot_color: Vec2 { x: 0, y: 0 },
            eye_color: 0,
        };
        GameData {
            fps: 0,
            time_counter: zero,
            frame_counter: 0,
            cam_pos: Vec2 { x: zero, y: zero },
            controls: Controls::released(),
            player: nobody,
            player2: nobody,
        }
    }

    /// The state that the first load leaves: the camera at the origin, the
    /// two players in their colors, the second player at `(-40, -40)`.
    /// Everything else is as it was.
    pub open spec fn started(self) -> GameData {
        let feet = Vec2 { x: 0xBB98E2FFu32, y: 0x9F67E0FFu32 };
        let second = Vec2 { x: 0xD66FC8FFu32, y: 0xD693E4FFu32 };
        GameData {
            cam_pos: Vec2 { x: Scalar { bits: 0 }, y: Scalar { bits: 0 } },
            player: CrattleCrute {
                body_color: Vec2 { x: 0x0026FFFFu32, y: 0x1979FFFFu32 },
                left_foot_color: feet,
                right_foot_color: feet,
                eye_color: 0xDD304AFF,
                ..self.player
            },
            player2: CrattleCrute {
                body_color: second,
                left_foot_color: second,
                right_foot_color: second,
                eye_color: second.x,
                position: Vec2 { x: Scalar { bits: 0xc220_0000 }, y: Scalar { bits: 0xc220_0000 } },
                ..self.player2
            },
            ..self
        }
    }

    /// The state after the frame count of one frame. When the span is over,
    /// the frames counted become the frames per second, both counters start
    /// over, and the second player moves to its next animation frame.
    pub open spec fn counted(self, span_over: bool) -> GameData {
        if span_over {
            GameData {
                fps: (self.frame_counter + 1) as i32,
                frame_counter: 0,
                time_counter: Scalar { bits: 0 },
                player2: CrattleCrute { frame: next_frame(self.player2.frame), ..self.player2 },
                ..self
            }
        } else {
            GameData { frame_counter: (self.frame_counter + 1) as i32, ..self }
        }
    }

    /// The state after the controls have steered the first player: its flip
    /// follows the walking, and the debug control, when it just went down,
    /// moves it to its next animation frame.
    pub open spec fn steered(self) -> GameData {
        GameData {
            player: CrattleCrute {
                flipped: flip_of(self.controls, self.player.flipped),
                frame: if self.controls.debug.this_frame && !self.controls.debug.last_frame {
                    next_frame(self.player.frame)
                } else {
                    self.player.frame
                },
                ..self.player
            },
            ..self
        }
    }

    /// The state after one `update`: the frame is counted, the controls move
    /// to the new frame and take the frame's events, and the first player is
    /// steered.
    pub open spec fn after_update(self, events: Seq<InputEvent>, span_over: bool) -> GameData {
        let counted = self.counted(span_over);
        (GameData {
            controls: counted.controls.advanced().after_events(events),
            ..counted
        }).steered()
    }

    /// The record that the test sprite is drawn from: the first player's eye
    /// color on the body image, placed by the player's angle and height and
    /// flipped against the player.
    pub open spec fn spin(self) -> SpriteType3Color1 {
        SpriteType3Color1 {
            position: Vec2 { x: self.player.angle, y: self.player.position.y },
            frame: 0,
            flipped: if self.player.flipped {
                0
            } else {
                1
            },
            angle: self.player.angle,
            focus: Vec2 { x: 21, y: 52 },
            color_swap: Vec2 { x: BODY_KEY_PRIMARY, y: self.player.eye_color },
        }
    }

    /// The records that an asset's instance buffer gets in a frame: slot 0
    /// is the first player's, slot 1 the second player's. The eyes turn by
    /// the angles given.
    pub open spec fn records_for(self, image: ImageId, eye_angle: Scalar, eye_angle2: Scalar)
        -> Seq<Sprite> {
        match image {
            ImageId::Eye1 => seq![
                Sprite::Type3Color1(self.player.eye(eye_angle)),
                Sprite::Type3Color1(self.player2.eye(eye_angle2)),
            ],
            ImageId::CrattlecruteFrontFoot => seq![
                Sprite::Type2Color2(self.player.right_foot()),
                Sprite::Type2Color2(self.player2.right_foot()),
            ],
            ImageId::CrattlecruteBody => seq![
                Sprite::Type2Color2(self.player.body()),
                Sprite::Type2Color2(self.player2.body()),
            ],
            ImageId::CrattlecruteBackFoot => seq![
                Sprite::Type2Color2(self.player.left_foot()),
                Sprite::Type2Color2(self.player2.left_foot()),
            ],
            ImageId::TestSpin => seq![Sprite::Type3Color1(self.spin())],
        }
    }

    /// The state before the first load: everything zero, nothing held.
    pub fn new() -> (game: GameData)
        ensures
            game == GameData::blank(),
            game.player.wf(),
            game.player2.wf(),
    {
        let zero = Scalar { bits: 0 };
        let nobody = CrattleCrute {
            position: Vec2::new(zero, zero),
            frame: 0,
            flipped: false,
            angle: zero,
            body_color: Vec2::new(0, 0),
            left_foot_color: Vec2::new(0, 0),
            right_foot_color: Vec2::new(0, 0),
            eye_color: 0,
        };
        GameData {
            fps: 0,
            time_counter: zero,
            frame_counter: 0,
            cam_pos: Vec2::new(zero, zero),
            controls: Controls::new(),
            player: nobody,
            player2: nobody,
        }
    }

    /// Counts one frame. `span_over` says whether the time counter has
    /// reached the span after which the frames per second are taken.
    pub fn count_frame(&mut self, span_over: bool)
        requires
            old(self).frame_counter < i32::MAX,
            old(self).player2.frame < i32::MAX,
        ensures
            *final(self) == old(self).counted(span_over),
    {
        self.frame_counter = self.frame_counter + 1;
        if span_over {
            self.fps = self.frame_counter;
            self.frame_counter = 0;
            self.time_counter = Scalar { bits: 0 };
            self.player2.advance_frame();
        }
    }

    /// Steers the first player by the controls as they stand: settles its
    /// flip and its animation frame, and lists the changes to its position
    /// and angle that are left to the host.
    pub fn steer(&mut self) -> (motions: Vec<Motion>)
        requires
            old(self).player.frame < i32::MAX,
        ensures
            *final(self) == old(self).steered(),
            motions@ == motions_of(old(self).controls, final(self).player.flipped),
    {
        let controls = self.controls;
        let mut motions: Vec<Motion> = Vec::new();
        if controls.left.down() {
            motions.push(Motion::WalkLeft);
            self.player.flipped = true;
        }
        let ghost walked_left = motions@;
        if controls.right.down() {
            motions.push(Motion::WalkRight);
            self.player.flipped = false;
        }
        let ghost walked = motions@;
        let flipped = self.player.flipped;
        assert(flipped == flip_of(controls, old(self).player.flipped));
        if controls.up.down() {
            motions.push(
                if flipped {
                    Motion::TurnDown
                } else {
                    Motion::TurnUp
                },
            );
        }
        let ghost turned_up = motions@;
        if controls.down.down() {
            motions.push(
                if flipped {
                    Motion::TurnUp
                } else {
                    Motion::TurnDown
                },
            );
        }
        assert(motions@ =~= motions_of(controls, flipped)) by {
            assert(walked_left =~= if controls.left.this_frame {
                seq![Motion::WalkLeft]
            } else {
                Seq::empty()
            });
            assert(walked =~= walked_left + if controls.right.this_frame {
                seq![Motion::WalkRight]
            } else {
                Seq::empty()
            });
            assert(turned_up =~= walked + if controls.up.this_frame {
                seq![
                    if flipped {
                        Motion::TurnDown
                    } else {
                        Motion::TurnUp
                    },
                ]
            } else {
                Seq::empty()
            });
        }
        if controls.debug.just_down() {
            self.player.advance_frame();
        }
        motions
    }

    /// Sets up the simulation for the first load.
    pub fn start(&mut self)
        ensures
            *final(self) == old(self).started(),
    {
        self.cam_pos = Vec2::new(Scalar { bits: 0 }, Scalar { bits: 0 });

        let p1footcolor = Vec2::new(0xBB98E2FF, 0x9F67E0FF);
        self.player.body_color = Vec2::new(0x0026FFFF, 0x1979FFFF);
        self.player.left_foot_color = p1footcolor;
        self.player.right_foot_color = p1footcolor;
        self.player.eye_color = 0xDD304AFF;

        let color2 = Vec2::new(0xD66FC8FF, 0xD693E4FF);
        self.player2.body_color = color2;
        self.player2.left_foot_color = color2;
        self.player2.right_foot_color = color2;
        self.player2.eye_color = color2.x;
        self.player2.position = Vec2::new(
            Scalar { bits: 0xc220_0000 },
            Scalar { bits: 0xc220_0000 },
        );
    }
}

/// Begins a load of the game module. On the first load the simulation is set
/// up and the asset table declared, and the steps that follow build every GPU
/// resource. On a reload the game state and the GPU resources are taken as
/// they are, and only the shader programs are built again.
pub fn load(first_load: bool, game: &mut GameData, gl_data: &mut GLData) -> (steps: Vec<LoadStep>)
    ensures
        first_load ==> {
            &&& *final(game) == old(game).started()
            &&& final(gl_data).images.declared()
            &&& final(gl_data).vao == old(gl_data).vao
            &&& final(gl_data).square_vbo == old(gl_data).square_vbo
            &&& final(gl_data).square_ebo == old(gl_data).square_ebo
            &&& final(gl_data).shaders == old(gl_data).shaders
            &&& steps@ == first_load_steps()
        },
        !first_load ==> {
            &&& *final(game) == *old(game)
            &&& *final(gl_data) == *old(gl_data)
            &&& steps@ == reload_steps()
        },
{
    let mut steps: Vec<LoadStep> = Vec::new();
    if first_load {
        game.start();
        gl_data.images.init();
        steps.push(LoadStep::EnableBlending);
        steps.push(LoadStep::CreateSquare);
        steps.push(LoadStep::CompileShaders);
        steps.push(LoadStep::PushCamera);
        steps.push(LoadStep::LoadImage { image: ImageId::CrattlecruteFrontFoot });
        steps.push(LoadStep::LoadImage { image: ImageId::CrattlecruteBody });
        steps.push(LoadStep::LoadImage { image: ImageId::CrattlecruteBackFoot });
        steps.push(LoadStep::LoadImage { image: ImageId::Eye1 });
        steps.push(LoadStep::LoadImage { image: ImageId::TestSpin });
        let plr_count = PLAYER_COUNT;
        steps.push(
            LoadStep::AllocateInstances {
                image: ImageId::CrattlecruteFrontFoot,
                count: plr_count,
                usage: BufferUsage::DynamicDraw,
            },
        );
        steps.push(
            LoadStep::AllocateInstances {
                image: ImageId::CrattlecruteBody,
                count: plr_count,
                usage: BufferUsage::DynamicDraw,
            },
        );
        steps.push(
            LoadStep::AllocateInstances {
                image: ImageId::CrattlecruteBackFoot,
                count: plr_count,
                usage: BufferUsage::DynamicDraw,
            },
        );
        steps.push(
            LoadStep::AllocateInstances {
                image: ImageId::Eye1,
                count: plr_count,
                usage: BufferUsage::DynamicDraw,
            },
        );
        steps.push(
            LoadStep::AllocateInstances {
                image: ImageId::TestSpin,
                count: plr_count,
                usage: BufferUsage::DynamicDraw,
            },
        );
        assert(steps@ =~= first_load_steps());
    } else {
        steps.push(LoadStep::CompileShaders);
        steps.push(LoadStep::PushCamera);
        assert(steps@ =~= reload_steps());
    }
    steps
}

/// Judges the compile pass of a load. A failure is fatal on the first load
/// and tolerated on a reload.
pub fn compile_verdict(first_load: bool, report: &CompileReport) -> (verdict: LoadVerdict)
    ensures
        verdict == if report.failed@.len() == 0 {
            LoadVerdict::Ready
        } else if first_load {
            LoadVerdict::Fatal
        } else {
            LoadVerdict::Degraded
        },
{
    if report.failed.len() == 0 {
        LoadVerdict::Ready
    } else if first_load {
        LoadVerdict::Fatal
    } else {
        LoadVerdict::Degraded
    }
}

/// Advances the game by one frame, up to the changes that the host has to
/// make itself. `span_over` says whether the time counter, with this frame's
/// time added, has reached `FPS_SPAN`. The frame is counted; the controls
/// move to the new frame and take the events, all of them, in order; the
/// first player is flipped and animated as the controls say. The result
/// lists what is left to the host.
pub fn update(game: &mut GameData, events: &Vec<InputEvent>, span_over: bool) -> (tick: Tick)
    requires
        old(game).frame_counter < i32::MAX,
        old(game).player.frame < i32::MAX,
        old(game).player2.frame < i32::MAX,
    ensures
        *final(game) == old(game).after_update(events@, span_over),
        tick.close_requested == (exists|i: int|
            0 <= i < events@.len() && closes_window(#[trigger] events@[i])),
        tick.resized == last_resize(events@),
        tick.motions@ == motions_of(final(game).controls, final(game).player.flipped),
        old(game).player.wf() ==> final(game).player.wf(),
        old(game).player2.wf() ==> final(game).player2.wf(),
{
    game.count_frame(span_over);
    game.controls.advance();
    let input = game.controls.handle_events(events);
    let motions = game.steer();
    Tick { close_requested: input.close_requested, resized: input.resized, motions: motions }
}

} // verus!
