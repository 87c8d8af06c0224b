//! The registry of compiled shader programs: one per sprite kind, replaced
//! on reload only by a program that linked.

use crate::glsl::{Attribute, Backing, GlslType, ShaderVariant};
use vstd::prelude::*;

verus! {

/// The name of the camera position uniform in every variant's vertex source.
pub const CAM_POS_UNIFORM: &'static str = "cam_pos";

/// The name of the scale uniform.
pub const SCALE_UNIFORM: &'static str = "scale";

/// The name of the sprite size uniform.
pub const SPRITE_SIZE_UNIFORM: &'static str = "sprite_size";

/// The name of the screen size uniform.
pub const SCREEN_SIZE_UNIFORM: &'static str = "screen_size";

/// The name of the texture sampler uniform.
pub const TEX_UNIFORM: &'static str = "tex";

/// The name of the frame table uniform.
pub const FRAMES_UNIFORM: &'static str = "frames";

/// The vertex body of the plain kind: frames and flipping only.
pub const PLAIN_VERTEX_MAIN: &'static str = "
void main()
{
   vec2 pixel_screen_pos = (position - cam_pos) * 2.0;
   gl_Position = vec4(
       (vertex_pos * from_pixel(sprite_size) + from_pixel(pixel_screen_pos)) * scale,
       0.0f, 1.0f
   );
   int index = flipped != 0 ? flipped_vertex_id() : gl_VertexID;
   if (frame == -1)
       texcoord = TEXCOORD_FROM_ID[index];
   else
       texcoord = frames[frame * 4 + index];
   texcoord.y = 1.0 - texcoord.y;
}
";

/// The fragment body of the plain kind.
pub const PLAIN_FRAGMENT_MAIN: &'static str = "
void main()
{
   color = texture(tex, texcoord);
}
";

/// The vertex body of the kind that turns about its center and swaps two
/// colors.
pub const CENTERED_VERTEX_MAIN: &'static str = "
out vec4 cswap1_from;
out vec4 cswap1_to;
out vec4 cswap2_from;
out vec4 cswap2_to;

void main()
{
    vec2 pixel_screen_pos = (position - cam_pos) * 2.0;

    float vert_angle = angle + ANGLE_OFFSETS[gl_VertexID];
    vec2 vert = VERT_DIST * vec2(cos(vert_angle), sin(vert_angle)) + vec2(1.0, 1.0);

    gl_Position = vec4(
        (vert * from_pixel(sprite_size) + from_pixel(pixel_screen_pos)) * scale,
        0.0f, 1.0f
    );
    int index = flipped != 0 ? flipped_vertex_id() : gl_VertexID;
    if (frame == -1)
        texcoord = TEXCOORD_FROM_ID[index];
    else
        texcoord = frames[frame * 4 + index];
    texcoord.y = 1.0 - texcoord.y;

    cswap1_from = color_from(color_swap_1.x);
    cswap1_to   = color_from(color_swap_1.y);
    cswap2_from = color_from(color_swap_2.x);
    cswap2_to   = color_from(color_swap_2.y);
}
";

/// The fragment body of the kind that swaps two colors: a sampled color
/// within the tolerance of a key color is replaced.
pub const CENTERED_FRAGMENT_MAIN: &'static str = "
in vec4 cswap1_from;
in vec4 cswap1_to;
in vec4 cswap2_from;
in vec4 cswap2_to;

void main()
{
   color = texture(tex, texcoord);

   if (approx(color, cswap1_from, 0.1))
       color = cswap1_to;
   else if (approx(color, cswap2_from, 0.1))
       color = cswap2_to;
}
";

/// The vertex body of the kind that turns about a focal point and swaps one
/// color.
pub const FOCAL_VERTEX_MAIN: &'static str = "
out vec4 cswap_from;
out vec4 cswap_to;

void main()
{
    vec2 pixel_screen_pos = (position - cam_pos) * 2.0;
    vec2 rel_focus = vec2(focus) / sprite_size * 2.0;

    vec2 vert_offset = vertex_pos - rel_focus;
    float vert_angle = angle + atan(vert_offset.y, vert_offset.x);
    vec2 direction   = vec2(cos(vert_angle), sin(vert_angle));
    float distance   = sqrt(dot(vert_offset, vert_offset));

    vec2 vert = distance * direction + rel_focus;

    gl_Position = vec4(
        (vert * from_pixel(sprite_size) + from_pixel(pixel_screen_pos)) * scale,
        0.0f, 1.0f
    );

    int index = flipped != 0 ? flipped_vertex_id() : gl_VertexID;
    if (frame == -1)
        texcoord = TEXCOORD_FROM_ID[index];
    else
        texcoord = frames[frame * 4 + index];
    texcoord.y = 1.0 - texcoord.y;

    cswap_from = color_from(color_swap.x);
    cswap_to   = color_from(color_swap.y);
}
";

/// The fragment body of the kind that swaps one color.
pub const FOCAL_FRAGMENT_MAIN: &'static str = "
in vec4 cswap_from;
in vec4 cswap_to;

void main()
{
   color = texture(tex, texcoord);

   if (approx(color, cswap_from, 0.1))
       color = cswap_to;
}
";

/// The kinds of sprite that the renderer draws, each with a shader variant
/// of its own.
#[derive(Clone, Copy, Debug, PartialEq, Eq, Structural)]
pub enum SpriteKind {
    /// Frames and flipping only.
    SpriteType1,
    /// Turns about its center; two colors can be swapped.
    SpriteType2Color2,
    /// Turns about a focal point; one color can be swapped.
    SpriteType3Color1,
}

/// The attributes that all kinds start with: position, frame and flip flag.
pub open spec fn common_schema() -> Seq<Attribute> {
    seq![
        Attribute {
            location: 1,
            glsl_type: GlslType::Vec2,
            backing: Backing::RealPair,
            name: "position",
        },
        Attribute { location: 2, glsl_type: GlslType::Int, backing: Backing::Int, name: "frame" },
        Attribute { location: 3, glsl_type: GlslType::Int, backing: Backing::Int, name: "flipped" },
    ]
}

impl SpriteKind {
    /// The kind's name, as reports of failed compilations give it.
    pub open spec fn label(self) -> Seq<char> {
        match self {
            SpriteKind::SpriteType1 => "SpriteType1"@,
            SpriteKind::SpriteType2Color2 => "SpriteType2Color2"@,
            SpriteKind::SpriteType3Color1 => "SpriteType3Color1"@,
        }
    }

    /// The per-instance attributes of the kind, in the order of an instance
    /// record.
    pub open spec fn schema(self) -> Seq<Attribute> {
        match self {
            SpriteKind::SpriteType1 => common_schema(),
            SpriteKind::SpriteType2Color2 => common_schema() + seq![
                Attribute {
                    location: 4,
                    glsl_type: GlslType::Float,
                    backing: Backing::Real,
                    name: "angle",
                },
                Attribute {
                    location: 5,
                    glsl_type: GlslType::IVec2,
                    backing: Backing::UIntPair,
                    name: "color_swap_1",
                },
                Attribute {
                    location: 6,
                    glsl_type: GlslType::IVec2,
                    backing: Backing::UIntPair,
                    name: "color_swap_2",
                },
            ],
            SpriteKind::SpriteType3Color1 => common_schema() + seq![
                Attribute {
                    location: 4,
                    glsl_type: GlslType::Float,
                    backing: Backing::Real,
                    name: "angle",
                },
                Attribute {
                    location: 5,
                    glsl_type: GlslType::IVec2,
                    backing: Backing::IntPair,
                    name: "focus",
                },
                Attribute {
                    location: 6,
                    glsl_type: GlslType::IVec2,
                    backing: Backing::UIntPair,
                    name: "color_swap",
                },
            ],
        }
    }

    /// The body of the kind's vertex stage.
    pub open spec fn vertex_body(self) -> Seq<char> {
        match self {
            SpriteKind::SpriteType1 => PLAIN_VERTEX_MAIN@,
            SpriteKind::SpriteType2Color2 => CENTERED_VERTEX_MAIN@,
            SpriteKind::SpriteType3Color1 => FOCAL_VERTEX_MAIN@,
        }
    }

    /// The body of the kind's fragment stage.
    pub open spec fn fragment_body(self) -> Seq<char> {
        match self {
            SpriteKind::SpriteType1 => PLAIN_FRAGMENT_MAIN@,
            SpriteKind::SpriteType2Color2 => CENTERED_FRAGMENT_MAIN@,
            SpriteKind::SpriteType3Color1 => FOCAL_FRAGMENT_MAIN@,
        }
    }

    /// The kind's name.
    pub fn name(self) -> (name: &'static str)
        ensures
            name@ == self.label(),
    {
        match self {
            SpriteKind::SpriteType1 => "SpriteType1",
            SpriteKind::SpriteType2Color2 => "SpriteType2Color2",
            SpriteKind::SpriteType3Color1 => "SpriteType3Color1",
        }
    }

    /// The shader variant of the kind. It is sound: no attribute of any kind
    /// sits at the vertex position's location.
    pub fn variant(self) -> (v: ShaderVariant)
        ensures
            v.name@ == self.label(),
            v.attributes@ == self.schema(),
            v.vertex_main@ == self.vertex_body(),
            v.fragment_main@ == self.fragment_body(),
            v.wf(),
    {
        let mut attributes: Vec<Attribute> = Vec::new();
        attributes.push(
            Attribute {
                location: 1,
                glsl_type: GlslType::Vec2,
                backing: Backing::RealPair,
                name: "position",
            },
        );
        attributes.push(
            Attribute {
                location: 2,
                glsl_type: GlslType::Int,
                backing: Backing::Int,
                name: "frame",
            },
        );
        attributes.push(
            Attribute {
                location: 3,
                glsl_type: GlslType::Int,
                backing: Backing::Int,
                name: "flipped",
            },
        );
        assert(attributes@ =~= common_schema());
        match self {
            SpriteKind::SpriteType1 => {
                assert(attributes@ =~= self.schema());
                ShaderVariant {
                    name: "SpriteType1",
                    attributes: attributes,
                    vertex_main: PLAIN_VERTEX_MAIN,
                    fragment_main: PLAIN_FRAGMENT_MAIN,
                }
            },
            SpriteKind::SpriteType2Color2 => {
                attributes.push(
                    Attribute {
                        location: 4,
                        glsl_type: GlslType::Float,
                        backing: Backing::Real,
                        name: "angle",
                    },
                );
                attributes.push(
                    Attribute {
                        location: 5,
                        glsl_type: GlslType::IVec2,
                        backing: Backing::UIntPair,
                        name: "color_swap_1",
                    },
                );
                attributes.push(
                    Attribute {
                        location: 6,
                        glsl_type: GlslType::IVec2,
                        backing: Backing::UIntPair,
                        name: "color_swap_2",
                    },
                );
                assert(attributes@ =~= self.schema());
                ShaderVariant {
                    name: "SpriteType2Color2",
                    attributes: attributes,
                    vertex_main: CENTERED_VERTEX_MAIN,
                    fragment_main: CENTERED_FRAGMENT_MAIN,
                }
            },
            SpriteKind::SpriteType3Color1 => {
                attributes.push(
                    Attribute {
                        location: 4,
                        glsl_type: GlslType::Float,
                        backing: Backing::Real,
                        name: "angle",
                    },
                );
                attributes.push(
                    Attribute {
                        location: 5,
                        glsl_type: GlslType::IVec2,
                        backing: Backing::IntPair,
                        name: "focus",
                    },
                );
                attributes.push(
                    Attribute {
                        location: 6,
                        glsl_type: GlslType::IVec2,
                        backing: Backing::UIntPair,
                        name: "color_swap",
                    },
                );
                assert(attributes@ =~= self.schema());
                ShaderVariant {
                    name: "SpriteType3Color1",
                    attributes: attributes,
                    vertex_main: FOCAL_VERTEX_MAIN,
                    fragment_main: FOCAL_FRAGMENT_MAIN,
                }
            },
        }
    }
}

/// A linked program and the locations of its uniforms, found once after the
/// link.
#[derive(Clone, Copy, Debug, PartialEq, Eq, Structural)]
pub struct Shader {
    pub program: u32,
    pub cam_pos_uniform: i32,
    pub scale_uniform: i32,
    pub sprite_size_uniform: i32,
    pub screen_size_uniform: i32,
    pub tex_uniform: i32,
    pub frames_uniform: i32,
}

/// How the attempt to build one kind's program went.
#[derive(Clone, Copy, Debug, PartialEq, Eq)]
pub struct VariantBuild {
    /// Before the attempt, the kind's recorded handle named a program.
    pub was_program: bool,
    /// The new program with its uniforms, if it compiled and linked.
    pub built: Option<Shader>,
}

/// The attempts of one compile pass, by kind.
#[allow(non_snake_case)]
#[derive(Clone, Copy, Debug, PartialEq, Eq)]
pub struct ShaderBuilds {
    pub SpriteType1: VariantBuild,
    pub SpriteType2Color2: VariantBuild,
    pub SpriteType3Color1: VariantBuild,
}

/// What a compile pass leaves to do and to report.
#[derive(Clone, Debug, PartialEq, Eq)]
pub struct CompileReport {
    /// The kinds whose program did not build, in the order of the pass.
    pub failed: Vec<SpriteKind>,
    /// The programs that were replaced and are to be deleted, in the order of
    /// the pass.
    pub stale: Vec<u32>,
}

/// The programs of all kinds.
#[allow(non_snake_case)]
#[derive(Clone, Copy, Debug, PartialEq, Eq, Structural)]
pub struct Shaders {
    pub SpriteType1: Shader,
    pub SpriteType2Color2: Shader,
    pub SpriteType3Color1: Shader,
}

impl Shader {
    /// The record of a kind that has no program yet: all zero.
    pub open spec fn none() -> Shader {
        Shader {
            program: 0,
            cam_pos_uniform: 0,
            scale_uniform: 0,
            sprite_size_uniform: 0,
            screen_size_uniform: 0,
            tex_uniform: 0,
            frames_uniform: 0,
        }
    }

    /// The shader after a build attempt: the new program if there is one,
    /// else the shader as it was.
    pub open spec fn rebuilt(self, build: VariantBuild) -> Shader {
        match build.built {
            Some(new) => new,
            None => self,
        }
    }

    /// The program that a build attempt makes stale: the old one, if it was
    /// a program and a new one took its place.
    pub open spec fn stale_after(self, build: VariantBuild) -> Seq<u32> {
        if build.built is Some && build.was_program {
            seq![self.program]
        } else {
            Seq::empty()
        }
    }

    /// Takes the outcome of a build attempt. A program that linked replaces
    /// the old one, which is returned for deletion if it was a program. A
    /// failed attempt changes nothing.
    pub fn install(&mut self, build: VariantBuild) -> (stale: Option<u32>)
        ensures
            *final(self) == old(self).rebuilt(build),
            stale == if build.built is Some && build.was_program {
                Some(old(self).program)
            } else {
                None::<u32>
            },
    {
        match build.built {
            Some(new) => {
                let existing = if build.was_program {
                    Some(self.program)
                } else {
                    None
                };
                *self = new;
                existing
            },
            None => None,
        }
    }
}

/// The kind as a one-element list if its attempt failed, else nothing.
pub open spec fn failed_after(kind: SpriteKind, build: VariantBuild) -> Seq<SpriteKind> {
    if build.built is None {
        seq![kind]
    } else {
        Seq::empty()
    }
}

impl ShaderBuilds {
    /// The attempt for the given kind.
    pub open spec fn of(self, kind: SpriteKind) -> VariantBuild {
        match kind {
            SpriteKind::SpriteType1 => self.SpriteType1,
            SpriteKind::SpriteType2Color2 => self.SpriteType2Color2,
            SpriteKind::SpriteType3Color1 => self.SpriteType3Color1,
        }
    }
}

impl Shaders {
    /// The number of kinds.
    pub fn count() -> (n: usize)
        ensures
            n == 3,
    {
        3
    }

    /// The shader of the given kind.
    pub open spec fn of(self, kind: SpriteKind) -> Shader {
        match kind {
            SpriteKind::SpriteType1 => self.SpriteType1,
            SpriteKind::SpriteType2Color2 => self.SpriteType2Color2,
            SpriteKind::SpriteType3Color1 => self.SpriteType3Color1,
        }
    }

    /// The shader of the given kind.
    pub fn shader(&self, kind: SpriteKind) -> (s: Shader)
        ensures
            s == self.of(kind),
    {
        match kind {
            SpriteKind::SpriteType1 => self.SpriteType1,
            SpriteKind::SpriteType2Color2 => self.SpriteType2Color2,
            SpriteKind::SpriteType3Color1 => self.SpriteType3Color1,
        }
    }

    /// The shaders of all kinds in the order of a compile pass, each with its
    /// kind.
    pub fn each_shader(&self) -> (all: Vec<(Shader, SpriteKind)>)
        ensures
            all@ == seq![
                (self.SpriteType1, SpriteKind::SpriteType1),
                (self.SpriteType2Color2, SpriteKind::SpriteType2Color2),
                (self.SpriteType3Color1, SpriteKind::SpriteType3Color1),
            ],
    {
        let mut all: Vec<(Shader, SpriteKind)> = Vec::new();
        all.push((self.SpriteType1, SpriteKind::SpriteType1));
        all.push((self.SpriteType2Color2, SpriteKind::SpriteType2Color2));
        all.push((self.SpriteType3Color1, SpriteKind::SpriteType3Color1));
        assert(all@ =~= seq![
            (self.SpriteType1, SpriteKind::SpriteType1),
            (self.SpriteType2Color2, SpriteKind::SpriteType2Color2),
            (self.SpriteType3Color1, SpriteKind::SpriteType3Color1),
        ]);
        all
    }

    /// Takes the outcomes of a compile pass over all kinds. Each kind whose
    /// program built gets the new program, and its old program is listed as
    /// stale if it was one. Each kind whose program did not build keeps what
    /// it had and is listed as failed.
    pub fn compile(&mut self, builds: &ShaderBuilds) -> (report: CompileReport)
        ensures
            forall|kind: SpriteKind| #[trigger]
                final(self).of(kind) == old(self).of(kind).rebuilt(builds.of(kind)),
            report.failed@ == failed_after(SpriteKind::SpriteType1, builds.SpriteType1)
                + failed_after(SpriteKind::SpriteType2Color2, builds.SpriteType2Color2)
                + failed_after(SpriteKind::SpriteType3Color1, builds.SpriteType3Color1),
            report.stale@ == old(self).SpriteType1.stale_after(builds.SpriteType1)
                + old(self).SpriteType2Color2.stale_after(builds.SpriteType2Color2)
                + old(self).SpriteType3Color1.stale_after(builds.SpriteType3Color1),
    {
        let mut failed: Vec<SpriteKind> = Vec::new();
        let mut stale: Vec<u32> = Vec::new();

        if let Some(program) = self.SpriteType1.install(builds.SpriteType1) {
            stale.push(program);
        }
        if builds.SpriteType1.built.is_none() {
            failed.push(SpriteKind::SpriteType1);
        }
        assert(failed@ =~= failed_after(SpriteKind::SpriteType1, builds.SpriteType1));
        assert(stale@ =~= old(self).SpriteType1.stale_after(builds.SpriteType1));

        let ghost failed_1 = failed@;
        let ghost stale_1 = stale@;
        if let Some(program) = self.SpriteType2Color2.install(builds.SpriteType2Color2) {
            stale.push(program);
        }
        if builds.SpriteType2Color2.built.is_none() {
            failed.push(SpriteKind::SpriteType2Color2);
        }
        assert(failed@ =~= failed_1 + failed_after(
            SpriteKind::SpriteType2Color2,
            builds.SpriteType2Color2,
        ));
        assert(stale@ =~= stale_1 + old(self).SpriteType2Color2.stale_after(
            builds.SpriteType2Color2,
        ));

        let ghost failed_2 = failed@;
        let ghost stale_2 = stale@;
        if let Some(program) = self.SpriteType3Color1.install(builds.SpriteType3Color1) {
            stale.push(program);
        }
        if builds.SpriteType3Color1.built.is_none() {
            failed.push(SpriteKind::SpriteType3Color1);
        }
        assert(failed@ =~= failed_2 + failed_after(
            SpriteKind::SpriteType3Color1,
            builds.SpriteType3Color1,
        ));
        assert(stale@ =~= stale_2 + old(self).SpriteType3Color1.stale_after(
            builds.SpriteType3Color1,
        ));

        CompileReport { failed: failed, stale: stale }
    }
}

/// A program is handed back for deletion no later than the build that
/// replaces it, and only by that build. After two builds of one kind that
/// both link, the second program is in place and the first is what the
/// second build made stale; whatever was there at the start was made stale by
/// the first build, if it was a program at all.
pub proof fn lemma_rebuild_hands_back_previous(
    start: Shader,
    was_program: bool,
    first: Shader,
    second: Shader,
)
    ensures
        ({
            let build_1 = VariantBuild { was_program: was_program, built: Some(first) };
            let build_2 = VariantBuild { was_program: true, built: Some(second) };
            let after_1 = start.rebuilt(build_1);
            let after_2 = after_1.rebuilt(build_2);
            &&& after_1 == first
            &&& after_2 == second
            &&& start.stale_after(build_1) == if was_program {
                seq![start.program]
            } else {
                Seq::<u32>::empty()
            }
            &&& after_1.stale_after(build_2) == seq![first.program]
        }),
{
}

/// A failed build leaves a kind's program as it was and reports the kind;
/// every other kind still takes the outcome of its own attempt. A program is
/// listed as stale only where a new one replaced it.
pub proof fn lemma_partial_failure(before: Shaders, builds: ShaderBuilds, kind: SpriteKind)
    requires
        builds.of(kind).built is None,
    ensures
        before.of(kind).rebuilt(builds.of(kind)) == before.of(kind),
        before.of(kind).stale_after(builds.of(kind)) == Seq::<u32>::empty(),
        (failed_after(SpriteKind::SpriteType1, builds.SpriteType1) + failed_after(
            SpriteKind::SpriteType2Color2,
            builds.SpriteType2Color2,
        ) + failed_after(SpriteKind::SpriteType3Color1, builds.SpriteType3Color1)).contains(kind),
        forall|other: SpriteKind|
            other != kind && (#[trigger] builds.of(other)).built is Some ==> before.of(
                other,
            ).rebuilt(builds.of(other)) == builds.of(other).built->0,
{
    let f1 = failed_after(SpriteKind::SpriteType1, builds.SpriteType1);
    let f2 = failed_after(SpriteKind::SpriteType2Color2, builds.SpriteType2Color2);
    let f3 = failed_after(SpriteKind::SpriteType3Color1, builds.SpriteType3Color1);
    let all = f1 + f2 + f3;
    match kind {
        SpriteKind::SpriteType1 => {
            assert(all[0] == kind);
        },
        SpriteKind::SpriteType2Color2 => {
            assert(all[f1.len() as int] == kind);
        },
        SpriteKind::SpriteType3Color1 => {
            assert(all[(f1.len() + f2.len()) as int] == kind);
        },
    }
}

} // verus!
