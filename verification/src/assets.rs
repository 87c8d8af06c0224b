//! The fixed table of image assets, and the GPU resources that outlive a
//! reload of the game module.

use crate::image::ImageAsset;
use crate::shader::{Shader, Shaders, SpriteKind};
use crate::sprite::Scalar;
use vstd::prelude::*;

verus! {

/// Names one of the image assets.
#[derive(Clone, Copy, Debug, PartialEq, Eq, Structural)]
pub enum ImageId {
    CrattlecruteBody,
    CrattlecruteBackFoot,
    CrattlecruteFrontFoot,
    Eye1,
    TestSpin,
}

/// The image assets of the game.
#[derive(Debug, PartialEq, Eq)]
pub struct Images {
    pub crattlecrute_body: ImageAsset,
    pub crattlecrute_back_foot: ImageAsset,
    pub crattlecrute_front_foot: ImageAsset,
    pub eye_1: ImageAsset,
    pub test_spin: ImageAsset,
}

/// The GPU resources of the game: the shared unit quad, the image assets and
/// the shader programs.
#[derive(Debug, PartialEq, Eq)]
pub struct GLData {
    /// The vertex array object that all draws use.
    pub vao: u32,
    /// The vertex buffer of the unit quad.
    pub square_vbo: u32,
    /// The element buffer of the unit quad.
    pub square_ebo: u32,
    pub images: Images,
    pub shaders: Shaders,
}

/// The number of indices that one draw of the unit quad takes: two triangles.
pub const SQUARE_INDEX_COUNT: i32 = 6;

/// The indices of the unit quad's two triangles into its four corners.
pub fn square_indices() -> (indices: Vec<u32>)
    ensures
        indices@ == seq![0u32, 1, 3, 1, 2, 3],
{
    let mut indices: Vec<u32> = Vec::new();
    indices.push(0);
    indices.push(1);
    indices.push(3);
    indices.push(1);
    indices.push(2);
    indices.push(3);
    assert(indices@ =~= seq![0u32, 1, 3, 1, 2, 3]);
    indices
}

/// The corners of the unit quad, two coordinates each, as bit patterns: top
/// right `(2, 2)`, bottom right `(2, 0)`, bottom left `(0, 0)`, top left
/// `(0, 2)`. The number two has the bit pattern `0x4000_0000`.
pub fn square_vertices() -> (corners: Vec<Scalar>)
    ensures
        corners@ == seq![
            Scalar { bits: 0x4000_0000 },
            Scalar { bits: 0x4000_0000 },
            Scalar { bits: 0x4000_0000 },
            Scalar { bits: 0 },
            Scalar { bits: 0 },
            Scalar { bits: 0 },
            Scalar { bits: 0 },
            Scalar { bits: 0x4000_0000 },
        ],
{
    let two = Scalar { bits: 0x4000_0000 };
    let zero = Scalar { bits: 0 };
    let mut corners: Vec<Scalar> = Vec::new();
    corners.push(two);
    corners.push(two);
    corners.push(two);
    corners.push(zero);
    corners.push(zero);
    corners.push(zero);
    corners.push(zero);
    corners.push(two);
    assert(corners@ =~= seq![two, two, two, zero, zero, zero, zero, two]);
    corners
}

impl ImageId {
    /// The file that the image is decoded from.
    pub open spec fn path(self) -> &'static str {
        match self {
            ImageId::CrattlecruteBody => "assets/crattlecrute/body.png",
            ImageId::CrattlecruteBackFoot => "assets/crattlecrute/back-foot.png",
            ImageId::CrattlecruteFrontFoot => "assets/crattlecrute/front-foot.png",
            ImageId::Eye1 => "assets/eyes/standard-eye.png",
            ImageId::TestSpin => "assets/crattlecrute/body.png",
        }
    }

    /// The kind of sprite that the image is drawn as.
    pub open spec fn sprite_kind(self) -> SpriteKind {
        match self {
            ImageId::CrattlecruteBody => SpriteKind::SpriteType2Color2,
            ImageId::CrattlecruteBackFoot => SpriteKind::SpriteType2Color2,
            ImageId::CrattlecruteFrontFoot => SpriteKind::SpriteType2Color2,
            ImageId::Eye1 => SpriteKind::SpriteType3Color1,
            ImageId::TestSpin => SpriteKind::SpriteType3Color1,
        }
    }

    /// The width of one frame cell of the image, in pixels.
    pub open spec fn cell_width(self) -> usize {
        match self {
            ImageId::Eye1 => 4,
            _ => 90,
        }
    }

    /// The height of one frame cell of the image, in pixels.
    pub open spec fn cell_height(self) -> usize {
        match self {
            ImageId::Eye1 => 5,
            _ => 90,
        }
    }

    /// The number of frames in the image.
    pub open spec fn frame_count(self) -> usize {
        match self {
            ImageId::Eye1 => 1,
            _ => 9,
        }
    }
}

impl ImageId {
    /// The kind of sprite that the image is drawn as.
    pub fn kind(self) -> (kind: SpriteKind)
        ensures
            kind == self.sprite_kind(),
    {
        match self {
            ImageId::CrattlecruteBody => SpriteKind::SpriteType2Color2,
            ImageId::CrattlecruteBackFoot => SpriteKind::SpriteType2Color2,
            ImageId::CrattlecruteFrontFoot => SpriteKind::SpriteType2Color2,
            ImageId::Eye1 => SpriteKind::SpriteType3Color1,
            ImageId::TestSpin => SpriteKind::SpriteType3Color1,
        }
    }

    /// The asset as the game declares it, with nothing loaded.
    pub fn declare(self) -> (asset: ImageAsset)
        ensures
            asset.is_declared(
                self.path(),
                self.sprite_kind(),
                self.cell_width(),
                self.cell_height(),
                self.frame_count(),
            ),
    {
        match self {
            ImageId::CrattlecruteBody => ImageAsset::new(
                "assets/crattlecrute/body.png",
                self.kind(),
                90,
                90,
                9,
            ),
            ImageId::CrattlecruteBackFoot => ImageAsset::new(
                "assets/crattlecrute/back-foot.png",
                self.kind(),
                90,
                90,
                9,
            ),
            ImageId::CrattlecruteFrontFoot => ImageAsset::new(
                "assets/crattlecrute/front-foot.png",
                self.kind(),
                90,
                90,
                9,
            ),
            ImageId::Eye1 => ImageAsset::new("assets/eyes/standard-eye.png", self.kind(), 4, 5, 1),
            ImageId::TestSpin => ImageAsset::new(
                "assets/crattlecrute/body.png",
                self.kind(),
                90,
                90,
                9,
            ),
        }
    }
}

impl Images {
    /// The asset with the given name.
    pub open spec fn of(&self, id: ImageId) -> &ImageAsset {
        match id {
            ImageId::CrattlecruteBody => &self.crattlecrute_body,
            ImageId::CrattlecruteBackFoot => &self.crattlecrute_back_foot,
            ImageId::CrattlecruteFrontFoot => &self.crattlecrute_front_foot,
            ImageId::Eye1 => &self.eye_1,
            ImageId::TestSpin => &self.test_spin,
        }
    }

    /// Every asset is as it was declared: its file, its kind, its frame cell
    /// and frame count, and nothing loaded.
    pub open spec fn declared(&self) -> bool {
        forall|id: ImageId| #[trigger]
            self.of(id).is_declared(
                id.path(),
                id.sprite_kind(),
                id.cell_width(),
                id.cell_height(),
                id.frame_count(),
            )
    }

    /// Every asset is consistent.
    pub open spec fn wf(&self) -> bool {
        forall|id: ImageId| (#[trigger] self.of(id)).wf()
    }

    /// The asset table as declared, with nothing loaded.
    pub fn new() -> (images: Images)
        ensures
            images.declared(),
    {
        Images {
            crattlecrute_body: ImageId::CrattlecruteBody.declare(),
            crattlecrute_back_foot: ImageId::CrattlecruteBackFoot.declare(),
            crattlecrute_front_foot: ImageId::CrattlecruteFrontFoot.declare(),
            eye_1: ImageId::Eye1.declare(),
            test_spin: ImageId::TestSpin.declare(),
        }
    }

    /// Puts every asset back to its declaration, with nothing loaded.
    pub fn init(&mut self)
        ensures
            final(self).declared(),
    {
        *self = Images::new();
    }

    /// The asset with the given name.
    pub fn image(&self, id: ImageId) -> (asset: &ImageAsset)
        ensures
            asset == self.of(id),
    {
        match id {
            ImageId::CrattlecruteBody => &self.crattlecrute_body,
            ImageId::CrattlecruteBackFoot => &self.crattlecrute_back_foot,
            ImageId::CrattlecruteFrontFoot => &self.crattlecrute_front_foot,
            ImageId::Eye1 => &self.eye_1,
            ImageId::TestSpin => &self.test_spin,
        }
    }

    /// The asset with the given name, open to change. The other assets stay
    /// as they are.
    pub fn image_mut(&mut self, id: ImageId) -> (asset: &mut ImageAsset)
        ensures
            *asset == *old(self).of(id),
            *final(self).of(id) == *final(asset),
            forall|other: ImageId|
                other != id ==> *(#[trigger] final(self).of(other)) == *old(self).of(other),
    {
        match id {
            ImageId::CrattlecruteBody => &mut self.crattlecrute_body,
            ImageId::CrattlecruteBackFoot => &mut self.crattlecrute_back_foot,
            ImageId::CrattlecruteFrontFoot => &mut self.crattlecrute_front_foot,
            ImageId::Eye1 => &mut self.eye_1,
            ImageId::TestSpin => &mut self.test_spin,
        }
    }
}

impl GLData {
    /// The resources before the first load: no GPU object exists, the asset
    /// table is as declared, and no program is recorded.
    pub fn new() -> (gl_data: GLData)
        ensures
            gl_data.vao == 0,
            gl_data.square_vbo == 0,
            gl_data.square_ebo == 0,
            gl_data.images.declared(),
            forall|kind: SpriteKind| #[trigger] gl_data.shaders.of(kind) == Shader::none(),
    {
        let none = Shader {
            program: 0,
            cam_pos_uniform: 0,
            scale_uniform: 0,
            sprite_size_uniform: 0,
            screen_size_uniform: 0,
            tex_uniform: 0,
            frames_uniform: 0,
        };
        GLData {
            vao: 0,
            square_vbo: 0,
            square_ebo: 0,
            images: Images::new(),
            shaders: Shaders {
                SpriteType1: none,
                SpriteType2Color2: none,
                SpriteType3Color1: none,
            },
        }
    }
}

} // verus!
