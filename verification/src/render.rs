//! A frame's work for the GPU: the instance records of every asset, the
//! uniforms of every program, and the draw calls.

use crate::assets::{GLData, ImageId, Images, SQUARE_INDEX_COUNT};
use crate::game::{GameData, PLAYER_COUNT};
use crate::image::{all_of_kind, DrawBinding, ImageAsset};
use crate::shader::{Shader, SpriteKind};
use crate::sprite::{record_words, words_per_record, Scalar, Sprite, SpriteType3Color1};
use crate::vecmath::Vec2;
use vstd::prelude::*;

verus! {

/// The records of one asset that were staged for the GPU: the host copies
/// the first `count` records of the asset's instance buffer, which are its
/// first `words` words, to buffer `vbo`.
#[derive(Clone, Copy, Debug, PartialEq, Eq, Structural)]
pub struct InstanceUpload {
    pub image: ImageId,
    pub vbo: u32,
    pub count: usize,
    /// The number of words that the records take.
    pub words: usize,
}

/// The uniforms to send to one program before the draw calls.
#[derive(Clone, Copy, Debug, PartialEq, Eq)]
pub struct UniformPush {
    pub program: u32,
    pub screen_size_uniform: i32,
    /// The new screen size, to send only after a resize.
    pub screen_size: Option<(i32, i32)>,
    pub cam_pos_uniform: i32,
    pub cam_pos: Vec2<Scalar>,
}

/// One instanced draw of the unit quad.
#[derive(Clone, Debug, PartialEq, Eq)]
pub struct DrawCall {
    pub image: ImageId,
    pub binding: DrawBinding,
    /// The number of indices of the unit quad.
    pub indices: i32,
    /// The number of instances: one for each entity that takes a slot of the
    /// asset's instance buffer.
    pub instances: i32,
}

/// A frame's work on the GPU, in the order to do it: send the uniforms,
/// clear the frame buffer, then issue the draw calls.
#[derive(Clone, Debug, PartialEq, Eq)]
pub struct RenderPlan {
    pub uniforms: Vec<UniformPush>,
    pub draws: Vec<DrawCall>,
}

/// The order in which the assets are drawn, back to front.
pub open spec fn draw_order() -> Seq<ImageId> {
    seq![
        ImageId::TestSpin,
        ImageId::CrattlecruteBackFoot,
        ImageId::CrattlecruteBody,
        ImageId::CrattlecruteFrontFoot,
        ImageId::Eye1,
    ]
}

/// The number of entities that take a slot of the asset's instance buffer.
pub open spec fn occupants(image: ImageId) -> int {
    match image {
        ImageId::TestSpin => 1,
        _ => PLAYER_COUNT as int,
    }
}

/// The number of entities that take a slot of the asset's instance buffer.
pub fn occupant_count(image: ImageId) -> (n: usize)
    ensures
        n == occupants(image),
{
    match image {
        ImageId::TestSpin => 1,
        _ => PLAYER_COUNT,
    }
}

/// One asset of the table can take a frame's records.
pub open spec fn ready_one(images: &Images, id: ImageId) -> bool {
    let asset = images.of(id);
    &&& asset.wf()
    &&& asset.kind == id.sprite_kind()
    &&& asset.capacity >= occupants(id)
}

/// The order in which the assets' records are written.
pub open spec fn upload_order() -> Seq<ImageId> {
    seq![
        ImageId::Eye1,
        ImageId::CrattlecruteFrontFoot,
        ImageId::CrattlecruteBody,
        ImageId::CrattlecruteBackFoot,
        ImageId::TestSpin,
    ]
}

/// The uniforms that a program gets in a frame: the camera position always,
/// the screen size after a resize.
pub open spec fn uniforms_for(shader: Shader, resized: Option<(i32, i32)>, cam_pos: Vec2<Scalar>)
    -> UniformPush {
    UniformPush {
        program: shader.program,
        screen_size_uniform: shader.screen_size_uniform,
        screen_size: resized,
        cam_pos_uniform: shader.cam_pos_uniform,
        cam_pos: cam_pos,
    }
}

/// The assets can take a frame's records: each is consistent, is of the kind
/// it was declared with, and has a slot for each of its occupants.
pub open spec fn ready_for_records(images: &Images) -> bool {
    forall|id: ImageId| #[trigger] ready_one(images, id)
}

/// Tests whether one asset of the table can take a frame's records.
pub fn can_take_records_of(images: &Images, id: ImageId) -> (ready: bool)
    ensures
        ready == ready_one(images, id),
{
    let asset = images.image(id);
    let occupying = occupant_count(id);
    let declared = id.kind();
    asset.is_wf() && asset.kind == declared && asset.capacity >= occupying
}

/// Tests whether the assets can take a frame's records.
pub fn can_take_records(images: &Images) -> (ready: bool)
    ensures
        ready == ready_for_records(images),
{
    let ready = can_take_records_of(images, ImageId::CrattlecruteBody) && can_take_records_of(
        images,
        ImageId::CrattlecruteBackFoot,
    ) && can_take_records_of(images, ImageId::CrattlecruteFrontFoot) && can_take_records_of(
        images,
        ImageId::Eye1,
    ) && can_take_records_of(images, ImageId::TestSpin);
    proof {
        if ready {
            assert forall|id: ImageId| #[trigger] ready_one(images, id) by {
                match id {
                    ImageId::CrattlecruteBody => {},
                    ImageId::CrattlecruteBackFoot => {},
                    ImageId::CrattlecruteFrontFoot => {},
                    ImageId::Eye1 => {},
                    ImageId::TestSpin => {},
                }
            }
        } else {
            assert(!ready_one(images, ImageId::CrattlecruteBody) || !ready_one(
                images,
                ImageId::CrattlecruteBackFoot,
            ) || !ready_one(images, ImageId::CrattlecruteFrontFoot) || !ready_one(
                images,
                ImageId::Eye1,
            ) || !ready_one(images, ImageId::TestSpin));
        }
    }
    ready
}

/// Tests whether every asset can be bound for a draw.
pub fn can_draw(gl_data: &GLData) -> (ready: bool)
    ensures
        ready == (forall|id: ImageId| (#[trigger] gl_data.images.of(id)).drawable()),
{
    let images = &gl_data.images;
    let ready = images.crattlecrute_body.is_drawable()
        && images.crattlecrute_back_foot.is_drawable()
        && images.crattlecrute_front_foot.is_drawable() && images.eye_1.is_drawable()
        && images.test_spin.is_drawable();
    proof {
        if ready {
            assert forall|id: ImageId| (#[trigger] gl_data.images.of(id)).drawable() by {
                match id {
                    ImageId::CrattlecruteBody => {},
                    ImageId::CrattlecruteBackFoot => {},
                    ImageId::CrattlecruteFrontFoot => {},
                    ImageId::Eye1 => {},
                    ImageId::TestSpin => {},
                }
            }
        } else {
            assert(!gl_data.images.of(ImageId::CrattlecruteBody).drawable() || !gl_data.images.of(
                ImageId::CrattlecruteBackFoot,
            ).drawable() || !gl_data.images.of(ImageId::CrattlecruteFrontFoot).drawable()
                || !gl_data.images.of(ImageId::Eye1).drawable() || !gl_data.images.of(
                ImageId::TestSpin,
            ).drawable());
        }
    }
    ready
}

/// The record that the test sprite is drawn from.
pub fn spin_sprite(game: &GameData) -> (record: SpriteType3Color1)
    ensures
        record == game.spin(),
{
    SpriteType3Color1 {
        position: Vec2::new(game.player.angle, game.player.position.y),
        frame: 0,
        flipped: if game.player.flipped {
            0
        } else {
            1
        },
        angle: game.player.angle,
        focus: Vec2::new(21, 52),
        color_swap: Vec2::new(0x0094FFFF, game.player.eye_color),
    }
}

/// The records of one asset for this frame.
pub fn sprites_for(game: &GameData, image: ImageId, eye_angle: Scalar, eye_angle2: Scalar) -> (records:
    Vec<Sprite>)
    requires
        game.player.wf(),
        game.player2.wf(),
    ensures
        records@ == game.records_for(image, eye_angle, eye_angle2),
        records@.len() == occupants(image),
        all_of_kind(records@, image.sprite_kind()),
{
    let mut records: Vec<Sprite> = Vec::new();
    match image {
        ImageId::Eye1 => {
            records.push(Sprite::Type3Color1(game.player.eye_sprite(eye_angle)));
            records.push(Sprite::Type3Color1(game.player2.eye_sprite(eye_angle2)));
        },
        ImageId::CrattlecruteFrontFoot => {
            records.push(Sprite::Type2Color2(game.player.right_foot_sprite()));
            records.push(Sprite::Type2Color2(game.player2.right_foot_sprite()));
        },
        ImageId::CrattlecruteBody => {
            records.push(Sprite::Type2Color2(game.player.body_sprite()));
            records.push(Sprite::Type2Color2(game.player2.body_sprite()));
        },
        ImageId::CrattlecruteBackFoot => {
            records.push(Sprite::Type2Color2(game.player.left_foot_sprite()));
            records.push(Sprite::Type2Color2(game.player2.left_foot_sprite()));
        },
        ImageId::TestSpin => {
            records.push(Sprite::Type3Color1(spin_sprite(game)));
        },
    }
    assert(records@ =~= game.records_for(image, eye_angle, eye_angle2));
    records
}

/// Writes one asset's records for this frame into its instance buffer.
pub fn write_sprites_of(
    game: &GameData,
    asset: &mut ImageAsset,
    image: ImageId,
    eye_angle: Scalar,
    eye_angle2: Scalar,
) -> (upload: InstanceUpload)
    requires
        game.player.wf(),
        game.player2.wf(),
        old(asset).wf(),
        old(asset).kind == image.sprite_kind(),
        old(asset).capacity >= occupants(image),
    ensures
        final(asset).wf(),
        final(asset).same_but_instances(old(asset)),
        forall|i: int|
            0 <= i < occupants(image) ==> #[trigger] final(asset).instance(i) == game.records_for(
                image,
                eye_angle,
                eye_angle2,
            )[i],
        forall|i: int|
            occupants(image) <= i < old(asset).capacity ==> #[trigger] final(asset).instance(i)
                == old(asset).instance(i),
        upload == (InstanceUpload {
            image: image,
            vbo: old(asset).vbo,
            count: occupants(image) as usize,
            words: (occupants(image) * record_words(image.sprite_kind())) as usize,
        }),
{
    let records = sprites_for(game, image, eye_angle, eye_angle2);
    asset.write_instances(&records);
    let words = words_per_record(asset.kind);
    let count = records.len();
    assert(count * words <= 18) by (nonlinear_arith)
        requires
            0 <= count <= 2,
            0 <= words <= 9,
    ;
    InstanceUpload { image: image, vbo: asset.vbo, count: count, words: count * words }
}

/// Writes every asset's records for this frame: for each creature part the
/// first player's record in slot 0 and the second player's in slot 1, and
/// the test sprite's single record. `eye_angle` and `eye_angle2` are the
/// angles of the two players' eyes. The result lists the buffers to send to
/// the GPU, in order.
pub fn write_sprites(game: &GameData, images: &mut Images, eye_angle: Scalar, eye_angle2: Scalar) -> (uploads:
    Vec<InstanceUpload>)
    requires
        game.player.wf(),
        game.player2.wf(),
        ready_for_records(old(images)),
    ensures
        ready_for_records(final(images)),
        forall|id: ImageId| (#[trigger] final(images).of(id)).same_but_instances(old(images).of(id)),
        forall|id: ImageId, i: int|
            0 <= i < occupants(id) ==> #[trigger] final(images).of(id).instance(i)
                == game.records_for(id, eye_angle, eye_angle2)[i],
        uploads@.len() == 5,
        forall|k: int|
            0 <= k < 5 ==> #[trigger] uploads@[k] == (InstanceUpload {
                image: upload_order()[k],
                vbo: old(images).of(upload_order()[k]).vbo,
                count: occupants(upload_order()[k]) as usize,
                words: (occupants(upload_order()[k]) * record_words(
                    upload_order()[k].sprite_kind(),
                )) as usize,
            }),
{
    let mut uploads: Vec<InstanceUpload> = Vec::new();
    assert(ready_one(old(images), ImageId::Eye1));
    assert(ready_one(old(images), ImageId::CrattlecruteFrontFoot));
    assert(ready_one(old(images), ImageId::CrattlecruteBody));
    assert(ready_one(old(images), ImageId::CrattlecruteBackFoot));
    assert(ready_one(old(images), ImageId::TestSpin));
    let u0 = write_sprites_of(game, &mut images.eye_1, ImageId::Eye1, eye_angle, eye_angle2);
    let u1 = write_sprites_of(
        game,
        &mut images.crattlecrute_front_foot,
        ImageId::CrattlecruteFrontFoot,
        eye_angle,
        eye_angle2,
    );
    let u2 = write_sprites_of(
        game,
        &mut images.crattlecrute_body,
        ImageId::CrattlecruteBody,
        eye_angle,
        eye_angle2,
    );
    let u3 = write_sprites_of(
        game,
        &mut images.crattlecrute_back_foot,
        ImageId::CrattlecruteBackFoot,
        eye_angle,
        eye_angle2,
    );
    let u4 = write_sprites_of(game, &mut images.test_spin, ImageId::TestSpin, eye_angle, eye_angle2);
    uploads.push(u0);
    uploads.push(u1);
    uploads.push(u2);
    uploads.push(u3);
    uploads.push(u4);
    proof {
        assert forall|id: ImageId| ready_one(images, id) by {
            match id {
                ImageId::Eye1 => {},
                ImageId::CrattlecruteFrontFoot => {},
                ImageId::CrattlecruteBody => {},
                ImageId::CrattlecruteBackFoot => {},
                ImageId::TestSpin => {},
            }
        }
        assert forall|id: ImageId| (#[trigger] images.of(id)).same_but_instances(
            old(images).of(id),
        ) by {
            match id {
                ImageId::Eye1 => {},
                ImageId::CrattlecruteFrontFoot => {},
                ImageId::CrattlecruteBody => {},
                ImageId::CrattlecruteBackFoot => {},
                ImageId::TestSpin => {},
            }
        }
        assert forall|id: ImageId, i: int| 0 <= i < occupants(id) implies #[trigger] images.of(
            id,
        ).instance(i) == game.records_for(id, eye_angle, eye_angle2)[i] by {
            match id {
                ImageId::Eye1 => {},
                ImageId::CrattlecruteFrontFoot => {},
                ImageId::CrattlecruteBody => {},
                ImageId::CrattlecruteBackFoot => {},
                ImageId::TestSpin => {},
            }
        }
    }
    uploads
}

/// The draw call of one asset: one instance for each occupant.
pub fn draw_call(gl_data: &GLData, image: ImageId) -> (call: DrawCall)
    requires
        gl_data.images.of(image).drawable(),
    ensures
        call.image == image,
        call.indices == SQUARE_INDEX_COUNT,
        call.instances == occupants(image),
        gl_data.images.of(image).binds(&gl_data.shaders, call.binding),
{
    let asset = gl_data.images.image(image);
    let binding = asset.set(&gl_data.shaders);
    let instances: i32 = occupant_count(image) as i32;
    DrawCall { image: image, binding: binding, indices: SQUARE_INDEX_COUNT, instances: instances }
}

/// Plans the GPU's work for the frame. Every program gets the camera
/// position and, after a resize, the new screen size. Then every asset is
/// drawn once, back to front, with one instance for each entity that takes a
/// slot of its instance buffer.
pub fn render(game: &GameData, gl_data: &GLData, resized: Option<(i32, i32)>) -> (plan: RenderPlan)
    requires
        forall|id: ImageId| (#[trigger] gl_data.images.of(id)).drawable(),
    ensures
        plan.uniforms@ == seq![
            uniforms_for(gl_data.shaders.SpriteType1, resized, game.cam_pos),
            uniforms_for(gl_data.shaders.SpriteType2Color2, resized, game.cam_pos),
            uniforms_for(gl_data.shaders.SpriteType3Color1, resized, game.cam_pos),
        ],
        plan.draws@.len() == draw_order().len(),
        forall|k: int|
            0 <= k < plan.draws@.len() ==> {
                let call = #[trigger] plan.draws@[k];
                &&& call.image == draw_order()[k]
                &&& call.indices == SQUARE_INDEX_COUNT
                &&& call.instances == occupants(call.image)
                &&& gl_data.images.of(call.image).binds(&gl_data.shaders, call.binding)
            },
{
    let shaders = gl_data.shaders.each_shader();
    let mut uniforms: Vec<UniformPush> = Vec::new();
    let mut i: usize = 0;
    while i < shaders.len()
        invariant
            i <= shaders@.len(),
            uniforms@.len() == i,
            forall|k: int|
                0 <= k < i ==> #[trigger] uniforms@[k] == uniforms_for(
                    shaders@[k].0,
                    resized,
                    game.cam_pos,
                ),
        decreases shaders.len() - i,
    {
        let shader = shaders[i].0;
        uniforms.push(
            UniformPush {
                program: shader.program,
                screen_size_uniform: shader.screen_size_uniform,
                screen_size: resized,
                cam_pos_uniform: shader.cam_pos_uniform,
                cam_pos: game.cam_pos,
            },
        );
        i += 1;
    }
    assert(uniforms@ =~= seq![
        uniforms_for(gl_data.shaders.SpriteType1, resized, game.cam_pos),
        uniforms_for(gl_data.shaders.SpriteType2Color2, resized, game.cam_pos),
        uniforms_for(gl_data.shaders.SpriteType3Color1, resized, game.cam_pos),
    ]);

    assert(gl_data.images.of(ImageId::TestSpin).drawable());
    assert(gl_data.images.of(ImageId::CrattlecruteBackFoot).drawable());
    assert(gl_data.images.of(ImageId::CrattlecruteBody).drawable());
    assert(gl_data.images.of(ImageId::CrattlecruteFrontFoot).drawable());
    assert(gl_data.images.of(ImageId::Eye1).drawable());
    let mut draws: Vec<DrawCall> = Vec::new();
    draws.push(draw_call(gl_data, ImageId::TestSpin));
    draws.push(draw_call(gl_data, ImageId::CrattlecruteBackFoot));
    draws.push(draw_call(gl_data, ImageId::CrattlecruteBody));
    draws.push(draw_call(gl_data, ImageId::CrattlecruteFrontFoot));
    draws.push(draw_call(gl_data, ImageId::Eye1));
    RenderPlan { uniforms: uniforms, draws: draws }
}

/// Every asset is drawn exactly once in a frame: each asset stands at one
/// place of the draw order and at no other.
pub proof fn lemma_one_draw_per_asset(image: ImageId)
    ensures
        exists|k: int|
            0 <= k < draw_order().len() && #[trigger] draw_order()[k] == image && forall|j: int|
                0 <= j < draw_order().len() && j != k ==> #[trigger] draw_order()[j] != image,
{
    let k: int = match image {
        ImageId::TestSpin => 0,
        ImageId::CrattlecruteBackFoot => 1,
        ImageId::CrattlecruteBody => 2,
        ImageId::CrattlecruteFrontFoot => 3,
        ImageId::Eye1 => 4,
    };
    assert(draw_order()[k] == image);
    assert forall|j: int| 0 <= j < draw_order().len() && j != k implies #[trigger] draw_order()[j]
        != image by {}
}

} // verus!
