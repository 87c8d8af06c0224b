use af::entity::{eye_offset, CrattleCrute};
use af::image::{BufferAllocation, BufferUsage, ImageAsset};
use af::shader::{Shader, Shaders, SpriteKind};
use af::sprite::{
    int_to_word, word_to_int, words_per_record, Scalar, Sprite, SpriteType1, SpriteType2Color2,
    SpriteType3Color1,
};
use af::vecmath::Vec2;

fn scalar(value: f32) -> Scalar {
    Scalar { bits: value.to_bits() }
}

fn creature() -> CrattleCrute {
    CrattleCrute {
        position: Vec2::new(scalar(12.5), scalar(-3.0)),
        frame: 4,
        flipped: true,
        angle: scalar(0.75),
        body_color: Vec2::new(0x0026FFFF, 0x1979FFFF),
        left_foot_color: Vec2::new(0xBB98E2FF, 0x9F67E0FF),
        right_foot_color: Vec2::new(0x11111111, 0x22222222),
        eye_color: 0xDD304AFF,
    }
}

fn centered(frame: i32) -> SpriteType2Color2 {
    SpriteType2Color2 {
        position: Vec2::new(scalar(1.0), scalar(2.0)),
        frame,
        flipped: 1,
        angle: scalar(-0.5),
        color_swap_1: Vec2::new(0x0094FFFF, 0x01020304),
        color_swap_2: Vec2::new(0x00C7FFFF, 0xF0E0D0C0),
    }
}

fn shaders() -> Shaders {
    let s = |program: u32| Shader {
        program,
        cam_pos_uniform: 10,
        scale_uniform: 11,
        sprite_size_uniform: 12,
        screen_size_uniform: 13,
        tex_uniform: 14,
        frames_uniform: 15,
    };
    Shaders { SpriteType1: s(1), SpriteType2Color2: s(2), SpriteType3Color1: s(3) }
}

#[test]
fn signed_numbers_go_to_words_in_twos_complement() {
    assert_eq!(int_to_word(0), 0);
    assert_eq!(int_to_word(5), 5);
    assert_eq!(int_to_word(-1), 0xFFFF_FFFF);
    assert_eq!(int_to_word(i32::MIN), 0x8000_0000);
    assert_eq!(int_to_word(i32::MAX), 0x7FFF_FFFF);
    assert_eq!(word_to_int(0xFFFF_FFFF), -1);
    assert_eq!(word_to_int(0x8000_0000), i32::MIN);
    assert_eq!(word_to_int(0x7FFF_FFFF), i32::MAX);
    for v in [-40, -1, 0, 1, 8, 123456, i32::MIN, i32::MAX] {
        assert_eq!(int_to_word(v), v as u32);
        assert_eq!(word_to_int(int_to_word(v)), v);
    }
}

#[test]
fn records_lie_in_the_order_of_their_attributes() {
    let mut words = Vec::new();
    Sprite::Type2Color2(centered(-1)).write_words(&mut words);
    assert_eq!(
        words,
        vec![
            1.0f32.to_bits(),
            2.0f32.to_bits(),
            0xFFFF_FFFF,
            1,
            (-0.5f32).to_bits(),
            0x0094FFFF,
            0x01020304,
            0x00C7FFFF,
            0xF0E0D0C0
        ]
    );
    let plain = SpriteType1 { position: Vec2::new(scalar(8.0), scalar(9.0)), frame: 3, flipped: 0 };
    let mut words = vec![77];
    Sprite::Type1(plain).write_words(&mut words);
    assert_eq!(words, vec![77, 8.0f32.to_bits(), 9.0f32.to_bits(), 3, 0]);
    let focal = SpriteType3Color1 {
        position: Vec2::new(scalar(8.0), scalar(9.0)),
        frame: 0,
        flipped: 1,
        angle: scalar(3.0),
        focus: Vec2::new(-15, -20),
        color_swap: Vec2::new(0x5900FFFF, 0xDD304AFF),
    };
    let mut words = Vec::new();
    Sprite::Type3Color1(focal).write_words(&mut words);
    assert_eq!(
        words,
        vec![
            8.0f32.to_bits(),
            9.0f32.to_bits(),
            0,
            1,
            3.0f32.to_bits(),
            (-15i32) as u32,
            (-20i32) as u32,
            0x5900FFFF,
            0xDD304AFF
        ]
    );
}

#[test]
fn words_read_back_as_the_record() {
    let records = [
        Sprite::Type1(SpriteType1 {
            position: Vec2::new(scalar(8.0), scalar(9.0)),
            frame: -1,
            flipped: 0,
        }),
        Sprite::Type2Color2(centered(7)),
        Sprite::Type3Color1(SpriteType3Color1 {
            position: Vec2::new(scalar(f32::NAN), scalar(-0.0)),
            frame: 0,
            flipped: 1,
            angle: scalar(f32::INFINITY),
            focus: Vec2::new(i32::MIN, i32::MAX),
            color_swap: Vec2::new(0, u32::MAX),
        }),
    ];
    for record in records {
        let mut words = vec![1, 2, 3];
        record.write_words(&mut words);
        assert_eq!(words.len(), 3 + words_per_record(record.kind()));
        assert_eq!(Sprite::read_words(record.kind(), &words, 3), record);
    }
    assert_eq!(words_per_record(SpriteKind::SpriteType1), 4);
    assert_eq!(words_per_record(SpriteKind::SpriteType2Color2), 9);
    assert_eq!(words_per_record(SpriteKind::SpriteType3Color1), 9);
}

#[test]
fn body_parts_take_the_creatures_colors() {
    let c = creature();
    let body = c.body_sprite();
    assert_eq!(body.position, c.position);
    assert_eq!(body.frame, 4);
    assert_eq!(body.flipped, 1);
    assert_eq!(body.angle, c.angle);
    assert_eq!(body.color_swap_1, Vec2::new(0x0094FFFF, 0x0026FFFF));
    assert_eq!(body.color_swap_2, Vec2::new(0x00C7FFFF, 0x1979FFFF));
    let left = c.left_foot_sprite();
    assert_eq!(left.color_swap_1, Vec2::new(0xFF0000FF, 0xBB98E2FF));
    assert_eq!(left.color_swap_2, Vec2::new(0xDB002FFF, 0x9F67E0FF));
    let right = c.right_foot_sprite();
    assert_eq!(right.color_swap_1, Vec2::new(0xFF0000FF, 0x11111111));
    assert_eq!(right.color_swap_2, Vec2::new(0xDB002FFF, 0x22222222));
    let custom = c.sprite(Vec2::new(1, 2), Vec2::new(3, 4));
    assert_eq!(custom.color_swap_1, Vec2::new(1, 2));
    assert_eq!(custom.color_swap_2, Vec2::new(3, 4));
    let mut upright = c;
    upright.flipped = false;
    assert_eq!(upright.body_sprite().flipped, 0);
}

#[test]
fn the_eye_turns_about_a_focus_that_follows_the_frame() {
    let expected = [
        (-14, -21),
        (-15, -21),
        (-16, -20),
        (-16, -20),
        (-15, -20),
        (-15, -21),
        (-16, -20),
        (-16, -20),
        (-15, -20),
    ];
    for frame in 0..9 {
        let mut c = creature();
        c.frame = frame;
        let eye = c.eye_sprite(scalar(0.25));
        assert_eq!((eye.focus.x, eye.focus.y), expected[frame as usize]);
        assert_eq!(eye.frame, 0);
        assert_eq!(eye.flipped, 1);
        assert_eq!(eye.angle, scalar(0.25));
        assert_eq!(eye.position, c.position);
        assert_eq!(eye.color_swap, Vec2::new(0x5900FFFF, 0xDD304AFF));
        let offset = eye_offset(frame as usize);
        assert_eq!(offset.angle.bits, 0);
        assert_eq!((2 - offset.pos.x, -offset.pos.y), expected[frame as usize]);
    }
}

#[test]
fn the_animation_cycle_starts_over_at_frame_one() {
    let mut c = creature();
    c.frame = 0;
    let mut seen = Vec::new();
    for _ in 0..10 {
        c.advance_frame();
        seen.push(c.frame);
    }
    assert_eq!(seen, vec![1, 2, 3, 4, 5, 6, 7, 8, 1, 2]);
    c.frame = 20;
    c.advance_frame();
    assert_eq!(c.frame, 1);
    c.frame = -5;
    c.advance_frame();
    assert_eq!(c.frame, -4);
}

#[test]
fn a_declared_asset_has_nothing_loaded() {
    let asset = ImageAsset::new("assets/a.png", SpriteKind::SpriteType2Color2, 90, 90, 9);
    assert_eq!(asset.filename, "assets/a.png");
    assert_eq!(asset.vbo, 0);
    assert!(!asset.loaded());
    assert_eq!(asset.kind, SpriteKind::SpriteType2Color2);
    assert_eq!(asset.attributes_size, 36);
    assert_eq!((asset.frame_width, asset.frame_height, asset.texcoord_count), (90, 90, 9));
    assert_eq!(asset.capacity, 0);
    assert!(asset.instances.is_empty());
    assert!(asset.texcoords().is_empty());
    assert_eq!(asset.texture.id, 0);
    assert_eq!(ImageAsset::new("b", SpriteKind::SpriteType1, 1, 1, 1).attributes_size, 16);
}

#[test]
fn an_asset_accepts_only_images_that_hold_its_frames() {
    let asset = ImageAsset::new("assets/a.png", SpriteKind::SpriteType2Color2, 90, 90, 9);
    assert!(!asset.accepts_image(180, 180));
    assert!(asset.accepts_image(270, 270));
    assert!(asset.accepts_image(810, 90));
    assert!(!asset.accepts_image(809, 90));
    let eye = ImageAsset::new("assets/eye.png", SpriteKind::SpriteType3Color1, 4, 5, 1);
    assert!(eye.accepts_image(4, 5));
    assert!(!eye.accepts_image(4, 4));
}

#[test]
fn loading_tiles_the_texture_and_records_the_buffer() {
    let mut asset = ImageAsset::new("assets/a.png", SpriteKind::SpriteType2Color2, 90, 90, 9);
    asset.load(31, 270, 270, 4, 17);
    assert!(asset.loaded());
    assert_eq!(asset.vbo, 17);
    assert_eq!((asset.texture.id, asset.texture.width, asset.texture.height), (31, 270, 270));
    assert_eq!(asset.texture.filename, "assets/a.png");
    assert_eq!(asset.texcoords().len(), 9);
    assert_eq!(asset.texture.frame_texcoords_size, 9 * 32);
    assert_eq!(asset.texcoords()[8].bottom_left.x.num, 180);
    assert_eq!(asset.texcoords()[8].bottom_left.y.num, 0);
    assert_eq!(asset.capacity, 0);
    assert!(asset.fits_frame_uniform());
}

#[test]
fn an_empty_buffer_has_room_for_the_records_asked_for() {
    let mut asset = ImageAsset::new("assets/a.png", SpriteKind::SpriteType2Color2, 90, 90, 9);
    asset.load(31, 270, 270, 4, 17);
    let request = asset.empty_buffer_data(2, BufferUsage::DynamicDraw);
    assert_eq!(request, BufferAllocation { vbo: 17, bytes: 72, usage: BufferUsage::DynamicDraw });
    assert_eq!(asset.capacity, 2);
    assert_eq!(asset.instances, vec![0; 18]);
    let request = asset.empty_buffer_data(0, BufferUsage::StaticDraw);
    assert_eq!(request, BufferAllocation { vbo: 17, bytes: 0, usage: BufferUsage::StaticDraw });
    assert!(asset.instances.is_empty());
}

#[test]
fn room_can_be_given_while_the_sizes_can_be_written() {
    let mut asset = ImageAsset::new("assets/a.png", SpriteKind::SpriteType2Color2, 90, 90, 9);
    assert!(asset.can_allocate(0));
    assert!(asset.can_allocate(2));
    assert!(asset.can_allocate(0x0100_0000));
    assert!(!asset.can_allocate(usize::MAX));
    assert!(!asset.can_allocate(usize::MAX / 9 + 1));
    assert!(asset.is_wf());
    asset.attributes_size = 35;
    assert!(!asset.can_allocate(2));
    assert!(!asset.is_wf());
}

#[test]
fn soundness_checks_see_what_is_out_of_step() {
    let mut asset = ImageAsset::new("assets/a.png", SpriteKind::SpriteType2Color2, 90, 90, 9);
    asset.load(31, 270, 270, 4, 17);
    asset.empty_buffer_data(2, BufferUsage::DynamicDraw);
    assert!(asset.is_wf());
    assert!(asset.is_drawable());
    asset.instances.push(0);
    assert!(!asset.is_wf());
    asset.instances.pop();
    asset.capacity = 3;
    assert!(!asset.is_wf());
    asset.capacity = 2;
    asset.texture.generate_texcoords_buffer(1, 1, 64);
    assert!(asset.is_wf());
    assert!(!asset.is_drawable());
    assert!(!asset.fits_frame_uniform());
    let mut c = creature();
    assert!(c.is_wf());
    c.frame = 9;
    assert!(!c.is_wf());
    c.frame = -1;
    assert!(!c.is_wf());
}

#[test]
fn written_records_read_back_unchanged() {
    let mut asset = ImageAsset::new("assets/a.png", SpriteKind::SpriteType2Color2, 90, 90, 9);
    asset.load(31, 270, 270, 4, 17);
    asset.empty_buffer_data(3, BufferUsage::DynamicDraw);
    let records = vec![Sprite::Type2Color2(centered(1)), Sprite::Type2Color2(centered(-2))];
    asset.write_instances(&records);
    assert_eq!(asset.read_instances(2), records);
    assert_eq!(asset.instances.len(), 27);
    let mut expected = Vec::new();
    records[0].write_words(&mut expected);
    records[1].write_words(&mut expected);
    expected.extend_from_slice(&[0; 9]);
    assert_eq!(asset.instances, expected);

    let third = vec![Sprite::Type2Color2(centered(5))];
    asset.write_instances(&third);
    assert_eq!(
        asset.read_instances(3),
        vec![
            Sprite::Type2Color2(centered(5)),
            Sprite::Type2Color2(centered(-2)),
            Sprite::Type2Color2(SpriteType2Color2 {
                position: Vec2::new(Scalar { bits: 0 }, Scalar { bits: 0 }),
                frame: 0,
                flipped: 0,
                angle: Scalar { bits: 0 },
                color_swap_1: Vec2::new(0, 0),
                color_swap_2: Vec2::new(0, 0),
            }),
        ]
    );
    asset.write_instances(&Vec::new());
    assert_eq!(asset.read_instances(1), third);
    assert_eq!(asset.vbo, 17);
    assert_eq!(asset.capacity, 3);
}

#[test]
fn binding_an_asset_names_program_texture_and_layout() {
    let mut asset = ImageAsset::new("assets/eye.png", SpriteKind::SpriteType3Color1, 4, 5, 1);
    asset.load(31, 4, 5, 4, 17);
    asset.empty_buffer_data(2, BufferUsage::DynamicDraw);
    let binding = asset.set(&shaders());
    assert_eq!(binding.program, 3);
    assert_eq!(binding.vbo, 17);
    assert_eq!(binding.texture.texture, 31);
    assert_eq!(binding.texture.unit, 0);
    assert_eq!(binding.texture.sampler_uniform, 14);
    assert_eq!(binding.texture.sprite_size_uniform, 12);
    assert_eq!(binding.texture.sprite_size, Vec2::new(4, 5));
    let frames = binding.texture.frames.unwrap();
    assert_eq!((frames.frames_uniform, frames.entries), (15, 4));
    let layout: Vec<(u32, i32, bool, i32, i64)> = binding
        .attributes
        .iter()
        .map(|b| (b.location, b.components, b.integral, b.stride, b.offset))
        .collect();
    assert_eq!(
        layout,
        vec![
            (1, 2, false, 36, 0),
            (2, 1, true, 36, 8),
            (3, 1, true, 36, 12),
            (4, 1, false, 36, 16),
            (5, 2, true, 36, 20),
            (6, 2, true, 36, 28),
        ]
    );
}
