use af::frames::{Frame, Ratio, Texcoords};
use af::texture::{frame_capacity, load_texture, Texture, FRAME_UNIFORM_MAX, TEXCOORDS_BYTES};
use af::vecmath::Vec2;

fn ratio(num: i64, den: i64) -> Ratio {
    Ratio { num, den }
}

fn blank_texcoords() -> Texcoords {
    let zero = Vec2::new(ratio(0, 0), ratio(0, 0));
    Texcoords { top_right: zero, bottom_right: zero, bottom_left: zero, top_left: zero }
}

fn texture(width: i32, height: i32) -> Texture {
    load_texture("assets/test.png", 7, width, height, 4)
}

#[test]
fn texcoords_of_a_frame_at_the_origin() {
    let mut frame = Frame {
        position: Vec2::new(0, 0),
        size: Vec2::new(90, 45),
        texcoords: blank_texcoords(),
    };
    frame.generate_texcoords(180, 180);
    assert_eq!(frame.texcoords.top_right, Vec2::new(ratio(90, 180), ratio(45, 180)));
    assert_eq!(frame.texcoords.bottom_left, Vec2::new(ratio(0, 180), ratio(0, 180)));
    assert_eq!(frame.texcoords.bottom_right, Vec2::new(ratio(90, 180), ratio(0, 180)));
    assert_eq!(frame.texcoords.top_left, Vec2::new(ratio(0, 180), ratio(45, 180)));
    assert_eq!(frame.position, Vec2::new(0, 0));
    assert_eq!(frame.size, Vec2::new(90, 45));
}

#[test]
fn texcoords_of_a_frame_off_the_origin() {
    let mut frame = Frame {
        position: Vec2::new(90, 180),
        size: Vec2::new(90, 90),
        texcoords: blank_texcoords(),
    };
    frame.generate_texcoords(270, 270);
    assert_eq!(frame.texcoords.top_right, Vec2::new(ratio(180, 270), ratio(270, 270)));
    assert_eq!(frame.texcoords.bottom_left, Vec2::new(ratio(90, 270), ratio(180, 270)));
}

#[test]
fn texcoords_copy_to_overwrites() {
    let mut frame = Frame {
        position: Vec2::new(0, 0),
        size: Vec2::new(4, 5),
        texcoords: blank_texcoords(),
    };
    frame.generate_texcoords(4, 5);
    let mut dest = blank_texcoords();
    frame.texcoords.copy_to(&mut dest);
    assert_eq!(dest, frame.texcoords);
    assert_eq!(dest.top_right, Vec2::new(ratio(4, 4), ratio(5, 5)));
}

#[test]
fn capacity_is_the_product_of_whole_quotients() {
    assert_eq!(frame_capacity(180, 180, 90, 90), 4);
    assert_eq!(frame_capacity(270, 270, 90, 90), 9);
    assert_eq!(frame_capacity(200, 100, 90, 90), 2);
    assert_eq!(frame_capacity(4, 5, 4, 5), 1);
    assert_eq!(frame_capacity(89, 500, 90, 90), 0);
    assert_eq!(frame_capacity(500, 89, 90, 90), 0);
    assert_eq!(frame_capacity(100, 100, 0, 10), 0);
    assert_eq!(frame_capacity(100, 100, 10, 0), 0);
    assert_eq!(frame_capacity(0, 100, 10, 10), 0);
    assert_eq!(frame_capacity(-5, 100, 10, 10), 0);
    assert_eq!(frame_capacity(i32::MAX, i32::MAX, 1, 1), (i32::MAX as u64) * (i32::MAX as u64));
}

#[test]
fn one_frame_more_than_the_capacity_does_not_fit() {
    let t = texture(180, 180);
    assert!(t.holds_frames(90, 90, 0));
    assert!(t.holds_frames(90, 90, 4));
    assert!(!t.holds_frames(90, 90, 5));
    assert!(!t.holds_frames(90, 90, 9));
    let t = texture(270, 270);
    assert!(t.holds_frames(90, 90, 9));
    assert!(!t.holds_frames(90, 90, 10));
    assert!(!t.holds_frames(0, 90, 1));
    assert!(t.holds_frames(0, 90, 0));
}

#[test]
fn tiling_runs_left_to_right_from_the_high_edge() {
    let mut t = texture(270, 270);
    let mut frames = Vec::new();
    t.add_frames(&mut frames, 90, 90, 9);
    let origins: Vec<(i32, i32)> = frames.iter().map(|f| (f.position.x, f.position.y)).collect();
    assert_eq!(
        origins,
        vec![
            (0, 180),
            (90, 180),
            (180, 180),
            (0, 90),
            (90, 90),
            (180, 90),
            (0, 0),
            (90, 0),
            (180, 0)
        ]
    );
    for f in &frames {
        assert_eq!(f.size, Vec2::new(90, 90));
        assert!(f.position.x >= 0 && f.position.x + f.size.x <= 270);
        assert!(f.position.y >= 0 && f.position.y + f.size.y <= 270);
    }
    for i in 0..frames.len() {
        for j in 0..i {
            let (a, b) = (&frames[i], &frames[j]);
            let apart_x = a.position.x + 90 <= b.position.x || b.position.x + 90 <= a.position.x;
            let apart_y = a.position.y + 90 <= b.position.y || b.position.y + 90 <= a.position.y;
            assert!(apart_x || apart_y);
        }
    }
    assert_eq!(t.frame_texcoords_size, 9 * TEXCOORDS_BYTES);
    assert_eq!(frames[4].texcoords.top_right, Vec2::new(ratio(180, 270), ratio(180, 270)));
    assert_eq!(frames[4].texcoords.bottom_left, Vec2::new(ratio(90, 270), ratio(90, 270)));
}

#[test]
fn tiling_leaves_the_remainder_of_the_texture_unused() {
    let mut t = texture(200, 100);
    let mut frames = Vec::new();
    t.add_frames(&mut frames, 90, 90, 2);
    assert_eq!(frames.len(), 2);
    assert_eq!(frames[0].position, Vec2::new(0, 10));
    assert_eq!(frames[1].position, Vec2::new(90, 10));
    assert_eq!(frames[1].texcoords.top_right, Vec2::new(ratio(180, 200), ratio(100, 100)));
}

#[test]
fn tiling_appends_to_what_is_there() {
    let mut t = texture(180, 180);
    let mut frames = Vec::new();
    t.add_frames(&mut frames, 90, 90, 1);
    t.add_frames(&mut frames, 90, 90, 3);
    assert_eq!(frames.len(), 4);
    assert_eq!(frames[0].position, Vec2::new(0, 90));
    assert_eq!(frames[1].position, Vec2::new(0, 90));
    assert_eq!(frames[2].position, Vec2::new(90, 90));
    assert_eq!(frames[3].position, Vec2::new(0, 0));
    assert_eq!(t.frame_texcoords_size, 3 * TEXCOORDS_BYTES);
}

#[test]
fn tiling_of_no_frames_changes_nothing_but_the_byte_size() {
    let mut t = texture(10, 10);
    t.frame_texcoords_size = 64;
    let mut frames = Vec::new();
    t.add_frames(&mut frames, 90, 90, 0);
    assert!(frames.is_empty());
    assert_eq!(t.frame_texcoords_size, 0);
    assert_eq!((t.id, t.width, t.height, t.filename), (7, 10, 10, "assets/test.png"));
}

#[test]
fn frame_table_holds_the_texcoords_of_every_frame() {
    let mut t = texture(180, 180);
    t.generate_texcoords_buffer(90, 90, 4);
    assert_eq!(t.texcoords().len(), 4);
    assert_eq!(t.frame_texcoords_size, 4 * TEXCOORDS_BYTES);
    assert_eq!(t.texcoords()[0].bottom_left, Vec2::new(ratio(0, 180), ratio(90, 180)));
    assert_eq!(t.texcoords()[0].top_right, Vec2::new(ratio(90, 180), ratio(180, 180)));
    assert_eq!(t.texcoords()[3].bottom_left, Vec2::new(ratio(90, 180), ratio(0, 180)));
    assert_eq!(t.texcoords()[3].top_right, Vec2::new(ratio(180, 180), ratio(90, 180)));
    for tc in t.texcoords() {
        for r in [tc.top_right, tc.bottom_right, tc.bottom_left, tc.top_left] {
            assert!(r.x.den > 0 && 0 <= r.x.num && r.x.num <= r.x.den);
            assert!(r.y.den > 0 && 0 <= r.y.num && r.y.num <= r.y.den);
        }
    }
    t.generate_texcoords_buffer(90, 90, 1);
    assert_eq!(t.texcoords().len(), 1);
    assert_eq!(t.frame_texcoords_size, TEXCOORDS_BYTES);
}

#[test]
fn frame_table_can_be_changed_in_place() {
    let mut t = texture(180, 180);
    t.generate_texcoords_buffer(90, 90, 2);
    let first = t.texcoords()[0];
    t.texcoords_mut()[1] = first;
    assert_eq!(t.texcoords()[1], first);
    assert_eq!(t.texcoords().len(), 2);
}

#[test]
fn loaded_texture_has_no_frames() {
    let t = texture(64, 32);
    assert_eq!((t.id, t.width, t.height, t.filename), (7, 64, 32, "assets/test.png"));
    assert_eq!(t.frame_texcoords_size, 0);
    assert!(t.texcoords().is_empty());
    assert!(t.fits_frame_uniform());
}

#[test]
fn whole_texture_binding_sends_no_frames() {
    let t = texture(64, 32);
    let b = t.set_full(3, 5);
    assert_eq!(b.texture, 7);
    assert_eq!(b.unit, 0);
    assert_eq!(b.sampler_uniform, 3);
    assert_eq!(b.sprite_size_uniform, 5);
    assert_eq!(b.sprite_size, Vec2::new(64, 32));
    assert_eq!(b.frames, None);
}

#[test]
fn frame_binding_sends_four_entries_for_each_frame() {
    let mut t = texture(270, 270);
    t.generate_texcoords_buffer(90, 90, 9);
    let b = t.set(3, 5, 8, 90, 90);
    assert_eq!(b.texture, 7);
    assert_eq!(b.sprite_size, Vec2::new(90, 90));
    let frames = b.frames.unwrap();
    assert_eq!(frames.frames_uniform, 8);
    assert_eq!(frames.entries, 36);
    let none = texture(270, 270).set(3, 5, 8, 90, 90);
    assert_eq!(none.frames, None);
}

#[test]
fn frame_uniform_has_room_for_sixty_three_frames() {
    assert_eq!(FRAME_UNIFORM_MAX, 256);
    let mut t = texture(640, 640);
    t.generate_texcoords_buffer(10, 10, 63);
    assert!(t.fits_frame_uniform());
    t.generate_texcoords_buffer(10, 10, 64);
    assert!(!t.fits_frame_uniform());
}

#[test]
fn uniform_entries_follow_the_corners_of_the_unit_quad() {
    let mut t = texture(180, 180);
    t.generate_texcoords_buffer(90, 90, 2);
    let entries = t.uniform_entries();
    assert_eq!(
        entries,
        vec![
            Vec2::new(ratio(90, 180), ratio(180, 180)),
            Vec2::new(ratio(90, 180), ratio(90, 180)),
            Vec2::new(ratio(0, 180), ratio(90, 180)),
            Vec2::new(ratio(0, 180), ratio(180, 180)),
            Vec2::new(ratio(180, 180), ratio(180, 180)),
            Vec2::new(ratio(180, 180), ratio(90, 180)),
            Vec2::new(ratio(90, 180), ratio(90, 180)),
            Vec2::new(ratio(90, 180), ratio(180, 180)),
        ]
    );
    assert!(texture(10, 10).uniform_entries().is_empty());
}

#[test]
fn unloading_names_the_texture_to_delete() {
    let mut t = texture(180, 180);
    t.generate_texcoords_buffer(90, 90, 2);
    assert_eq!(t.unload(), 7);
    assert_eq!(t.id, 7);
    assert_eq!(t.texcoords().len(), 2);
    assert!(t.is_wf());
    t.frame_texcoords_size = 1;
    assert!(!t.is_wf());
}
