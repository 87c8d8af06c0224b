use af::gpu::{check_error, names_program, GpuError};
use af::program::{create_program, info_log_bytes, status_ok, BuildEvent, BuildStage};
use af::shader::{Shader, ShaderBuilds, Shaders, SpriteKind, VariantBuild};

fn shader(program: u32) -> Shader {
    Shader {
        program,
        cam_pos_uniform: 1,
        scale_uniform: 2,
        sprite_size_uniform: 3,
        screen_size_uniform: 4,
        tex_uniform: 5,
        frames_uniform: 6,
    }
}

fn shaders(a: u32, b: u32, c: u32) -> Shaders {
    Shaders { SpriteType1: shader(a), SpriteType2Color2: shader(b), SpriteType3Color1: shader(c) }
}

fn built(was_program: bool, program: u32) -> VariantBuild {
    VariantBuild { was_program, built: Some(shader(program)) }
}

fn failed(was_program: bool) -> VariantBuild {
    VariantBuild { was_program, built: None }
}

#[test]
fn first_compile_installs_every_program_and_deletes_nothing() {
    let mut s = shaders(0, 0, 0);
    let report = s.compile(&ShaderBuilds {
        SpriteType1: built(false, 11),
        SpriteType2Color2: built(false, 12),
        SpriteType3Color1: built(false, 13),
    });
    assert_eq!(s, shaders(11, 12, 13));
    assert!(report.failed.is_empty());
    assert!(report.stale.is_empty());
}

#[test]
fn recompile_replaces_programs_and_lists_the_old_ones() {
    let mut s = shaders(11, 12, 13);
    let report = s.compile(&ShaderBuilds {
        SpriteType1: built(true, 21),
        SpriteType2Color2: built(true, 22),
        SpriteType3Color1: built(true, 23),
    });
    assert_eq!(s, shaders(21, 22, 23));
    assert!(report.failed.is_empty());
    assert_eq!(report.stale, vec![11, 12, 13]);
}

#[test]
fn a_failed_kind_keeps_its_program_and_the_others_move_on() {
    let mut s = shaders(11, 12, 13);
    let report = s.compile(&ShaderBuilds {
        SpriteType1: built(true, 21),
        SpriteType2Color2: failed(true),
        SpriteType3Color1: built(true, 23),
    });
    assert_eq!(s, shaders(21, 12, 23));
    assert_eq!(report.failed, vec![SpriteKind::SpriteType2Color2]);
    assert_eq!(report.stale, vec![11, 13]);
    let names: Vec<&str> = report.failed.iter().map(|k| k.name()).collect();
    assert_eq!(names, vec!["SpriteType2Color2"]);
}

#[test]
fn every_kind_can_fail() {
    let mut s = shaders(11, 12, 13);
    let report = s.compile(&ShaderBuilds {
        SpriteType1: failed(true),
        SpriteType2Color2: failed(true),
        SpriteType3Color1: failed(false),
    });
    assert_eq!(s, shaders(11, 12, 13));
    assert_eq!(
        report.failed,
        vec![SpriteKind::SpriteType1, SpriteKind::SpriteType2Color2, SpriteKind::SpriteType3Color1]
    );
    assert!(report.stale.is_empty());
}

#[test]
fn install_returns_the_old_program_only_if_it_was_one() {
    let mut s = shader(11);
    assert_eq!(s.install(built(true, 21)), Some(11));
    assert_eq!(s, shader(21));
    assert_eq!(s.install(built(false, 31)), None);
    assert_eq!(s, shader(31));
    assert_eq!(s.install(failed(true)), None);
    assert_eq!(s, shader(31));
}

#[test]
fn registry_lists_its_shaders_in_order() {
    let s = shaders(11, 12, 13);
    assert_eq!(Shaders::count(), 3);
    assert_eq!(
        s.each_shader(),
        vec![
            (shader(11), SpriteKind::SpriteType1),
            (shader(12), SpriteKind::SpriteType2Color2),
            (shader(13), SpriteKind::SpriteType3Color1),
        ]
    );
    assert_eq!(s.shader(SpriteKind::SpriteType3Color1), shader(13));
    assert_eq!(SpriteKind::SpriteType1.name(), "SpriteType1");
    assert_eq!(SpriteKind::SpriteType3Color1.name(), "SpriteType3Color1");
}

#[test]
fn a_build_that_goes_well_ends_with_the_program() {
    let stage = BuildStage::start();
    assert_eq!(stage, BuildStage::Vertex);
    let step = create_program(stage, BuildEvent::Compiled { shader: 4, ok: true });
    assert_eq!(step.next, BuildStage::Fragment { vert: 4 });
    assert!(step.delete_shaders.is_empty());
    assert_eq!(step.delete_program, None);
    let step = create_program(step.next, BuildEvent::Compiled { shader: 5, ok: true });
    assert_eq!(step.next, BuildStage::Link { vert: 4, frag: 5 });
    assert!(step.delete_shaders.is_empty());
    let step = create_program(step.next, BuildEvent::Linked { program: 6, ok: true });
    assert_eq!(step.next, BuildStage::Finished { program: Some(6) });
    assert_eq!(step.delete_shaders, vec![4, 5]);
    assert_eq!(step.delete_program, None);
    assert_eq!(step.next.program(), Some(6));
}

#[test]
fn a_vertex_shader_that_fails_ends_the_build() {
    let step = create_program(BuildStage::Vertex, BuildEvent::Compiled { shader: 4, ok: false });
    assert_eq!(step.next, BuildStage::Finished { program: None });
    assert_eq!(step.delete_shaders, vec![4]);
    assert_eq!(step.delete_program, None);
    assert_eq!(step.next.program(), None);
}

#[test]
fn a_fragment_shader_that_fails_takes_the_vertex_shader_along() {
    let stage = BuildStage::Fragment { vert: 4 };
    let step = create_program(stage, BuildEvent::Compiled { shader: 5, ok: false });
    assert_eq!(step.next, BuildStage::Finished { program: None });
    assert_eq!(step.delete_shaders, vec![4, 5]);
    assert_eq!(step.delete_program, None);
}

#[test]
fn a_program_that_fails_to_link_is_deleted_with_its_shaders() {
    let stage = BuildStage::Link { vert: 4, frag: 5 };
    let step = create_program(stage, BuildEvent::Linked { program: 6, ok: false });
    assert_eq!(step.next, BuildStage::Finished { program: None });
    assert_eq!(step.delete_shaders, vec![4, 5]);
    assert_eq!(step.delete_program, Some(6));
}

#[test]
fn an_object_reported_out_of_turn_is_deleted() {
    let stage = BuildStage::Vertex;
    assert!(!stage.expects(&BuildEvent::Linked { program: 6, ok: true }));
    let step = create_program(stage, BuildEvent::Linked { program: 6, ok: true });
    assert_eq!(step.next, BuildStage::Vertex);
    assert!(step.delete_shaders.is_empty());
    assert_eq!(step.delete_program, Some(6));

    let done = BuildStage::Finished { program: Some(6) };
    assert!(!done.expects(&BuildEvent::Compiled { shader: 9, ok: true }));
    let step = create_program(done, BuildEvent::Compiled { shader: 9, ok: true });
    assert_eq!(step.next, done);
    assert_eq!(step.delete_shaders, vec![9]);
    assert_eq!(step.delete_program, None);

    let link = BuildStage::Link { vert: 4, frag: 5 };
    assert!(link.expects(&BuildEvent::Linked { program: 6, ok: false }));
    assert!(!link.expects(&BuildEvent::Compiled { shader: 9, ok: true }));
    assert!(BuildStage::Vertex.expects(&BuildEvent::Compiled { shader: 9, ok: false }));
    assert!(BuildStage::Fragment { vert: 1 }.expects(&BuildEvent::Compiled { shader: 9, ok: true }));
}

#[test]
fn a_status_of_zero_is_a_failure() {
    assert!(!status_ok(0));
    assert!(status_ok(1));
    assert!(status_ok(-1));
    assert_eq!(info_log_bytes(1), 0);
    assert_eq!(info_log_bytes(81), 80);
}

#[test]
fn only_the_answer_yes_names_a_program() {
    assert!(names_program(1));
    assert!(!names_program(0));
    assert!(!names_program(2));
    assert!(!names_program(255));
}

#[test]
fn only_the_code_for_no_error_passes() {
    assert_eq!(check_error(0), Ok(()));
    assert_eq!(check_error(0x0500), Err(GpuError::InvalidEnum));
    assert_eq!(check_error(0x0501), Err(GpuError::InvalidValue));
    assert_eq!(check_error(0x0502), Err(GpuError::InvalidOperation));
    assert_eq!(check_error(0x0506), Err(GpuError::InvalidFramebufferOperation));
    assert_eq!(check_error(0x0505), Err(GpuError::OutOfMemory));
    assert_eq!(check_error(0x0503), Err(GpuError::Other { code: 0x0503 }));
    assert_eq!(check_error(1), Err(GpuError::Other { code: 1 }));
    assert_eq!(check_error(u32::MAX), Err(GpuError::Other { code: u32::MAX }));
}

#[test]
fn every_error_has_its_diagnostic() {
    assert_eq!(GpuError::InvalidEnum.message(), "Invalid enum!");
    assert_eq!(GpuError::InvalidValue.message(), "Invalid value!");
    assert_eq!(GpuError::InvalidOperation.message(), "Invalid operation!");
    assert_eq!(GpuError::InvalidFramebufferOperation.message(), "Invalid framebuffer operation?!");
    assert_eq!(GpuError::OutOfMemory.message(), "Out of memory bro!!!!!!!");
    assert_eq!(GpuError::Other { code: 1283 }.message(), "OpenGL Error: 1283");
}
