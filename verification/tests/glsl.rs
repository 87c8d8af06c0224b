use af::glsl::{
    decimal, Attribute, Backing, GlslType, ShaderVariant, ATTR_FLIPPED, ATTR_FRAME, ATTR_POSITION,
    ATTR_VERTEX_POS, FRAGMENT_PROLOGUE, VERTEX_COMMON, VERTEX_HEADER,
};
use af::shader::{
    SpriteKind, CENTERED_FRAGMENT_MAIN, CENTERED_VERTEX_MAIN, FOCAL_VERTEX_MAIN,
    PLAIN_FRAGMENT_MAIN, PLAIN_VERTEX_MAIN,
};

fn small_variant() -> ShaderVariant {
    ShaderVariant {
        name: "Small",
        attributes: vec![
            Attribute {
                location: 1,
                glsl_type: GlslType::Vec2,
                backing: Backing::RealPair,
                name: "position",
            },
            Attribute {
                location: 12,
                glsl_type: GlslType::Float,
                backing: Backing::Real,
                name: "yes",
            },
        ],
        vertex_main: "void main() { gl_Position = vec4(position, yes, 0.0f); }",
        fragment_main: "void main() { color = vec4(1.0); }",
    }
}

#[test]
fn decimal_writes_numbers_without_leading_zeros() {
    assert_eq!(decimal(0), "0");
    assert_eq!(decimal(7), "7");
    assert_eq!(decimal(10), "10");
    assert_eq!(decimal(1280), "1280");
    assert_eq!(decimal(4294967295), "4294967295");
    for n in [1u32, 9, 19, 99, 100, 101, 65535, 123456789] {
        assert_eq!(decimal(n), format!("{}", n));
    }
}

#[test]
fn attribute_locations_are_as_the_shaders_declare_them() {
    assert_eq!((ATTR_VERTEX_POS, ATTR_POSITION, ATTR_FRAME, ATTR_FLIPPED), (0, 1, 2, 3));
}

#[test]
fn vertex_source_is_header_declarations_helpers_body() {
    let v = small_variant();
    let expected = format!(
        "{}layout (location = 1) in vec2 position;\nlayout (location = 12) in float yes;\n{}{}",
        VERTEX_HEADER, VERTEX_COMMON, v.vertex_main
    );
    assert_eq!(v.vertex_shader(), expected);
}

#[test]
fn vertex_source_without_attributes() {
    let v = ShaderVariant {
        name: "Bare",
        attributes: vec![],
        vertex_main: "void main() {}",
        fragment_main: "",
    };
    assert_eq!(v.vertex_shader(), format!("{}{}void main() {{}}", VERTEX_HEADER, VERTEX_COMMON));
    assert_eq!(v.fragment_shader(), FRAGMENT_PROLOGUE);
}

#[test]
fn fragment_source_is_prologue_and_body() {
    let v = small_variant();
    assert_eq!(v.fragment_shader(), format!("{}{}", FRAGMENT_PROLOGUE, v.fragment_main));
}

#[test]
fn sources_of_the_three_kinds() {
    let plain = SpriteKind::SpriteType1.variant();
    assert_eq!(plain.name, "SpriteType1");
    assert_eq!(
        plain.vertex_shader(),
        format!(
            "{}layout (location = 1) in vec2 position;\nlayout (location = 2) in int frame;\nlayout (location = 3) in int flipped;\n{}{}",
            VERTEX_HEADER, VERTEX_COMMON, PLAIN_VERTEX_MAIN
        )
    );
    assert_eq!(plain.fragment_shader(), format!("{}{}", FRAGMENT_PROLOGUE, PLAIN_FRAGMENT_MAIN));

    let centered = SpriteKind::SpriteType2Color2.variant();
    assert_eq!(centered.name, "SpriteType2Color2");
    assert_eq!(
        centered.vertex_shader(),
        format!(
            "{}layout (location = 1) in vec2 position;\nlayout (location = 2) in int frame;\nlayout (location = 3) in int flipped;\nlayout (location = 4) in float angle;\nlayout (location = 5) in ivec2 color_swap_1;\nlayout (location = 6) in ivec2 color_swap_2;\n{}{}",
            VERTEX_HEADER, VERTEX_COMMON, CENTERED_VERTEX_MAIN
        )
    );
    assert_eq!(
        centered.fragment_shader(),
        format!("{}{}", FRAGMENT_PROLOGUE, CENTERED_FRAGMENT_MAIN)
    );

    let focal = SpriteKind::SpriteType3Color1.variant();
    assert_eq!(focal.name, "SpriteType3Color1");
    assert_eq!(
        focal.vertex_shader(),
        format!(
            "{}layout (location = 1) in vec2 position;\nlayout (location = 2) in int frame;\nlayout (location = 3) in int flipped;\nlayout (location = 4) in float angle;\nlayout (location = 5) in ivec2 focus;\nlayout (location = 6) in ivec2 color_swap;\n{}{}",
            VERTEX_HEADER, VERTEX_COMMON, FOCAL_VERTEX_MAIN
        )
    );
}

#[test]
fn color_key_tolerance_is_one_tenth() {
    assert!(CENTERED_FRAGMENT_MAIN.contains("approx(color, cswap1_from, 0.1)"));
    assert!(CENTERED_FRAGMENT_MAIN.contains("approx(color, cswap2_from, 0.1)"));
    assert!(FRAGMENT_PROLOGUE.contains("bool approx(vec4 a, vec4 b, float alpha)"));
    assert!(VERTEX_COMMON.contains("uniform vec2[256] frames;"));
    assert!(VERTEX_HEADER.contains("layout (location = 0) in vec2 vertex_pos;"));
}

#[test]
fn a_variant_at_the_vertex_position_is_unsound() {
    let mut v = small_variant();
    assert!(v.is_wf());
    v.attributes[1].location = 0;
    assert!(!v.is_wf());
    for kind in [
        SpriteKind::SpriteType1,
        SpriteKind::SpriteType2Color2,
        SpriteKind::SpriteType3Color1,
    ] {
        assert!(kind.variant().is_wf());
    }
}

#[test]
fn glsl_types_know_their_names_and_shapes() {
    assert_eq!(GlslType::Float.glsl_name(), "float");
    assert_eq!(GlslType::Vec2.glsl_name(), "vec2");
    assert_eq!(GlslType::IVec2.glsl_name(), "ivec2");
    assert_eq!(GlslType::Int.glsl_name(), "int");
    assert_eq!(GlslType::Float.components(), 1);
    assert_eq!(GlslType::Vec2.components(), 2);
    assert_eq!(GlslType::IVec2.components(), 2);
    assert_eq!(GlslType::Int.components(), 1);
    assert!(!GlslType::Float.is_integral());
    assert!(!GlslType::Vec2.is_integral());
    assert!(GlslType::IVec2.is_integral());
    assert!(GlslType::Int.is_integral());
    assert_eq!(Backing::Real.byte_size(), 4);
    assert_eq!(Backing::Int.byte_size(), 4);
    assert_eq!(Backing::UInt.byte_size(), 4);
    assert_eq!(Backing::RealPair.byte_size(), 8);
    assert_eq!(Backing::IntPair.byte_size(), 8);
    assert_eq!(Backing::UIntPair.byte_size(), 8);
}

#[test]
fn attributes_lie_one_after_the_other() {
    let v = SpriteKind::SpriteType2Color2.variant();
    assert_eq!(v.attributes_size(), 36);
    let bindings = v.attribute_bindings();
    let got: Vec<(u32, i32, bool, i32, i64, u32)> = bindings
        .iter()
        .map(|b| (b.location, b.components, b.integral, b.stride, b.offset, b.divisor))
        .collect();
    assert_eq!(
        got,
        vec![
            (1, 2, false, 36, 0, 1),
            (2, 1, true, 36, 8, 1),
            (3, 1, true, 36, 12, 1),
            (4, 1, false, 36, 16, 1),
            (5, 2, true, 36, 20, 1),
            (6, 2, true, 36, 28, 1),
        ]
    );
    assert_eq!(SpriteKind::SpriteType1.variant().attributes_size(), 16);
    assert_eq!(SpriteKind::SpriteType3Color1.variant().attributes_size(), 36);
    let small = small_variant().attribute_bindings();
    assert_eq!(small.len(), 2);
    assert_eq!((small[1].offset, small[1].stride), (8, 12));
}
