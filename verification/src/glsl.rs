//! Shader variants and their GLSL source.
//!
//! A variant is a list of per-instance vertex attributes and the bodies of
//! its two stages. The source of a stage is a prologue that all variants
//! share, the declarations of the variant's attributes, and the variant's
//! body.

use vstd::prelude::*;

verus! {

/// The attribute location of the per-vertex position of the unit quad. No
/// variant may declare an attribute there.
pub const ATTR_VERTEX_POS: u32 = 0;

/// The customary location of the per-instance position.
pub const ATTR_POSITION: u32 = 1;

/// The customary location of the per-instance frame index.
pub const ATTR_FRAME: u32 = 2;

/// The customary location of the per-instance flip flag.
pub const ATTR_FLIPPED: u32 = 3;

/// How a vertex source starts, up to the per-instance declarations.
pub const VERTEX_HEADER: &'static str = "
#version 300 es
precision mediump float;

// Per vertex, normalized:
layout (location = 0) in vec2 vertex_pos;
// Per instance:
";

/// What all vertex sources share after the per-instance declarations: the
/// uniforms, the pixel-to-screen helpers, the frame lookup and the flip.
pub const VERTEX_COMMON: &'static str = "
uniform vec2[256] frames;
uniform vec2 screen_size;
uniform vec2 cam_pos;     // in pixels
uniform vec2 sprite_size; // in pixels
uniform float scale;

out vec2 texcoord;

const vec2 TEXCOORD_FROM_ID[4] = vec2[4](
    vec2(1.0, 1.0), vec2(1.0, 0.0),
    vec2(0.0, 0.0), vec2(0.0, 1.0)
);

vec2 from_pixel(vec2 pos)
{
    return pos / screen_size;
}
ivec2 from_pixel(ivec2 pos)
{
    return pos / ivec2(screen_size);
}

int flipped_vertex_id()
{
    return 3 - gl_VertexID;
}

// For squares that turn about their centers.
const float VERT_DIST = 1.41421356237;
const float ANGLE_OFFSETS[4] = float[4](
    // pi/4
    0.78539816339,
    // 7pi/4
    5.49778714378,
    // 5pi/4
    3.92699081699,
    // 3pi/4
    2.35619449019
);

vec4 color_from(int color)
{
    int red = int((uint(color) & 0xFF000000u) >> 24u);
    return vec4(
        float(red) / 256.0,
        float((color & 0x00FF0000) >> 16) / 256.0,
        float((color & 0x0000FF00) >> 8)  / 256.0,
        float( color & 0x000000FF)        / 256.0
    );
}
";

/// How every fragment source starts: the sampler and the comparison of two
/// colors up to a tolerance.
pub const FRAGMENT_PROLOGUE: &'static str = "
#version 300 es
precision mediump float;

in vec2 texcoord;
out vec4 color;
uniform sampler2D tex;

bool approx(vec4 a, vec4 b, float alpha)
{
    vec4 diff = abs(a - b);
    return diff.x <= alpha &&
           diff.y <= alpha &&
           diff.z <= alpha &&
           diff.w <= alpha;
}
";

/// The GLSL type of a vertex attribute.
#[derive(Clone, Copy, Debug, PartialEq, Eq, Structural)]
pub enum GlslType {
    Float,
    Vec2,
    IVec2,
    Int,
}

/// The type that backs an attribute in an instance record.
#[derive(Clone, Copy, Debug, PartialEq, Eq, Structural)]
pub enum Backing {
    /// One 32-bit floating-point number.
    Real,
    /// One signed 32-bit integer.
    Int,
    /// One unsigned 32-bit integer.
    UInt,
    /// Two 32-bit floating-point numbers.
    RealPair,
    /// Two signed 32-bit integers.
    IntPair,
    /// Two unsigned 32-bit integers.
    UIntPair,
}

/// One per-instance vertex attribute of a variant.
#[derive(Clone, Copy, Debug, PartialEq, Eq)]
pub struct Attribute {
    pub location: u32,
    pub glsl_type: GlslType,
    pub backing: Backing,
    pub name: &'static str,
}

/// A named vertex-attribute schema with the bodies of its two stages.
#[derive(Clone, Debug, PartialEq, Eq)]
pub struct ShaderVariant {
    pub name: &'static str,
    pub attributes: Vec<Attribute>,
    pub vertex_main: &'static str,
    pub fragment_main: &'static str,
}

impl GlslType {
    /// The type's name in GLSL source.
    pub open spec fn source_name(self) -> Seq<char> {
        match self {
            GlslType::Float => "float"@,
            GlslType::Vec2 => "vec2"@,
            GlslType::IVec2 => "ivec2"@,
            GlslType::Int => "int"@,
        }
    }

    /// How many numbers an attribute of this type has.
    pub open spec fn component_count(self) -> int {
        match self {
            GlslType::Float | GlslType::Int => 1,
            GlslType::Vec2 | GlslType::IVec2 => 2,
        }
    }

    /// The attribute's numbers are integers, to be handed over as they are;
    /// otherwise they are floating-point numbers.
    pub open spec fn integral(self) -> bool {
        match self {
            GlslType::IVec2 | GlslType::Int => true,
            GlslType::Float | GlslType::Vec2 => false,
        }
    }

    /// The type's name in GLSL source.
    pub fn glsl_name(self) -> (name: &'static str)
        ensures
            name@ == self.source_name(),
    {
        match self {
            GlslType::Float => "float",
            GlslType::Vec2 => "vec2",
            GlslType::IVec2 => "ivec2",
            GlslType::Int => "int",
        }
    }

    /// How many numbers an attribute of this type has.
    pub fn components(self) -> (n: i32)
        ensures
            n == self.component_count(),
    {
        match self {
            GlslType::Float => 1,
            GlslType::Int => 1,
            GlslType::Vec2 => 2,
            GlslType::IVec2 => 2,
        }
    }

    /// Whether the attribute's numbers are integers.
    pub fn is_integral(self) -> (yes: bool)
        ensures
            yes == self.integral(),
    {
        match self {
            GlslType::IVec2 => true,
            GlslType::Int => true,
            GlslType::Float => false,
            GlslType::Vec2 => false,
        }
    }
}

impl Backing {
    /// The bytes that a value of the backing type takes in an instance
    /// record.
    pub open spec fn bytes(self) -> int {
        match self {
            Backing::Real | Backing::Int | Backing::UInt => 4,
            Backing::RealPair | Backing::IntPair | Backing::UIntPair => 8,
        }
    }

    /// The bytes that a value of the backing type takes in an instance
    /// record.
    pub fn byte_size(self) -> (n: usize)
        ensures
            n == self.bytes(),
    {
        match self {
            Backing::Real => 4,
            Backing::Int => 4,
            Backing::UInt => 4,
            Backing::RealPair => 8,
            Backing::IntPair => 8,
            Backing::UIntPair => 8,
        }
    }
}

/// The character of a decimal digit.
pub open spec fn digit_char(d: nat) -> char {
    if d == 0 {
        '0'
    } else if d == 1 {
        '1'
    } else if d == 2 {
        '2'
    } else if d == 3 {
        '3'
    } else if d == 4 {
        '4'
    } else if d == 5 {
        '5'
    } else if d == 6 {
        '6'
    } else if d == 7 {
        '7'
    } else if d == 8 {
        '8'
    } else {
        '9'
    }
}

/// A number written in decimal, without sign and without leading zeros.
pub open spec fn decimal_digits(n: nat) -> Seq<char>
    decreases n,
{
    if n < 10 {
        seq![digit_char(n)]
    } else {
        decimal_digits(n / 10).push(digit_char(n % 10))
    }
}

/// One decimal digit as text.
fn digit_text(d: u32) -> (text: &'static str)
    requires
        d < 10,
    ensures
        text@ == seq![digit_char(d as nat)],
{
    proof {
        reveal_strlit("0");
        reveal_strlit("1");
        reveal_strlit("2");
        reveal_strlit("3");
        reveal_strlit("4");
        reveal_strlit("5");
        reveal_strlit("6");
        reveal_strlit("7");
        reveal_strlit("8");
        reveal_strlit("9");
    }
    let text = if d == 0 {
        "0"
    } else if d == 1 {
        "1"
    } else if d == 2 {
        "2"
    } else if d == 3 {
        "3"
    } else if d == 4 {
        "4"
    } else if d == 5 {
        "5"
    } else if d == 6 {
        "6"
    } else if d == 7 {
        "7"
    } else if d == 8 {
        "8"
    } else {
        "9"
    };
    assert(text@ =~= seq![digit_char(d as nat)]);
    text
}

/// Writes a number in decimal.
pub fn decimal(n: u32) -> (text: String)
    ensures
        text@ == decimal_digits(n as nat),
    decreases n,
{
    if n < 10 {
        String::from_str(digit_text(n))
    } else {
        let mut text = decimal(n / 10);
        text.append(digit_text(n % 10));
        assert(text@ =~= decimal_digits(n as nat));
        text
    }
}

/// The declaration of one attribute in a vertex source.
pub open spec fn attribute_line(a: Attribute) -> Seq<char> {
    "layout (location = "@ + decimal_digits(a.location as nat) + ") in "@
        + a.glsl_type.source_name() + " "@ + a.name@ + ";\n"@
}

/// The declarations of the attributes, one line each, in order.
pub open spec fn attribute_block(attributes: Seq<Attribute>) -> Seq<char>
    decreases attributes.len(),
{
    if attributes.len() == 0 {
        Seq::empty()
    } else {
        attribute_block(attributes.drop_last()) + attribute_line(attributes.last())
    }
}

/// The bytes of an instance record before the attribute with the given
/// index: the sizes of the attributes before it, added up.
pub open spec fn attribute_offset(attributes: Seq<Attribute>, index: int) -> int
    decreases index,
{
    if index <= 0 {
        0
    } else {
        attribute_offset(attributes, index - 1) + attributes[index - 1].backing.bytes()
    }
}

/// The bytes of one instance record.
pub open spec fn record_bytes(attributes: Seq<Attribute>) -> int {
    attribute_offset(attributes, attributes.len() as int)
}

/// An attribute's offset grows with its index and stays within the record.
pub proof fn lemma_attribute_offset_bounds(attributes: Seq<Attribute>, index: int)
    requires
        0 <= index <= attributes.len(),
    ensures
        4 * index <= attribute_offset(attributes, index) <= 8 * index,
        attribute_offset(attributes, index) <= record_bytes(attributes),
        index < attributes.len() ==> attribute_offset(attributes, index)
            + attributes[index].backing.bytes() <= record_bytes(attributes),
    decreases attributes.len() - index,
{
    lemma_attribute_offset_linear(attributes, index);
    if index < attributes.len() {
        lemma_attribute_offset_bounds(attributes, index + 1);
    }
}

proof fn lemma_attribute_offset_linear(attributes: Seq<Attribute>, index: int)
    requires
        0 <= index <= attributes.len(),
    ensures
        4 * index <= attribute_offset(attributes, index) <= 8 * index,
    decreases index,
{
    if index > 0 {
        lemma_attribute_offset_linear(attributes, index - 1);
    }
}

/// How one attribute of an instance buffer is laid out for the GPU: which
/// location it feeds, with how many numbers of which kind, found at which
/// offset of each record, the records lying `stride` bytes apart. Each
/// attribute advances once per instance.
#[derive(Clone, Copy, Debug, PartialEq, Eq, Structural)]
pub struct AttributeBinding {
    pub location: u32,
    pub components: i32,
    pub integral: bool,
    pub stride: i32,
    pub offset: i64,
    pub divisor: u32,
}

/// The layout of the attribute with the given index.
pub open spec fn attribute_binding(attributes: Seq<Attribute>, index: int) -> AttributeBinding {
    AttributeBinding {
        location: attributes[index].location,
        components: attributes[index].glsl_type.component_count() as i32,
        integral: attributes[index].glsl_type.integral(),
        stride: record_bytes(attributes) as i32,
        offset: attribute_offset(attributes, index) as i64,
        divisor: 1,
    }
}

impl ShaderVariant {
    /// No attribute sits at the location kept for the vertex position.
    pub open spec fn keeps_vertex_position(&self) -> bool {
        forall|i: int|
            0 <= i < self.attributes@.len() ==> (#[trigger] self.attributes@[i]).location
                != ATTR_VERTEX_POS
    }

    /// The variant is sound: it leaves the vertex position's location alone,
    /// and the size of its instance record can be written as a stride.
    pub open spec fn wf(&self) -> bool {
        &&& self.keeps_vertex_position()
        &&& self.attributes@.len() <= 0x0fff_ffff
    }

    /// The vertex source of the variant.
    pub open spec fn vertex_source(&self) -> Seq<char> {
        VERTEX_HEADER@ + attribute_block(self.attributes@) + VERTEX_COMMON@ + self.vertex_main@
    }

    /// The fragment source of the variant.
    pub open spec fn fragment_source(&self) -> Seq<char> {
        FRAGMENT_PROLOGUE@ + self.fragment_main@
    }

    /// Tests whether the variant is sound.
    pub fn is_wf(&self) -> (sound: bool)
        ensures
            sound == self.wf(),
    {
        if self.attributes.len() > 0x0fff_ffff {
            return false;
        }
        let mut i: usize = 0;
        while i < self.attributes.len()
            invariant
                i <= self.attributes@.len(),
                forall|k: int|
                    0 <= k < i ==> (#[trigger] self.attributes@[k]).location != ATTR_VERTEX_POS,
            decreases self.attributes.len() - i,
        {
            if self.attributes[i].location == ATTR_VERTEX_POS {
                return false;
            }
            i += 1;
        }
        true
    }

    /// The size in bytes of one instance record of the variant.
    pub fn attributes_size(&self) -> (n: usize)
        requires
            self.attributes@.len() <= 0x0fff_ffff,
        ensures
            n == record_bytes(self.attributes@),
    {
        let mut n: usize = 0;
        let mut i: usize = 0;
        while i < self.attributes.len()
            invariant
                i <= self.attributes@.len(),
                self.attributes@.len() <= 0x0fff_ffff,
                n == attribute_offset(self.attributes@, i as int),
                n <= 8 * i,
            decreases self.attributes.len() - i,
        {
            n = n + self.attributes[i].backing.byte_size();
            i += 1;
        }
        n
    }

    /// Generates the vertex source: the shared header, one declaration for
    /// each attribute, the shared helpers, and the variant's body.
    pub fn vertex_shader(&self) -> (source: String)
        requires
            self.keeps_vertex_position(),
        ensures
            source@ == self.vertex_source(),
    {
        let mut vertex = String::from_str(VERTEX_HEADER);
        let mut i: usize = 0;
        while i < self.attributes.len()
            invariant
                i <= self.attributes@.len(),
                vertex@ == VERTEX_HEADER@ + attribute_block(self.attributes@.take(i as int)),
            decreases self.attributes.len() - i,
        {
            let a = self.attributes[i];
            let ghost before = vertex@;
            vertex.append("layout (location = ");
            let digits = decimal(a.location);
            vertex.append(digits.as_str());
            vertex.append(") in ");
            vertex.append(a.glsl_type.glsl_name());
            vertex.append(" ");
            vertex.append(a.name);
            vertex.append(";\n");
            proof {
                let next = self.attributes@.take(i + 1);
                assert(next.drop_last() == self.attributes@.take(i as int));
                assert(next.last() == a);
                assert(vertex@ =~= before + attribute_line(a));
            }
            i += 1;
        }
        proof {
            assert(self.attributes@.take(i as int) == self.attributes@);
        }
        vertex.append(VERTEX_COMMON);
        vertex.append(self.vertex_main);
        vertex
    }

    /// Generates the fragment source: the shared prologue and the variant's
    /// body.
    pub fn fragment_shader(&self) -> (source: String)
        ensures
            source@ == self.fragment_source(),
    {
        let mut fragment = String::from_str(FRAGMENT_PROLOGUE);
        fragment.append(self.fragment_main);
        fragment
    }

    /// Lays the variant's attributes out for an instance buffer: in the
    /// order of their declaration, each at the offset where the ones before
    /// it end, all with the record's size as stride.
    pub fn attribute_bindings(&self) -> (bindings: Vec<AttributeBinding>)
        requires
            self.attributes@.len() <= 0x0fff_ffff,
        ensures
            bindings@.len() == self.attributes@.len(),
            forall|i: int|
                0 <= i < bindings@.len() ==> #[trigger] bindings@[i] == attribute_binding(
                    self.attributes@,
                    i,
                ),
    {
        let size_of_sprite = self.attributes_size();
        proof {
            lemma_attribute_offset_bounds(self.attributes@, self.attributes@.len() as int);
        }
        let stride: i32 = size_of_sprite as i32;
        let mut bindings: Vec<AttributeBinding> = Vec::new();
        let mut offset: i64 = 0;
        let mut i: usize = 0;
        while i < self.attributes.len()
            invariant
                i <= self.attributes@.len(),
                self.attributes@.len() <= 0x0fff_ffff,
                stride == record_bytes(self.attributes@),
                offset == attribute_offset(self.attributes@, i as int),
                offset <= 8 * i,
                bindings@.len() == i,
                forall|k: int|
                    0 <= k < i ==> #[trigger] bindings@[k] == attribute_binding(
                        self.attributes@,
                        k,
                    ),
            decreases self.attributes.len() - i,
        {
            let a = self.attributes[i];
            bindings.push(
                AttributeBinding {
                    location: a.location,
                    components: a.glsl_type.components(),
                    integral: a.glsl_type.is_integral(),
                    stride: stride,
                    offset: offset,
                    divisor: 1,
                },
            );
            offset = offset + a.backing.byte_size() as i64;
            i += 1;
        }
        bindings
    }
}

} // verus!
