//! Instance records: what the GPU reads for each drawn copy of a sprite, and
//! how a record lies in an instance buffer as 32-bit words.

use crate::glsl::{attribute_offset, record_bytes};
use crate::shader::SpriteKind;
use crate::vecmath::Vec2;
use vstd::prelude::*;

verus! {

/// A 32-bit floating-point number, carried by its bit pattern. The library
/// stores such numbers and lays them out in records; it never computes with
/// them.
#[derive(Clone, Copy, Debug, PartialEq, Eq, Structural)]
pub struct Scalar {
    pub bits: u32,
}

/// The word that holds a signed number in two's complement.
pub open spec fn word_of_int(v: i32) -> u32 {
    if v >= 0 {
        v as u32
    } else {
        (v + 0x1_0000_0000) as u32
    }
}

/// The signed number that a word holds in two's complement.
pub open spec fn int_of_word(w: u32) -> i32 {
    if w < 0x8000_0000 {
        w as i32
    } else {
        (w - 0x1_0000_0000) as i32
    }
}

/// The word that holds a signed number.
pub fn int_to_word(v: i32) -> (w: u32)
    ensures
        w == word_of_int(v),
        int_of_word(w) == v,
{
    if v >= 0 {
        v as u32
    } else {
        (v as i64 + 0x1_0000_0000) as u32
    }
}

/// The signed number that a word holds.
pub fn word_to_int(w: u32) -> (v: i32)
    ensures
        v == int_of_word(w),
        word_of_int(v) == w,
{
    if w < 0x8000_0000 {
        w as i32
    } else {
        (w as i64 - 0x1_0000_0000) as i32
    }
}

/// The record of a sprite with frames and flipping only.
#[derive(Clone, Copy, Debug, PartialEq, Eq)]
pub struct SpriteType1 {
    /// In pixels.
    pub position: Vec2<Scalar>,
    pub frame: i32,
    /// Not zero for a sprite that is mirrored.
    pub flipped: i32,
}

/// The record of a sprite that turns about its center, with two color swaps.
/// A swap is a pair of colors: the one to replace and the one to put.
#[derive(Clone, Copy, Debug, PartialEq, Eq)]
pub struct SpriteType2Color2 {
    pub position: Vec2<Scalar>,
    pub frame: i32,
    pub flipped: i32,
    pub angle: Scalar,
    pub color_swap_1: Vec2<u32>,
    pub color_swap_2: Vec2<u32>,
}

/// The record of a sprite that turns about a focal point, with one color
/// swap.
#[derive(Clone, Copy, Debug, PartialEq, Eq)]
pub struct SpriteType3Color1 {
    pub position: Vec2<Scalar>,
    pub frame: i32,
    pub flipped: i32,
    pub angle: Scalar,
    /// In pixels.
    pub focus: Vec2<i32>,
    pub color_swap: Vec2<u32>,
}

/// An instance record of any kind.
#[derive(Clone, Copy, Debug, PartialEq, Eq)]
pub enum Sprite {
    Type1(SpriteType1),
    Type2Color2(SpriteType2Color2),
    Type3Color1(SpriteType3Color1),
}

/// The number of words in a record of the given kind.
pub open spec fn record_words(kind: SpriteKind) -> nat {
    match kind {
        SpriteKind::SpriteType1 => 4,
        SpriteKind::SpriteType2Color2 => 9,
        SpriteKind::SpriteType3Color1 => 9,
    }
}

/// The number of words in a record of the given kind.
pub fn words_per_record(kind: SpriteKind) -> (n: usize)
    ensures
        n == record_words(kind),
        4 * n == record_bytes(kind.schema()),
{
    proof {
        lemma_record_size(kind);
    }
    match kind {
        SpriteKind::SpriteType1 => 4,
        SpriteKind::SpriteType2Color2 => 9,
        SpriteKind::SpriteType3Color1 => 9,
    }
}

/// A record takes as many bytes as its kind's attributes add up to: four for
/// each word.
pub proof fn lemma_record_size(kind: SpriteKind)
    ensures
        4 * record_words(kind) == record_bytes(kind.schema()),
{
    reveal_with_fuel(attribute_offset, 7);
}

impl Sprite {
    /// The kind of the record.
    pub open spec fn kind_of(self) -> SpriteKind {
        match self {
            Sprite::Type1(_) => SpriteKind::SpriteType1,
            Sprite::Type2Color2(_) => SpriteKind::SpriteType2Color2,
            Sprite::Type3Color1(_) => SpriteKind::SpriteType3Color1,
        }
    }

    /// The record as words: its fields in the order of the kind's
    /// attributes, a pair as two words, first `x`, then `y`.
    pub open spec fn to_words(self) -> Seq<u32> {
        match self {
            Sprite::Type1(s) => seq![
                s.position.x.bits,
                s.position.y.bits,
                word_of_int(s.frame),
                word_of_int(s.flipped),
            ],
            Sprite::Type2Color2(s) => seq![
                s.position.x.bits,
                s.position.y.bits,
                word_of_int(s.frame),
                word_of_int(s.flipped),
                s.angle.bits,
                s.color_swap_1.x,
                s.color_swap_1.y,
                s.color_swap_2.x,
                s.color_swap_2.y,
            ],
            Sprite::Type3Color1(s) => seq![
                s.position.x.bits,
                s.position.y.bits,
                word_of_int(s.frame),
                word_of_int(s.flipped),
                s.angle.bits,
                word_of_int(s.focus.x),
                word_of_int(s.focus.y),
                s.color_swap.x,
                s.color_swap.y,
            ],
        }
    }

    /// The record of the given kind that the words hold. The words must be
    /// as many as a record of the kind has.
    pub open spec fn of_words(kind: SpriteKind, w: Seq<u32>) -> Sprite
        recommends
            w.len() == record_words(kind),
    {
        let position = Vec2 { x: Scalar { bits: w[0] }, y: Scalar { bits: w[1] } };
        let frame = int_of_word(w[2]);
        let flipped = int_of_word(w[3]);
        match kind {
            SpriteKind::SpriteType1 => Sprite::Type1(
                SpriteType1 { position: position, frame: frame, flipped: flipped },
            ),
            SpriteKind::SpriteType2Color2 => Sprite::Type2Color2(
                SpriteType2Color2 {
                    position: position,
                    frame: frame,
                    flipped: flipped,
                    angle: Scalar { bits: w[4] },
                    color_swap_1: Vec2 { x: w[5], y: w[6] },
                    color_swap_2: Vec2 { x: w[7], y: w[8] },
                },
            ),
            SpriteKind::SpriteType3Color1 => Sprite::Type3Color1(
                SpriteType3Color1 {
                    position: position,
                    frame: frame,
                    flipped: flipped,
                    angle: Scalar { bits: w[4] },
                    focus: Vec2 { x: int_of_word(w[5]), y: int_of_word(w[6]) },
                    color_swap: Vec2 { x: w[7], y: w[8] },
                },
            ),
        }
    }

    /// The kind of the record.
    pub fn kind(&self) -> (kind: SpriteKind)
        ensures
            kind == self.kind_of(),
    {
        match self {
            Sprite::Type1(_) => SpriteKind::SpriteType1,
            Sprite::Type2Color2(_) => SpriteKind::SpriteType2Color2,
            Sprite::Type3Color1(_) => SpriteKind::SpriteType3Color1,
        }
    }

    /// Appends the record's words to `out`.
    pub fn write_words(&self, out: &mut Vec<u32>)
        ensures
            final(out)@ == old(out)@ + self.to_words(),
    {
        match self {
            Sprite::Type1(s) => {
                out.push(s.position.x.bits);
                out.push(s.position.y.bits);
                out.push(int_to_word(s.frame));
                out.push(int_to_word(s.flipped));
            },
            Sprite::Type2Color2(s) => {
                out.push(s.position.x.bits);
                out.push(s.position.y.bits);
                out.push(int_to_word(s.frame));
                out.push(int_to_word(s.flipped));
                out.push(s.angle.bits);
                out.push(s.color_swap_1.x);
                out.push(s.color_swap_1.y);
                out.push(s.color_swap_2.x);
                out.push(s.color_swap_2.y);
            },
            Sprite::Type3Color1(s) => {
                out.push(s.position.x.bits);
                out.push(s.position.y.bits);
                out.push(int_to_word(s.frame));
                out.push(int_to_word(s.flipped));
                out.push(s.angle.bits);
                out.push(int_to_word(s.focus.x));
                out.push(int_to_word(s.focus.y));
                out.push(s.color_swap.x);
                out.push(s.color_swap.y);
            },
        }
        assert(out@ =~= old(out)@ + self.to_words());
    }

    /// Reads the record of the given kind that starts at word `at` of
    /// `words`.
    pub fn read_words(kind: SpriteKind, words: &Vec<u32>, at: usize) -> (s: Sprite)
        requires
            at + record_words(kind) <= words@.len(),
        ensures
            s == Sprite::of_words(
                kind,
                words@.subrange(at as int, at + record_words(kind) as int),
            ),
            s.kind_of() == kind,
    {
        let ghost w = words@.subrange(at as int, at + record_words(kind) as int);
        assert(record_words(kind) >= 4);
        assert(words@.len() == words.len());
        let position = Vec2::new(Scalar { bits: words[at] }, Scalar { bits: words[at + 1] });
        let frame = word_to_int(words[at + 2]);
        let flipped = word_to_int(words[at + 3]);
        assert(w[0] == words@[at as int] && w[1] == words@[at + 1] && w[2] == words@[at + 2]
            && w[3] == words@[at + 3]);
        match kind {
            SpriteKind::SpriteType1 => Sprite::Type1(
                SpriteType1 { position: position, frame: frame, flipped: flipped },
            ),
            SpriteKind::SpriteType2Color2 => {
                assert(w[4] == words@[at + 4] && w[5] == words@[at + 5] && w[6] == words@[at + 6]
                    && w[7] == words@[at + 7] && w[8] == words@[at + 8]);
                Sprite::Type2Color2(
                    SpriteType2Color2 {
                        position: position,
                        frame: frame,
                        flipped: flipped,
                        angle: Scalar { bits: words[at + 4] },
                        color_swap_1: Vec2::new(words[at + 5], words[at + 6]),
                        color_swap_2: Vec2::new(words[at + 7], words[at + 8]),
                    },
                )
            },
            SpriteKind::SpriteType3Color1 => {
                assert(w[4] == words@[at + 4] && w[5] == words@[at + 5] && w[6] == words@[at + 6]
                    && w[7] == words@[at + 7] && w[8] == words@[at + 8]);
                Sprite::Type3Color1(
                    SpriteType3Color1 {
                        position: position,
                        frame: frame,
                        flipped: flipped,
                        angle: Scalar { bits: words[at + 4] },
                        focus: Vec2::new(word_to_int(words[at + 5]), word_to_int(words[at + 6])),
                        color_swap: Vec2::new(words[at + 7], words[at + 8]),
                    },
                )
            },
        }
    }
}

/// A record has as many words as its kind says, and reading the words of a
/// record gives the record back.
pub proof fn lemma_words_round_trip(s: Sprite)
    ensures
        s.to_words().len() == record_words(s.kind_of()),
        Sprite::of_words(s.kind_of(), s.to_words()) == s,
{
}

/// Each field of a record starts at the word where its attribute's byte
/// offset says: the offset of attribute `i`, divided by four, is the index
/// of the field's first word.
pub proof fn lemma_fields_at_attribute_offsets(s: Sprite)
    ensures
        ({
            let schema = s.kind_of().schema();
            let w = s.to_words();
            &&& attribute_offset(schema, 0) == 0
            &&& attribute_offset(schema, 1) == 4 * 2
            &&& attribute_offset(schema, 2) == 4 * 3
            &&& match s {
                Sprite::Type1(r) => {
                    &&& w[0] == r.position.x.bits && w[1] == r.position.y.bits
                    &&& w[2] == word_of_int(r.frame)
                    &&& w[3] == word_of_int(r.flipped)
                },
                Sprite::Type2Color2(r) => {
                    &&& w[0] == r.position.x.bits && w[1] == r.position.y.bits
                    &&& w[2] == word_of_int(r.frame)
                    &&& w[3] == word_of_int(r.flipped)
                    &&& attribute_offset(schema, 3) == 4 * 4 && w[4] == r.angle.bits
                    &&& attribute_offset(schema, 4) == 4 * 5 && w[5] == r.color_swap_1.x
                        && w[6] == r.color_swap_1.y
                    &&& attribute_offset(schema, 5) == 4 * 7 && w[7] == r.color_swap_2.x
                        && w[8] == r.color_swap_2.y
                },
                Sprite::Type3Color1(r) => {
                    &&& w[0] == r.position.x.bits && w[1] == r.position.y.bits
                    &&& w[2] == word_of_int(r.frame)
                    &&& w[3] == word_of_int(r.flipped)
                    &&& attribute_offset(schema, 3) == 4 * 4 && w[4] == r.angle.bits
                    &&& attribute_offset(schema, 4) == 4 * 5 && w[5] == word_of_int(r.focus.x)
                        && w[6] == word_of_int(r.focus.y)
                    &&& attribute_offset(schema, 5) == 4 * 7 && w[7] == r.color_swap.x
                        && w[8] == r.color_swap.y
                },
            }
        }),
{
    reveal_with_fuel(attribute_offset, 7);
}

} // verus!
