//! Textures that live on the GPU, seen from the CPU side: their handle, their
//! size and the table of texture coordinates of their frames.

use crate::frames::{
    cells_along,
    grid_capacity,
    lemma_capacity_positive,
    lemma_cells_along,
    tiled_frame,
    tiled_frames,
    Frame,
    Ratio,
    Texcoords,
};
use crate::vecmath::Vec2;
use vstd::arithmetic::div_mod::lemma_fundamental_div_mod_converse;
use vstd::prelude::*;

verus! {

/// The most two-component entries that the frame table of a shader holds.
pub const FRAME_UNIFORM_MAX: i64 = 256;

/// The bytes that one frame's texture coordinates take in the frame table:
/// four corners of two 4-byte numbers each.
pub const TEXCOORDS_BYTES: i64 = 32;

/// The channels of a decoded image that can become a texture: RGBA.
pub const TEXTURE_CHANNELS: i32 = 4;

/// A texture that is on the GPU.
#[derive(Debug, PartialEq, Eq)]
pub struct Texture {
    /// The GPU's handle.
    pub id: u32,
    pub width: i32,
    pub height: i32,
    /// Where the image came from.
    pub filename: &'static str,
    /// The size in bytes of the frame table.
    pub frame_texcoords_size: i64,
    /// The frame table: the texture coordinates of each frame, by index.
    pub texcoords_space: Vec<Texcoords>,
}

/// What has to be bound and set before a draw that samples a texture.
#[derive(Clone, Copy, Debug, PartialEq, Eq)]
pub struct TextureBinding {
    /// The texture to bind to the 2D target.
    pub texture: u32,
    /// The texture unit to activate, and to set the sampler to.
    pub unit: i32,
    pub sampler_uniform: i32,
    pub sprite_size_uniform: i32,
    /// The sprite's extent in pixels, for `sprite_size_uniform`.
    pub sprite_size: Vec2<i32>,
    /// The upload of the frame table, if the texture has frames.
    pub frames: Option<FrameTableUpload>,
}

/// An upload of a frame table to a shader's frame uniform.
#[derive(Clone, Copy, Debug, PartialEq, Eq, Structural)]
pub struct FrameTableUpload {
    pub frames_uniform: i32,
    /// The number of two-component entries: four for each frame.
    pub entries: i32,
}

/// The texture for an image that was decoded and sent to the GPU: no frames
/// yet.
pub fn load_texture(filename: &'static str, id: u32, width: i32, height: i32, channels: i32) -> (t:
    Texture)
    requires
        channels == TEXTURE_CHANNELS,
    ensures
        t.id == id,
        t.width == width,
        t.height == height,
        t.filename == filename,
        t.frame_texcoords_size == 0,
        t.texcoords_space@ == Seq::<Texcoords>::empty(),
        t.wf(),
{
    Texture {
        id: id,
        width: width,
        height: height,
        filename: filename,
        frame_texcoords_size: 0,
        texcoords_space: Vec::new(),
    }
}

/// The number of cells of `uwidth` by `uheight` pixels that a texture of the
/// given size holds.
pub fn frame_capacity(tex_width: i32, tex_height: i32, uwidth: usize, uheight: usize) -> (n: u64)
    ensures
        n == grid_capacity(tex_width as int, tex_height as int, uwidth as int, uheight as int),
{
    if tex_width <= 0 || tex_height <= 0 || uwidth == 0 || uheight == 0 {
        assert(cells_along(tex_width as int, uwidth as int) == 0 || cells_along(
            tex_height as int,
            uheight as int,
        ) == 0);
        assert(grid_capacity(tex_width as int, tex_height as int, uwidth as int, uheight as int)
            == 0) by (nonlinear_arith)
            requires
                cells_along(tex_width as int, uwidth as int) == 0 || cells_along(
                    tex_height as int,
                    uheight as int,
                ) == 0,
        ;
        return 0;
    }
    let cols: u64 = (tex_width as u64) / (uwidth as u64);
    let rows: u64 = (tex_height as u64) / (uheight as u64);
    assert(cols <= tex_width && rows <= tex_height) by (nonlinear_arith)
        requires
            cols == (tex_width as int) / (uwidth as int),
            rows == (tex_height as int) / (uheight as int),
            tex_width > 0,
            tex_height > 0,
            uwidth > 0,
            uheight > 0,
    ;
    assert(cols * rows <= 0x8000_0000 * 0x8000_0000) by (nonlinear_arith)
        requires
            cols <= 0x8000_0000,
            rows <= 0x8000_0000,
    ;
    cols * rows
}

/// A texture of the given size holds `count` frames of `uwidth` by `uheight`
/// pixels, and the byte size of a table of that many frames can be written
/// down.
pub open spec fn tiling_fits(
    tex_width: int,
    tex_height: int,
    uwidth: int,
    uheight: int,
    count: int,
) -> bool {
    &&& count <= grid_capacity(tex_width, tex_height, uwidth, uheight)
    &&& count * TEXCOORDS_BYTES <= i64::MAX
}

/// A texture holds as many frames as its grid has cells and not one more: a
/// request for one frame beyond the capacity does not fit, whatever the
/// sizes.
pub proof fn lemma_one_more_does_not_fit(tex_width: int, tex_height: int, uwidth: int, uheight: int)
    ensures
        !tiling_fits(
            tex_width,
            tex_height,
            uwidth,
            uheight,
            grid_capacity(tex_width, tex_height, uwidth, uheight) + 1,
        ),
{
}

/// A consistent texture fits a shader's frame uniform exactly when it has
/// fewer than 64 frames: four entries for each frame, and fewer entries than
/// the uniform's 256.
pub proof fn lemma_frame_uniform_room(texture: Texture)
    requires
        texture.wf(),
    ensures
        texture.frames_fit_uniform() <==> 4 * texture.texcoords_space@.len() < FRAME_UNIFORM_MAX,
        texture.frames_fit_uniform() <==> texture.texcoords_space@.len() < 64,
{
}

impl Texture {
    /// The byte size that the texture records agrees with its frame table.
    pub open spec fn wf(&self) -> bool {
        self.frame_texcoords_size == TEXCOORDS_BYTES * self.texcoords_space@.len()
    }

    /// The frame table is small enough for a shader's frame uniform.
    pub open spec fn frames_fit_uniform(&self) -> bool {
        self.frame_texcoords_size / 8 < FRAME_UNIFORM_MAX
    }

    /// The texture holds `count` frames of the given cell size, and the byte
    /// size of a table of that many frames can be written down.
    pub open spec fn holds(&self, uwidth: usize, uheight: usize, count: usize) -> bool {
        tiling_fits(
            self.width as int,
            self.height as int,
            uwidth as int,
            uheight as int,
            count as int,
        )
    }

    /// Tests whether the recorded byte size agrees with the frame table.
    pub fn is_wf(&self) -> (sound: bool)
        ensures
            sound == self.wf(),
    {
        let frames = self.texcoords_space.len() as u64;
        frames <= 0x03ff_ffff_ffff_ffff && self.frame_texcoords_size == TEXCOORDS_BYTES * (
        frames as i64)
    }

    /// Tests whether `count` frames of the given cell size can be tiled on
    /// this texture.
    pub fn holds_frames(&self, uwidth: usize, uheight: usize, count: usize) -> (fits: bool)
        ensures
            fits == self.holds(uwidth, uheight, count),
    {
        count as u64 <= frame_capacity(self.width, self.height, uwidth, uheight) && count as u64
            <= 0x03ff_ffff_ffff_ffff
    }

    /// Tests whether the frame table fits a shader's frame uniform.
    pub fn fits_frame_uniform(&self) -> (fits: bool)
        ensures
            fits == self.frames_fit_uniform(),
    {
        self.frame_texcoords_size / 8 < FRAME_UNIFORM_MAX
    }

    /// What to bind for a draw of the whole texture as one sprite: the sprite
    /// size is the texture's size, and no frame table is sent.
    pub fn set_full(&self, sampler_uniform: i32, sprite_size_uniform: i32) -> (b: TextureBinding)
        ensures
            b == (TextureBinding {
                texture: self.id,
                unit: 0,
                sampler_uniform: sampler_uniform,
                sprite_size_uniform: sprite_size_uniform,
                sprite_size: Vec2 { x: self.width, y: self.height },
                frames: None,
            }),
    {
        TextureBinding {
            texture: self.id,
            unit: 0,
            sampler_uniform: sampler_uniform,
            sprite_size_uniform: sprite_size_uniform,
            sprite_size: Vec2::new(self.width, self.height),
            frames: None,
        }
    }

    /// The frame table.
    pub fn texcoords(&self) -> (table: &[Texcoords])
        ensures
            table@ == self.texcoords_space@,
    {
        self.texcoords_space.as_slice()
    }

    /// The frame table, open to change. The recorded byte size is not kept
    /// in step with it.
    pub fn texcoords_mut(&mut self) -> (table: &mut Vec<Texcoords>)
        ensures
            *table == old(self).texcoords_space,
            *final(self) == (Texture { texcoords_space: *final(table), ..*old(self) }),
    {
        &mut self.texcoords_space
    }

    /// What to bind for a draw of one frame of the texture as a sprite of
    /// `width` by `height` pixels. The frame table is sent when the texture
    /// has frames, as four entries for each.
    pub fn set(
        &self,
        sampler_uniform: i32,
        sprite_size_uniform: i32,
        frames_uniform: i32,
        width: i32,
        height: i32,
    ) -> (b: TextureBinding)
        requires
            self.wf(),
            self.frames_fit_uniform(),
        ensures
            b.texture == self.id,
            b.unit == 0,
            b.sampler_uniform == sampler_uniform,
            b.sprite_size_uniform == sprite_size_uniform,
            b.sprite_size == (Vec2 { x: width, y: height }),
            b.frames == if self.texcoords_space@.len() > 0 {
                Some(
                    FrameTableUpload {
                        frames_uniform: frames_uniform,
                        entries: (4 * self.texcoords_space@.len()) as i32,
                    },
                )
            } else {
                None
            },
    {
        let frames_len = self.texcoords_space.len();
        let frames = if frames_len > 0 {
            Some(
                FrameTableUpload { frames_uniform: frames_uniform, entries: frames_len as i32 * 4 },
            )
        } else {
            None
        };
        TextureBinding {
            texture: self.id,
            unit: 0,
            sampler_uniform: sampler_uniform,
            sprite_size_uniform: sprite_size_uniform,
            sprite_size: Vec2::new(width, height),
            frames: frames,
        }
    }

    /// The frame table as the shader's frame uniform takes it: four entries
    /// for each frame, in the order top right, bottom right, bottom left, top
    /// left, which is the order of the unit quad's corners.
    pub fn uniform_entries(&self) -> (entries: Vec<Vec2<Ratio>>)
        requires
            self.texcoords_space@.len() * 4 <= usize::MAX,
        ensures
            entries@.len() == 4 * self.texcoords_space@.len(),
            forall|i: int|
                0 <= i < self.texcoords_space@.len() ==> {
                    let corners = #[trigger] self.texcoords_space@[i];
                    &&& entries@[4 * i] == corners.top_right
                    &&& entries@[4 * i + 1] == corners.bottom_right
                    &&& entries@[4 * i + 2] == corners.bottom_left
                    &&& entries@[4 * i + 3] == corners.top_left
                },
    {
        let mut entries: Vec<Vec2<Ratio>> = Vec::new();
        let mut i: usize = 0;
        while i < self.texcoords_space.len()
            invariant
                i <= self.texcoords_space@.len(),
                entries@.len() == 4 * i,
                forall|k: int|
                    0 <= k < i ==> {
                        let corners = #[trigger] self.texcoords_space@[k];
                        &&& entries@[4 * k] == corners.top_right
                        &&& entries@[4 * k + 1] == corners.bottom_right
                        &&& entries@[4 * k + 2] == corners.bottom_left
                        &&& entries@[4 * k + 3] == corners.top_left
                    },
            decreases self.texcoords_space.len() - i,
        {
            let corners = self.texcoords_space[i];
            entries.push(corners.top_right);
            entries.push(corners.bottom_right);
            entries.push(corners.bottom_left);
            entries.push(corners.top_left);
            i += 1;
        }
        entries
    }

    /// Gives up the texture: the result is the handle to delete on the GPU.
    /// The record itself is left as it is.
    pub fn unload(&mut self) -> (handle: u32)
        ensures
            handle == old(self).id,
            *final(self) == *old(self),
    {
        self.id
    }

    /// Replaces the frame table by the texture coordinates of `count` frames
    /// of `frame_width` by `frame_height` pixels, tiled over the texture.
    pub fn generate_texcoords_buffer(
        &mut self,
        frame_width: usize,
        frame_height: usize,
        count: usize,
    )
        requires
            old(self).holds(frame_width, frame_height, count),
        ensures
            final(self).id == old(self).id,
            final(self).width == old(self).width,
            final(self).height == old(self).height,
            final(self).filename == old(self).filename,
            final(self).wf(),
            final(self).texcoords_space@.len() == count,
            forall|i: int|
                0 <= i < count ==> #[trigger] final(self).texcoords_space@[i] == tiled_frame(
                    old(self).width as int,
                    old(self).height as int,
                    frame_width as int,
                    frame_height as int,
                    i,
                ).texcoords,
    {
        let mut frames: Vec<Frame> = Vec::new();
        self.add_frames(&mut frames, frame_width, frame_height, count);
        let mut table: Vec<Texcoords> = Vec::new();
        let mut i: usize = 0;
        while i < count
            invariant
                i <= count,
                frames@.len() == count,
                table@.len() == i,
                forall|k: int| 0 <= k < i ==> #[trigger] table@[k] == frames@[k].texcoords,
            decreases count - i,
        {
            table.push(frames[i].texcoords);
            i += 1;
        }
        self.texcoords_space = table;
    }

    /// Appends to `space` the `count` frames of `uwidth` by `uheight` pixels
    /// that tile the texture: left to right, a row at a time, the first row
    /// against the texture's high edge. Records the byte size of a frame
    /// table of `count` entries.
    pub fn add_frames(&mut self, space: &mut Vec<Frame>, uwidth: usize, uheight: usize, count: usize)
        requires
            old(self).holds(uwidth, uheight, count),
        ensures
            final(space)@ == old(space)@ + tiled_frames(
                old(self).width as int,
                old(self).height as int,
                uwidth as int,
                uheight as int,
                count as nat,
            ),
            *final(self) == (Texture {
                frame_texcoords_size: (TEXCOORDS_BYTES * count) as i64,
                ..*old(self)
            }),
    {
        let tex_w: i64 = self.width as i64;
        let tex_h: i64 = self.height as i64;
        let ghost cols = cells_along(tex_w as int, uwidth as int);
        let ghost rows = cells_along(tex_h as int, uheight as int);
        if count > 0 {
            proof {
                lemma_capacity_positive(tex_w as int, tex_h as int, uwidth as int, uheight as int);
                lemma_cells_along(tex_w as int, uwidth as int);
                lemma_cells_along(tex_h as int, uheight as int);
                assert(uwidth <= tex_w && uheight <= tex_h) by (nonlinear_arith)
                    requires
                        cols > 0,
                        rows > 0,
                        uwidth > 0,
                        uheight > 0,
                        cols * uwidth <= tex_w,
                        rows * uheight <= tex_h,
                ;
            }
            let w: i64 = uwidth as i64;
            let h: i64 = uheight as i64;
            let mut x: i64 = 0;
            let mut y: i64 = tex_h - h;
            let ghost mut col: int = 0;
            let ghost mut row: int = 0;
            let mut i: usize = 0;
            while i < count
                invariant
                    i <= count,
                    count <= cols * rows,
                    cols == cells_along(tex_w as int, uwidth as int),
                    rows == cells_along(tex_h as int, uheight as int),
                    cols > 0,
                    rows > 0,
                    tex_w == self.width,
                    tex_h == self.height,
                    *self == *old(self),
                    w == uwidth,
                    h == uheight,
                    0 < w <= tex_w,
                    0 < h <= tex_h,
                    cols * w <= tex_w < (cols + 1) * w,
                    rows * h <= tex_h,
                    0 <= col <= cols,
                    0 <= row < rows,
                    i == row * cols + col,
                    x == col * w,
                    y == tex_h - (row + 1) * h,
                    space@ == old(space)@ + tiled_frames(
                        tex_w as int,
                        tex_h as int,
                        w as int,
                        h as int,
                        i as nat,
                    ),
                decreases count - i,
            {
                proof {
                    assert(0 <= y <= tex_h) by (nonlinear_arith)
                        requires
                            y == tex_h - (row + 1) * h,
                            0 <= row < rows,
                            rows * h <= tex_h,
                            h > 0,
                    ;
                    assert(0 <= x <= tex_w && (col < cols ==> x + w <= tex_w) && (col == cols
                        ==> x + w > tex_w)) by (nonlinear_arith)
                        requires
                            x == col * w,
                            0 <= col <= cols,
                            w > 0,
                            cols * w <= tex_w < (cols + 1) * w,
                    ;
                }
                if x + w > tex_w {
                    x = 0;
                    y = y - h;
                    proof {
                        assert(row + 1 < rows) by (nonlinear_arith)
                            requires
                                i == row * cols + col,
                                col == cols,
                                i < count,
                                count <= cols * rows,
                                cols > 0,
                        ;
                        assert((row + 1) * cols + 0 == row * cols + cols) by (nonlinear_arith);
                        assert(tex_h - (row + 1 + 1) * h == tex_h - (row + 1) * h - h)
                            by (nonlinear_arith);
                        col = 0;
                        row = row + 1;
                    }
                }
                proof {
                    lemma_fundamental_div_mod_converse(i as int, cols, row, col);
                    assert(0 <= y && y + h <= tex_h) by (nonlinear_arith)
                        requires
                            y == tex_h - (row + 1) * h,
                            0 <= row < rows,
                            rows * h <= tex_h,
                            h > 0,
                    ;
                }
                let zero = Ratio { num: 0, den: 0 };
                let nowhere = Vec2::new(zero, zero);
                let mut frame = Frame {
                    position: Vec2::new(x as i32, y as i32),
                    size: Vec2::new(w as i32, h as i32),
                    texcoords: Texcoords {
                        top_right: nowhere,
                        bottom_right: nowhere,
                        bottom_left: nowhere,
                        top_left: nowhere,
                    },
                };
                frame.generate_texcoords(self.width, self.height);
                assert(frame == tiled_frame(
                    tex_w as int,
                    tex_h as int,
                    w as int,
                    h as int,
                    i as int,
                ));
                space.push(frame);
                x = x + w;
                proof {
                    assert((col + 1) * w == col * w + w) by (nonlinear_arith);
                    col = col + 1;
                }
                i += 1;
            }
        } else {
            assert(space@ == old(space)@ + tiled_frames(
                tex_w as int,
                tex_h as int,
                uwidth as int,
                uheight as int,
                0,
            ));
        }
        self.frame_texcoords_size = TEXCOORDS_BYTES * (count as i64);
    }
}

} // verus!
