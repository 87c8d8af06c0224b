//! Image assets: one per kind of thing drawn. An asset binds a texture with
//! its frame table, the kind of sprite it is drawn as, and the instance
//! buffer that holds one record for each copy drawn.

use crate::frames::{tiled_frame, Texcoords};
use crate::glsl::{attribute_binding, record_bytes, AttributeBinding};
use crate::shader::{Shaders, SpriteKind};
use crate::sprite::{lemma_words_round_trip, record_words, words_per_record, Sprite};
use crate::texture::{
    load_texture,
    tiling_fits,
    FrameTableUpload,
    Texture,
    TextureBinding,
    TEXTURE_CHANNELS,
};
use vstd::prelude::*;

verus! {

/// How an instance buffer is going to be used, as a hint to the GPU.
#[derive(Clone, Copy, Debug, PartialEq, Eq, Structural)]
pub enum BufferUsage {
    /// Written once, drawn often.
    StaticDraw,
    /// Written often, drawn often.
    DynamicDraw,
}

/// A request to give a GPU buffer fresh storage without contents.
#[derive(Clone, Copy, Debug, PartialEq, Eq, Structural)]
pub struct BufferAllocation {
    pub vbo: u32,
    pub bytes: i64,
    pub usage: BufferUsage,
}

/// Everything to bind before the draw call of one asset.
#[derive(Clone, Debug, PartialEq, Eq)]
pub struct DrawBinding {
    /// The program to use.
    pub program: u32,
    /// The texture, its sampler and its frame table.
    pub texture: TextureBinding,
    /// The instance buffer to read the attributes from.
    pub vbo: u32,
    /// The layout of the attributes in the instance buffer.
    pub attributes: Vec<AttributeBinding>,
}

/// One kind of thing that is drawn.
#[derive(Debug, PartialEq, Eq)]
pub struct ImageAsset {
    pub filename: &'static str,
    /// The GPU's handle of the instance buffer; 0 until the asset is loaded.
    pub vbo: u32,
    /// The kind of sprite: it fixes the shader and the layout of a record.
    pub kind: SpriteKind,
    /// The bytes of one instance record.
    pub attributes_size: usize,
    pub texture: Texture,
    pub frame_width: usize,
    pub frame_height: usize,
    /// The number of frames in the image.
    pub texcoord_count: usize,
    /// The number of records that the instance buffer has room for.
    pub capacity: usize,
    /// What the instance buffer holds, as words: `capacity` records.
    pub instances: Vec<u32>,
}

/// The words of the records one after the other, in the order of the
/// records.
pub open spec fn words_of_records(records: Seq<Sprite>) -> Seq<u32>
    decreases records.len(),
{
    if records.len() == 0 {
        Seq::empty()
    } else {
        words_of_records(records.drop_last()) + records.last().to_words()
    }
}

/// All records are of the given kind.
pub open spec fn all_of_kind(records: Seq<Sprite>, kind: SpriteKind) -> bool {
    forall|i: int| 0 <= i < records.len() ==> (#[trigger] records[i]).kind_of() == kind
}

/// The words of records of one kind: each record takes the kind's number of
/// words, and record `i` lies at words `i * n` to `(i + 1) * n`.
pub proof fn lemma_words_of_records(records: Seq<Sprite>, kind: SpriteKind)
    requires
        all_of_kind(records, kind),
    ensures
        words_of_records(records).len() == records.len() * record_words(kind),
        forall|i: int|
            0 <= i < records.len() ==> #[trigger] slot(
                words_of_records(records),
                kind,
                i,
            ) == records[i].to_words(),
    decreases records.len(),
{
    let n = record_words(kind) as int;
    if records.len() > 0 {
        let front = records.drop_last();
        let last = records.last();
        lemma_words_of_records(front, kind);
        lemma_words_round_trip(last);
        assert(records.len() * n == front.len() * n + n) by (nonlinear_arith)
            requires
                records.len() == front.len() + 1,
        ;
        let all = words_of_records(records);
        assert forall|i: int| 0 <= i < records.len() implies #[trigger] slot(all, kind, i)
            == records[i].to_words() by {
            assert(0 <= i * n && i * n + n <= records.len() * n && (i + 1) * n == i * n + n)
                by (nonlinear_arith)
                requires
                    0 <= i < records.len(),
                    n >= 0,
            ;
            if i < front.len() {
                assert(i * n + n <= front.len() * n) by (nonlinear_arith)
                    requires
                        0 <= i < front.len(),
                        n >= 0,
                ;
                assert(slot(all, kind, i) =~= slot(words_of_records(front), kind, i));
                assert(front[i] == records[i]);
            } else {
                assert(slot(all, kind, i) =~= last.to_words());
            }
        }
    }
}

/// The words of the record in slot `i` of a buffer of records of one kind.
pub open spec fn slot(words: Seq<u32>, kind: SpriteKind, i: int) -> Seq<u32> {
    words.subrange(i * record_words(kind), (i + 1) * record_words(kind))
}

impl ImageAsset {
    /// The asset is as it was declared, before anything is loaded: no
    /// texture, no instance buffer.
    pub open spec fn is_declared(
        &self,
        filename: &'static str,
        kind: SpriteKind,
        frame_width: usize,
        frame_height: usize,
        texcoord_count: usize,
    ) -> bool {
        &&& self.filename == filename
        &&& self.vbo == 0
        &&& self.kind == kind
        &&& self.attributes_size == record_bytes(kind.schema())
        &&& self.texture.id == 0
        &&& self.texture.width == 0
        &&& self.texture.height == 0
        &&& self.texture.filename == filename
        &&& self.texture.frame_texcoords_size == 0
        &&& self.texture.texcoords_space@ == Seq::<Texcoords>::empty()
        &&& self.frame_width == frame_width
        &&& self.frame_height == frame_height
        &&& self.texcoord_count == texcoord_count
        &&& self.capacity == 0
        &&& self.instances@ == Seq::<u32>::empty()
    }

    /// The asset is consistent: its record size is that of its kind, its
    /// texture's byte count agrees with its frame table, its frame cell fits
    /// the pixel type, and its instance buffer holds `capacity` records.
    pub open spec fn wf(&self) -> bool {
        &&& self.attributes_size == record_bytes(self.kind.schema())
        &&& self.texture.wf()
        &&& self.frame_width <= i32::MAX
        &&& self.frame_height <= i32::MAX
        &&& self.instances@.len() == self.capacity * record_words(self.kind)
    }

    /// The two assets agree in everything but the contents of the instance
    /// buffer.
    pub open spec fn same_but_instances(&self, other: &ImageAsset) -> bool {
        &&& self.filename == other.filename
        &&& self.vbo == other.vbo
        &&& self.kind == other.kind
        &&& self.attributes_size == other.attributes_size
        &&& self.texture == other.texture
        &&& self.frame_width == other.frame_width
        &&& self.frame_height == other.frame_height
        &&& self.texcoord_count == other.texcoord_count
        &&& self.capacity == other.capacity
    }

    /// The record in slot `i` of the instance buffer.
    pub open spec fn instance(&self, i: int) -> Sprite {
        Sprite::of_words(self.kind, slot(self.instances@, self.kind, i))
    }

    /// Declares an asset. Nothing is loaded yet.
    pub fn new(
        filename: &'static str,
        kind: SpriteKind,
        frame_width: usize,
        frame_height: usize,
        texcoord_count: usize,
    ) -> (asset: ImageAsset)
        ensures
            asset.is_declared(filename, kind, frame_width, frame_height, texcoord_count),
    {
        let words = words_per_record(kind);
        ImageAsset {
            filename: filename,
            vbo: 0,
            kind: kind,
            attributes_size: 4 * words,
            texture: Texture {
                id: 0,
                width: 0,
                height: 0,
                filename: filename,
                frame_texcoords_size: 0,
                texcoords_space: Vec::new(),
            },
            frame_width: frame_width,
            frame_height: frame_height,
            texcoord_count: texcoord_count,
            capacity: 0,
            instances: Vec::new(),
        }
    }

    /// The frame table of the asset's texture.
    pub fn texcoords(&self) -> (table: &[Texcoords])
        ensures
            table@ == self.texture.texcoords_space@,
    {
        self.texture.texcoords()
    }

    /// The asset has its instance buffer.
    pub fn loaded(&self) -> (yes: bool)
        ensures
            yes == (self.vbo != 0),
    {
        self.vbo != 0
    }

    /// Tests whether an image of the given size holds the frames that the
    /// asset declares.
    pub fn accepts_image(&self, width: i32, height: i32) -> (fits: bool)
        ensures
            fits == tiling_fits(
                width as int,
                height as int,
                self.frame_width as int,
                self.frame_height as int,
                self.texcoord_count as int,
            ),
    {
        let probe = load_texture(self.filename, 0, width, height, TEXTURE_CHANNELS);
        probe.holds_frames(self.frame_width, self.frame_height, self.texcoord_count)
    }

    /// Takes the image that was decoded from the asset's file and sent to the
    /// GPU as texture `id`, and the instance buffer `vbo` that was made for
    /// the asset. The texture is tiled into the asset's frames. The instance
    /// buffer has no storage yet.
    pub fn load(&mut self, id: u32, width: i32, height: i32, channels: i32, vbo: u32)
        requires
            channels == TEXTURE_CHANNELS,
            tiling_fits(
                width as int,
                height as int,
                old(self).frame_width as int,
                old(self).frame_height as int,
                old(self).texcoord_count as int,
            ),
        ensures
            final(self).filename == old(self).filename,
            final(self).kind == old(self).kind,
            final(self).attributes_size == old(self).attributes_size,
            final(self).frame_width == old(self).frame_width,
            final(self).frame_height == old(self).frame_height,
            final(self).texcoord_count == old(self).texcoord_count,
            final(self).capacity == old(self).capacity,
            final(self).instances == old(self).instances,
            final(self).vbo == vbo,
            final(self).texture.id == id,
            final(self).texture.width == width,
            final(self).texture.height == height,
            final(self).texture.filename == old(self).filename,
            final(self).texture.wf(),
            final(self).texture.texcoords_space@.len() == old(self).texcoord_count,
            forall|i: int|
                0 <= i < old(self).texcoord_count ==> #[trigger] final(self).texture.texcoords_space@[i]
                    == tiled_frame(
                    width as int,
                    height as int,
                    old(self).frame_width as int,
                    old(self).frame_height as int,
                    i,
                ).texcoords,
    {
        let mut texture = load_texture(self.filename, id, width, height, channels);
        texture.generate_texcoords_buffer(self.frame_width, self.frame_height, self.texcoord_count);
        self.texture = texture;
        self.vbo = vbo;
    }

    /// The instance buffer can be given room for `count` records: the record
    /// size is that of the asset's kind, and the sizes of the buffer in bytes
    /// and in words can be written down.
    pub open spec fn allocatable(&self, count: usize) -> bool {
        &&& self.attributes_size == record_bytes(self.kind.schema())
        &&& count * record_bytes(self.kind.schema()) <= i64::MAX
        &&& count * record_words(self.kind) <= usize::MAX
    }

    /// Tests whether the instance buffer can be given room for `count`
    /// records.
    pub fn can_allocate(&self, count: usize) -> (yes: bool)
        ensures
            yes == self.allocatable(count),
    {
        let words = words_per_record(self.kind);
        if self.attributes_size != 4 * words {
            return false;
        }
        let wide = count as u128;
        let in_words: u128 = wide * (words as u128);
        let in_bytes: u128 = in_words * 4;
        assert(in_bytes == count * (4 * words)) by (nonlinear_arith)
            requires
                in_bytes == in_words * 4,
                in_words == count * words,
        ;
        in_bytes <= i64::MAX as u128 && in_words <= usize::MAX as u128
    }

    /// Gives the instance buffer room for `count` records, all zero, and says
    /// what storage to ask of the GPU for it: `count` times the size of one
    /// record.
    pub fn empty_buffer_data(&mut self, count: usize, draw: BufferUsage) -> (request:
        BufferAllocation)
        requires
            old(self).allocatable(count),
        ensures
            request == (BufferAllocation {
                vbo: old(self).vbo,
                bytes: (count * old(self).attributes_size) as i64,
                usage: draw,
            }),
            final(self).capacity == count,
            final(self).instances@ == Seq::new(
                (count * record_words(old(self).kind)) as nat,
                |i: int| 0u32,
            ),
            final(self).filename == old(self).filename,
            final(self).vbo == old(self).vbo,
            final(self).kind == old(self).kind,
            final(self).attributes_size == old(self).attributes_size,
            final(self).texture == old(self).texture,
            final(self).frame_width == old(self).frame_width,
            final(self).frame_height == old(self).frame_height,
            final(self).texcoord_count == old(self).texcoord_count,
    {
        let words = words_per_record(self.kind);
        let total = count * words;
        let mut fresh: Vec<u32> = Vec::new();
        let mut i: usize = 0;
        while i < total
            invariant
                i <= total,
                fresh@ == Seq::new(i as nat, |k: int| 0u32),
            decreases total - i,
        {
            fresh.push(0);
            i += 1;
        }
        self.instances = fresh;
        self.capacity = count;
        BufferAllocation {
            vbo: self.vbo,
            bytes: (count as i64) * (self.attributes_size as i64),
            usage: draw,
        }
    }

    /// Writes the records into the first slots of the instance buffer, in
    /// order: record `i` goes to slot `i`. The slots behind them keep what
    /// they hold. Reading a written slot gives the record back.
    pub fn write_instances(&mut self, records: &Vec<Sprite>)
        requires
            old(self).wf(),
            records@.len() <= old(self).capacity,
            all_of_kind(records@, old(self).kind),
        ensures
            final(self).wf(),
            final(self).instances@ == words_of_records(records@) + old(self).instances@.subrange(
                (records@.len() * record_words(old(self).kind)) as int,
                old(self).instances@.len() as int,
            ),
            forall|i: int|
                0 <= i < records@.len() ==> #[trigger] final(self).instance(i) == records@[i],
            forall|i: int|
                records@.len() <= i < old(self).capacity ==> #[trigger] final(self).instance(i)
                    == old(self).instance(i),
            final(self).same_but_instances(old(self)),
    {
        let kind = self.kind;
        let words = words_per_record(kind);
        let ghost n = record_words(kind) as int;
        let ghost before = self.instances@;
        let mut fresh: Vec<u32> = Vec::new();
        let mut i: usize = 0;
        while i < records.len()
            invariant
                i <= records@.len(),
                fresh@ == words_of_records(records@.take(i as int)),
            decreases records.len() - i,
        {
            proof {
                let next = records@.take(i + 1);
                assert(next.drop_last() == records@.take(i as int));
                assert(next.last() == records@[i as int]);
            }
            records[i].write_words(&mut fresh);
            i += 1;
        }
        proof {
            assert(records@.take(i as int) == records@);
            lemma_words_of_records(records@, kind);
            assert(records@.len() * n <= self.capacity * n) by (nonlinear_arith)
                requires
                    records@.len() <= self.capacity,
                    n >= 0,
            ;
        }
        let written = fresh.len();
        let total = self.instances.len();
        let mut k: usize = written;
        while k < total
            invariant
                written <= k <= total,
                total == self.instances@.len(),
                self.instances@ == before,
                fresh@ == words_of_records(records@) + before.subrange(written as int, k as int),
            decreases total - k,
        {
            fresh.push(self.instances[k]);
            k += 1;
        }
        self.instances = fresh;
        proof {
            let after = self.instances@;
            assert(after.len() == before.len());
            assert forall|i: int| 0 <= i < records@.len() implies #[trigger] self.instance(i)
                == records@[i] by {
                assert(0 <= i * n && (i + 1) * n <= records@.len() * n && (i + 1) * n == i * n
                    + n) by (nonlinear_arith)
                    requires
                        0 <= i < records@.len(),
                        n >= 0,
                ;
                assert(slot(after, kind, i) =~= slot(words_of_records(records@), kind, i));
                lemma_words_round_trip(records@[i]);
            }
            assert forall|i: int| records@.len() <= i < self.capacity implies #[trigger]
                self.instance(i) == old(self).instance(i) by {
                assert(records@.len() * n <= i * n && (i + 1) * n <= self.capacity * n && (i
                    + 1) * n == i * n + n) by (nonlinear_arith)
                    requires
                        records@.len() <= i < self.capacity,
                        n >= 0,
                ;
                assert(slot(after, kind, i) =~= slot(before, kind, i));
            }
        }
    }

    /// Reads the records in the first `count` slots of the instance buffer.
    pub fn read_instances(&self, count: usize) -> (records: Vec<Sprite>)
        requires
            self.wf(),
            count <= self.capacity,
        ensures
            records@.len() == count,
            all_of_kind(records@, self.kind),
            forall|i: int| 0 <= i < count ==> #[trigger] records@[i] == self.instance(i),
    {
        let words = words_per_record(self.kind);
        let ghost n = record_words(self.kind) as int;
        let mut records: Vec<Sprite> = Vec::new();
        let mut i: usize = 0;
        while i < count
            invariant
                i <= count,
                count <= self.capacity,
                self.wf(),
                words == n,
                n == record_words(self.kind),
                records@.len() == i,
                all_of_kind(records@, self.kind),
                forall|k: int| 0 <= k < i ==> #[trigger] records@[k] == self.instance(k),
            decreases count - i,
        {
            proof {
                assert(0 <= i * n && (i + 1) * n <= self.capacity * n && (i + 1) * n == i * n + n)
                    by (nonlinear_arith)
                    requires
                        0 <= i < self.capacity,
                        n >= 0,
                ;
                assert(self.instances@.len() == self.instances.len());
            }
            let record = Sprite::read_words(self.kind, &self.instances, i * words);
            records.push(record);
            i += 1;
        }
        records
    }

    /// `binding` is what the asset's draw call needs bound: the program of
    /// the asset's kind, the texture with its frame table (four entries for
    /// each frame) and the sprite size of one frame cell, and the instance
    /// buffer with the layout of the kind's attributes.
    pub open spec fn binds(&self, shaders: &Shaders, binding: DrawBinding) -> bool {
        let shader = shaders.of(self.kind);
        &&& binding.program == shader.program
        &&& binding.vbo == self.vbo
        &&& binding.texture.texture == self.texture.id
        &&& binding.texture.unit == 0
        &&& binding.texture.sampler_uniform == shader.tex_uniform
        &&& binding.texture.sprite_size_uniform == shader.sprite_size_uniform
        &&& binding.texture.sprite_size.x == self.frame_width
        &&& binding.texture.sprite_size.y == self.frame_height
        &&& binding.texture.frames == if self.texture.texcoords_space@.len() > 0 {
            Some(
                FrameTableUpload {
                    frames_uniform: shader.frames_uniform,
                    entries: (4 * self.texture.texcoords_space@.len()) as i32,
                },
            )
        } else {
            None
        }
        &&& binding.attributes@.len() == self.kind.schema().len()
        &&& forall|i: int|
            0 <= i < binding.attributes@.len() ==> #[trigger] binding.attributes@[i]
                == attribute_binding(self.kind.schema(), i)
    }

    /// The asset can be bound for a draw: it is consistent and its frame
    /// table fits the shader's frame uniform.
    pub open spec fn drawable(&self) -> bool {
        self.wf() && self.texture.frames_fit_uniform()
    }

    /// Tests whether the asset is consistent.
    pub fn is_wf(&self) -> (sound: bool)
        ensures
            sound == self.wf(),
    {
        let words = words_per_record(self.kind);
        if self.attributes_size != 4 * words {
            return false;
        }
        if !self.texture.is_wf() {
            return false;
        }
        if self.frame_width > 0x7fff_ffff || self.frame_height > 0x7fff_ffff {
            return false;
        }
        let held = self.instances.len();
        proof {
            let n = words as int;
            if self.capacity as int * n == held as int {
                assert(held / words == self.capacity && held % words == 0) by (nonlinear_arith)
                    requires
                        self.capacity * n == held,
                        n == words,
                        n > 0,
                ;
            }
            if held / words == self.capacity && held % words == 0 {
                assert(self.capacity * n == held) by (nonlinear_arith)
                    requires
                        held / words == self.capacity,
                        held % words == 0,
                        n == words,
                        n > 0,
                ;
            }
        }
        held / words == self.capacity && held % words == 0
    }

    /// Tests whether the asset can be bound for a draw.
    pub fn is_drawable(&self) -> (yes: bool)
        ensures
            yes == self.drawable(),
    {
        self.is_wf() && self.texture.fits_frame_uniform()
    }

    /// Tests whether the asset's frame table fits the shader's frame uniform.
    pub fn fits_frame_uniform(&self) -> (fits: bool)
        ensures
            fits == self.texture.frames_fit_uniform(),
    {
        self.texture.fits_frame_uniform()
    }

    /// What to bind before the asset's draw call.
    pub fn set(&self, shaders: &Shaders) -> (binding: DrawBinding)
        requires
            self.drawable(),
        ensures
            self.binds(shaders, binding),
    {
        let shader = shaders.shader(self.kind);
        let texture = self.texture.set(
            shader.tex_uniform,
            shader.sprite_size_uniform,
            shader.frames_uniform,
            self.frame_width as i32,
            self.frame_height as i32,
        );
        let variant = self.kind.variant();
        let attributes = variant.attribute_bindings();
        DrawBinding {
            program: shader.program,
            texture: texture,
            vbo: self.vbo,
            attributes: attributes,
        }
    }
}

} // verus!
