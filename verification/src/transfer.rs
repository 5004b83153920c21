//! The texture upload and readback pipeline, as a verified model:
//! a texture receives a pixel buffer under an explicit row-stride
//! layout, a command encoder records one texture-to-buffer copy, the
//! queue submission completes the copy, and only then may the mapped
//! staging buffer be read.

use vstd::prelude::*;

use crate::error::GpuError;

verus! {

/// Bytes per texel of the one pixel format the demo uses:
/// 8-bit RGBA.
pub const BYTES_PER_TEXEL: u32 = 4;

/// A two-dimensional texture extent, in texels.
#[derive(Clone, Copy, Debug, PartialEq, Eq, Structural)]
pub struct Extent {
    pub width: u32,
    pub height: u32,
}

/// The memory layout of a texture's bytes in linear memory: a byte
/// offset, the stride of one row of texels, and the number of rows.
#[derive(Clone, Copy, Debug, PartialEq, Eq, Structural)]
pub struct DataLayout {
    pub offset: u64,
    pub bytes_per_row: u32,
    pub rows_per_image: u32,
}

/// A layout addresses a whole texture of the given extent exactly when
/// it starts at the texture's origin, its row stride is the texture
/// width times the texel size, and it covers every row.
pub open spec fn layout_matches(layout: DataLayout, width: u32, height: u32) -> bool {
    &&& layout.offset == 0
    &&& layout.bytes_per_row == width * BYTES_PER_TEXEL
    &&& layout.rows_per_image == height
}

/// A texture extent can be realized exactly when it has no zero
/// dimension, its row stride fits the stride field, and its total byte
/// size fits host memory.
pub open spec fn extent_valid(size: Extent) -> bool {
    &&& 0 < size.width
    &&& 0 < size.height
    &&& size.width * BYTES_PER_TEXEL <= u32::MAX
    &&& size.width * size.height * BYTES_PER_TEXEL <= usize::MAX
}

/// The row stride of a texture of the given width: width times the
/// texel size, when that is positive and fits the stride field.
pub fn row_stride(width: u32) -> (r: Option<u32>)
    ensures
        r is Some <==> 0 < width && width * BYTES_PER_TEXEL <= u32::MAX,
        (r matches Some(s) ==> s == width * BYTES_PER_TEXEL),
{
    if width == 0 || width > u32::MAX / BYTES_PER_TEXEL {
        None
    } else {
        Some(width * BYTES_PER_TEXEL)
    }
}

/// A 2D GPU texture, modelled by its extent and the bytes it holds.
/// It is zero-filled at creation and overwritten whole by an upload.
#[derive(Clone, Debug)]
pub struct Texture {
    pub width: u32,
    pub height: u32,
    pub data: Vec<u8>,
}

impl Texture {
    /// A texture's extent is realizable and its bytes cover it exactly.
    pub open spec fn wf(self) -> bool {
        &&& extent_valid(Extent { width: self.width, height: self.height })
        &&& self.data@.len() == self.width * self.height * BYTES_PER_TEXEL
    }
}

/// Allocates a texture of the given extent, zero-filled, ready to be
/// the source of a copy. An extent with a zero dimension, or one whose
/// stride or byte size does not fit, is rejected.
pub fn create_texture(size: Extent) -> (r: Result<Texture, GpuError>)
    ensures
        r is Ok <==> extent_valid(size),
        (r matches Ok(t) ==> {
            &&& t.wf()
            &&& t.width == size.width
            &&& t.height == size.height
            &&& forall|i: int| 0 <= i < t.data@.len() ==> t.data@[i] == 0
        }),
        (r matches Err(e) ==> e == GpuError::InvalidTextureExtent),
{
    if size.width == 0 || size.height == 0 {
        return Err(GpuError::InvalidTextureExtent);
    }
    if size.width > u32::MAX / BYTES_PER_TEXEL {
        return Err(GpuError::InvalidTextureExtent);
    }
    let stride: u32 = size.width * BYTES_PER_TEXEL;
    proof {
        assert((stride as int) * (size.height as int) <= 0xFFFF_FFFE_0000_0001) by (nonlinear_arith)
            requires
                (stride as int) <= 0xFFFF_FFFF,
                (size.height as int) <= 0xFFFF_FFFF,
        ;
        assert((stride as int) * (size.height as int) == (size.width as int) * (size.height as int)
            * 4) by (nonlinear_arith)
            requires
                (stride as int) == (size.width as int) * 4,
        ;
    }
    let total: u64 = (stride as u64) * (size.height as u64);
    if total > usize::MAX as u64 {
        return Err(GpuError::InvalidTextureExtent);
    }
    let n: usize = total as usize;
    let data = zero_bytes(n);
    Ok(Texture { width: size.width, height: size.height, data })
}

/// Uploads a pixel buffer into a texture. The write must name the
/// texture's own extent, use a layout whose row stride is
/// width times the texel size, and hand exactly the texture's byte
/// size; anything else is rejected before the texture is touched.
pub fn write_texture(
    texture: &mut Texture,
    pixels: &Vec<u8>,
    layout: DataLayout,
    size: Extent,
) -> (r: Result<(), GpuError>)
    requires
        old(texture).wf(),
    ensures
        final(texture).wf(),
        final(texture).width == old(texture).width,
        final(texture).height == old(texture).height,
        r is Ok <==> {
            &&& size.width == old(texture).width
            &&& size.height == old(texture).height
            &&& layout_matches(layout, old(texture).width, old(texture).height)
            &&& pixels@.len() == old(texture).data@.len()
        },
        (r matches Ok(u) ==> final(texture).data@ == pixels@),
        (r matches Err(e) ==> e == GpuError::LayoutMismatch && *final(texture) == *old(texture)),
{
    if size.width != texture.width || size.height != texture.height {
        return Err(GpuError::LayoutMismatch);
    }
    let stride: u32 = texture.width * BYTES_PER_TEXEL;
    if layout.offset != 0 || layout.bytes_per_row != stride || layout.rows_per_image != texture.height {
        return Err(GpuError::LayoutMismatch);
    }
    if pixels.len() != texture.data.len() {
        return Err(GpuError::LayoutMismatch);
    }
    texture.data = copy_bytes(pixels);
    Ok(())
}

/// A host-readable staging buffer, created mapped. Its bytes become
/// meaningful only once a copy into it has been submitted and has
/// completed; until then `ready` is false and reads are refused.
#[derive(Clone, Debug)]
pub struct StagingBuffer {
    pub size: u64,
    pub data: Vec<u8>,
    pub ready: bool,
}

impl StagingBuffer {
    /// The buffer's bytes cover its declared size exactly.
    pub open spec fn wf(self) -> bool {
        self.data@.len() == self.size
    }
}

/// Allocates a mapped staging buffer of the given byte size,
/// zero-filled and not yet ready: no copy into it has completed. A
/// size beyond host memory is rejected.
pub fn create_staging_buffer(size: u64) -> (r: Result<StagingBuffer, GpuError>)
    ensures
        r is Ok <==> size <= usize::MAX,
        (r matches Ok(b) ==> {
            &&& b.wf()
            &&& b.size == size
            &&& !b.ready
            &&& forall|i: int| 0 <= i < b.data@.len() ==> b.data@[i] == 0
        }),
        (r matches Err(e) ==> e == GpuError::InvalidTextureExtent),
{
    if size > usize::MAX as u64 {
        return Err(GpuError::InvalidTextureExtent);
    }
    let n: usize = size as usize;
    let data = zero_bytes(n);
    Ok(StagingBuffer { size, data, ready: false })
}

/// A write-once recorder of GPU commands: here, at most one
/// texture-to-buffer copy, held as the bytes the copy will deposit.
#[derive(Clone, Debug)]
pub struct CommandEncoder {
    pub pending: Option<Vec<u8>>,
}

/// A fresh command encoder with nothing recorded.
pub fn create_command_encoder() -> (r: CommandEncoder)
    ensures
        r.pending is None,
{
    CommandEncoder { pending: None }
}

/// Records the one copy of a whole texture into a staging buffer. The
/// copy must name the texture's own extent, reuse the upload's
/// row-stride layout, and target a buffer of exactly the texture's
/// byte size; a mismatch is rejected before anything is recorded.
pub fn copy_texture_to_buffer(
    encoder: &mut CommandEncoder,
    texture: &Texture,
    layout: DataLayout,
    size: Extent,
    buffer: &StagingBuffer,
) -> (r: Result<(), GpuError>)
    requires
        texture.wf(),
        buffer.wf(),
        old(encoder).pending is None,
    ensures
        r is Ok <==> {
            &&& size.width == texture.width
            &&& size.height == texture.height
            &&& layout_matches(layout, texture.width, texture.height)
            &&& buffer.size == texture.data@.len()
        },
        (r matches Ok(u) ==> final(encoder).pending matches Some(d) && d@ == texture.data@),
        (r matches Err(e) ==> e == GpuError::LayoutMismatch && *final(encoder) == *old(encoder)),
{
    if size.width != texture.width || size.height != texture.height {
        return Err(GpuError::LayoutMismatch);
    }
    let stride: u32 = texture.width * BYTES_PER_TEXEL;
    if layout.offset != 0 || layout.bytes_per_row != stride || layout.rows_per_image != texture.height {
        return Err(GpuError::LayoutMismatch);
    }
    if (buffer.size > usize::MAX as u64) || (buffer.size as usize != texture.data.len()) {
        return Err(GpuError::LayoutMismatch);
    }
    encoder.pending = Some(copy_bytes(&texture.data));
    Ok(())
}

/// Submits the encoder's recorded commands to the queue and waits for
/// them to complete. A recorded copy deposits its bytes in the staging
/// buffer and makes the buffer ready to read; an empty submission
/// changes nothing.
pub fn submit_and_wait(encoder: CommandEncoder, buffer: &mut StagingBuffer)
    requires
        old(buffer).wf(),
        (encoder.pending matches Some(d) ==> d@.len() == old(buffer).size),
    ensures
        final(buffer).wf(),
        final(buffer).size == old(buffer).size,
        (encoder.pending matches Some(d) ==> {
            &&& final(buffer).ready
            &&& final(buffer).data@ == d@
        }),
        (encoder.pending is None ==> *final(buffer) == *old(buffer)),
{
    match encoder.pending {
        Some(d) => {
            buffer.data = d;
            buffer.ready = true;
        },
        None => {},
    }
}

/// Reads the byte range `start..end` of a mapped staging buffer. A
/// buffer whose copy has not been submitted and completed is never
/// read: the read fails instead of handing back stale bytes. A range
/// past the buffer's end is likewise refused.
pub fn read_mapped_range(buffer: &StagingBuffer, start: u64, end: u64) -> (r: Result<
    Vec<u8>,
    GpuError,
>)
    requires
        buffer.wf(),
    ensures
        r is Ok <==> buffer.ready && start <= end <= buffer.size,
        (r matches Ok(v) ==> v@ == buffer.data@.subrange(start as int, end as int)),
        (!buffer.ready ==> (r matches Err(e) && e == GpuError::UnmappedBufferReadAttempted)),
        (buffer.ready && !(start <= end <= buffer.size) ==> (r matches Err(e) && e
            == GpuError::RangeOutOfBounds)),
{
    if !buffer.ready {
        return Err(GpuError::UnmappedBufferReadAttempted);
    }
    let n: usize = buffer.data.len();
    if start > end || end > n as u64 {
        return Err(GpuError::RangeOutOfBounds);
    }
    let lo: usize = start as usize;
    let hi: usize = end as usize;
    let mut v: Vec<u8> = Vec::new();
    let mut i: usize = lo;
    while i < hi
        invariant
            lo <= i <= hi,
            hi <= buffer.data@.len(),
            v@.len() == i - lo,
            forall|j: int| 0 <= j < v@.len() ==> v@[j] == buffer.data@[lo + j],
        decreases hi - i,
    {
        v.push(buffer.data[i]);
        i = i + 1;
    }
    proof {
        assert(v@ =~= buffer.data@.subrange(start as int, end as int));
    }
    Ok(v)
}

/// Every texel of the byte sequence is the same quadruplet of channel
/// bytes in R, G, B, A order: byte `i` holds the channel that position
/// `i` within its texel names.
pub open spec fn texel_pattern(s: Seq<u8>, r: u8, g: u8, b: u8, a: u8) -> bool {
    forall|i: int|
        0 <= i < s.len() ==> #[trigger] s[i] == (if i % 4 == 0 {
            r
        } else if i % 4 == 1 {
            g
        } else if i % 4 == 2 {
            b
        } else {
            a
        })
}

/// A pixel buffer of `count` texels, each the same quadruplet of
/// channel bytes in R, G, B, A order.
pub fn repeat_texel(count: usize, r: u8, g: u8, b: u8, a: u8) -> (v: Vec<u8>)
    requires
        count * 4 <= usize::MAX,
    ensures
        v@.len() == count * 4,
        texel_pattern(v@, r, g, b, a),
{
    let mut v: Vec<u8> = Vec::new();
    let mut k: usize = 0;
    while k < count
        invariant
            k <= count,
            count * 4 <= usize::MAX,
            v@.len() == k * 4,
            texel_pattern(v@, r, g, b, a),
        decreases count - k,
    {
        v.push(r);
        v.push(g);
        v.push(b);
        v.push(a);
        k = k + 1;
    }
    v
}

/// The whole demo pipeline against the model, in the corrected order:
/// create a texture, upload the pixels, create a staging buffer of the
/// texture's byte size, record the copy, submit it and wait, then read
/// the buffer whole. The bytes read back equal the bytes uploaded.
pub fn upload_copy_readback(width: u32, height: u32, pixels: &Vec<u8>) -> (r: Result<
    Vec<u8>,
    GpuError,
>)
    ensures
        r is Ok <==> extent_valid(Extent { width, height }) && pixels@.len() == width * height
            * BYTES_PER_TEXEL,
        (r matches Ok(v) ==> v@ == pixels@),
        (r matches Err(e) ==> e == (if !extent_valid(Extent { width, height }) {
            GpuError::InvalidTextureExtent
        } else {
            GpuError::LayoutMismatch
        })),
{
    let extent = Extent { width, height };
    let mut texture = match create_texture(extent) {
        Ok(t) => t,
        Err(e) => {
            return Err(e);
        },
    };
    let stride: u32 = match row_stride(width) {
        Some(s) => s,
        None => {
            return Err(GpuError::InvalidTextureExtent);
        },
    };
    let layout = DataLayout { offset: 0, bytes_per_row: stride, rows_per_image: height };
    match write_texture(&mut texture, pixels, layout, extent) {
        Ok(_) => {},
        Err(e) => {
            return Err(e);
        },
    };
    let buffer_size: u64 = texture.data.len() as u64;
    let mut buffer = match create_staging_buffer(buffer_size) {
        Ok(b) => b,
        Err(e) => {
            return Err(e);
        },
    };
    let mut encoder = create_command_encoder();
    match copy_texture_to_buffer(&mut encoder, &texture, layout, extent, &buffer) {
        Ok(_) => {},
        Err(e) => {
            return Err(e);
        },
    };
    submit_and_wait(encoder, &mut buffer);
    read_mapped_range(&buffer, 0, buffer_size)
}

/// A copy of a byte vector, element for element.
fn copy_bytes(src: &Vec<u8>) -> (v: Vec<u8>)
    ensures
        v@ == src@,
{
    let mut v: Vec<u8> = Vec::new();
    let mut i: usize = 0;
    while i < src.len()
        invariant
            i <= src@.len(),
            v@.len() == i,
            forall|j: int| 0 <= j < i ==> v@[j] == src@[j],
        decreases src@.len() - i,
    {
        v.push(src[i]);
        i = i + 1;
    }
    proof {
        assert(v@ =~= src@);
    }
    v
}

/// A freshly allocated byte vector, zero-filled as the backend
/// zero-fills new resources.
fn zero_bytes(n: usize) -> (v: Vec<u8>)
    ensures
        v@.len() == n,
        forall|i: int| 0 <= i < n ==> v@[i] == 0,
{
    let mut v: Vec<u8> = Vec::new();
    let mut i: usize = 0;
    while i < n
        invariant
            i <= n,
            v@.len() == i,
            forall|j: int| 0 <= j < i ==> v@[j] == 0,
        decreases n - i,
    {
        v.push(0);
        i = i + 1;
    }
    v
}

} // verus!
