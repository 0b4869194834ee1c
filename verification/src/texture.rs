//! The arithmetic of uploading interface textures: row pitch, descriptor
//! slots and the growth of the descriptor heap, and what to do with each
//! texture change.
use vstd::prelude::*;

verus! {

/// The alignment of rows in a texture upload buffer (`D3D12_TEXTURE_DATA_PITCH_ALIGNMENT`).
pub const TEXTURE_DATA_PITCH_ALIGNMENT: u32 = 256;

/// The layout of an upload buffer for an RGBA texture.
#[derive(Debug, Copy, Clone, PartialEq, Eq, Structural)]
pub struct UploadLayout {
    /// Bytes of one row of pixels (four per pixel).
    pub row_size: u32,
    /// Bytes between the starts of two rows: the row size rounded up to the alignment.
    pub pitch: u32,
    /// Bytes of the whole buffer.
    pub size: u32,
}

/// The row size rounded up to a multiple of the pitch alignment.
pub open spec fn aligned_pitch(row_size: int) -> int {
    ((row_size + 255) / 256) * 256
}

/// The upload layout of a `width` by `height` texture.
pub fn upload_layout(width: u32, height: u32) -> (r: UploadLayout)
    requires
        aligned_pitch(width * 4) * height <= u32::MAX,
        aligned_pitch(width * 4) <= u32::MAX,
    ensures
        r.row_size == width * 4,
        r.pitch == aligned_pitch(width * 4),
        r.size == height * aligned_pitch(width * 4),
        r.pitch % 256 == 0,
        r.row_size <= r.pitch < r.row_size + 256,
{
    let row_size = width * 4;
    let blocks = row_size / TEXTURE_DATA_PITCH_ALIGNMENT + if row_size % TEXTURE_DATA_PITCH_ALIGNMENT == 0 { 0 } else { 1 };
    let pitch = blocks * TEXTURE_DATA_PITCH_ALIGNMENT;
    proof {
        assert(height * pitch == pitch * height) by (nonlinear_arith);
    }
    let size = height * pitch;
    UploadLayout { row_size, pitch, size }
}

/// One copy of bytes from the pixel data into the upload buffer.
#[derive(Debug, Copy, Clone, PartialEq, Eq, Structural)]
pub struct RowCopy {
    pub source: usize,
    pub destination: usize,
    pub length: usize,
}

/// The copy of row `y` of rows of `row_size` bytes.
pub open spec fn row_copy(y: int, row_size: int) -> RowCopy {
    RowCopy { source: (y * row_size) as usize, destination: (y * row_size) as usize, length: row_size as usize }
}

/// The single copy of all `data_len` bytes.
pub open spec fn whole_copy(data_len: usize) -> RowCopy {
    RowCopy { source: 0, destination: 0, length: data_len }
}

/// How the pixel data is copied into the upload buffer: in one piece when
/// rows need no padding, otherwise row by row. Row `y` is copied from and to
/// offset `y * row_size`: the destination advances by the row size, not by
/// the aligned pitch that the upload layout describes.
pub fn upload_copies(layout: UploadLayout, height: u32, data_len: usize) -> (r: Vec<RowCopy>)
    requires
        layout.row_size * height <= usize::MAX,
    ensures
        layout.row_size == layout.pitch ==> r@ == seq![whole_copy(data_len)],
        layout.row_size != layout.pitch ==> r@.len() == height && forall|y: int|
            0 <= y < height ==> #[trigger] r@[y] == row_copy(y, layout.row_size as int),
{
    let mut copies: Vec<RowCopy> = Vec::new();
    if layout.row_size == layout.pitch {
        copies.push(RowCopy { source: 0, destination: 0, length: data_len });
        return copies;
    }
    let mut y: u32 = 0;
    while y < height
        invariant
            y <= height,
            layout.row_size * height <= usize::MAX,
            copies@.len() == y,
            forall|q: int| 0 <= q < y ==> #[trigger] copies@[q] == row_copy(q, layout.row_size as int),
        decreases height - y,
    {
        proof {
            assert(y * layout.row_size <= height * layout.row_size) by (nonlinear_arith)
                requires y <= height;
        }
        let offset = y as usize * layout.row_size as usize;
        copies.push(RowCopy { source: offset, destination: offset, length: layout.row_size as usize });
        y = y + 1;
    }
    copies
}

/// Whether data of `width` by `height` may be uploaded to a texture of
/// `texture_width` by `texture_height`: a whole upload must match its size.
pub fn upload_size_matches(texture_width: u32, texture_height: u32, width: u32, height: u32, is_partial: bool) -> (r: bool)
    ensures
        r == (is_partial || (texture_width == width && texture_height == height)),
{
    !((texture_width != width || texture_height != height) && !is_partial)
}

/// The descriptor capacity of the heap before a texture is added to
/// `textures` existing ones: doubled when it has no free slot left.
pub fn next_heap_capacity(capacity: u32, textures: u32) -> (r: u32)
    requires
        capacity <= textures ==> capacity * 2 <= u32::MAX,
    ensures
        r == if capacity <= textures { capacity * 2 } else { capacity as int },
{
    if capacity <= textures {
        capacity * 2
    } else {
        capacity
    }
}

/// The address of descriptor slot `index` in a heap starting at `heap_start`
/// whose slots are `increment` bytes apart.
pub fn descriptor_address(heap_start: u64, index: u32, increment: u32) -> (r: u64)
    requires
        index * increment <= u32::MAX,
        heap_start + index * increment <= u64::MAX,
    ensures
        r == heap_start + index * increment,
{
    heap_start + (index * increment) as u64
}

/// What to do with a change to a texture.
#[derive(Debug, Copy, Clone, PartialEq, Eq, Structural)]
pub enum TextureAction {
    /// Create the texture and upload the whole image.
    Create,
    /// Upload the image into the region of the existing texture.
    UpdateRegion,
    /// Leave the textures as they are.
    Ignore,
}

/// What to do with a change to a texture: a whole image (re)creates it; a
/// partial change of a font texture that exists updates its region; any
/// other partial change is ignored.
pub fn texture_action(is_font: bool, is_whole: bool, exists: bool) -> (r: TextureAction)
    ensures
        is_whole ==> r == TextureAction::Create,
        !is_whole && is_font && exists ==> r == TextureAction::UpdateRegion,
        !is_whole && !(is_font && exists) ==> r == TextureAction::Ignore,
{
    if is_whole {
        TextureAction::Create
    } else if is_font && exists {
        TextureAction::UpdateRegion
    } else {
        TextureAction::Ignore
    }
}

} // verus!
