//! Textures: handles, image deltas, the staging buffer and the 2D texture
//! model, with the upload sequence that a texture write records.
use vstd::prelude::*;

verus! {

/// Identifies a live texture: one of the GUI's own (font atlas, images it
/// manages) or one registered from outside with a view and a sampler.
#[derive(Clone, Copy, Debug, PartialEq, Eq, Structural, Hash)]
pub enum TextureHandle {
    Internal(u64),
    External(u64),
}

/// Width and height of an image, in texels.
#[derive(Clone, Copy, Debug, PartialEq, Eq, Structural)]
pub struct TextureExtent {
    pub width: u32,
    pub height: u32,
}

/// New contents for a texture: row-major RGBA8 texels, `width * height` of
/// them. Without `offset` the delta is a whole new texture; with it, the
/// delta patches a sub-rectangle whose top-left corner is `offset`.
#[derive(Clone, Debug)]
pub struct ImageDelta {
    pub width: u32,
    pub height: u32,
    pub pixels: Vec<[u8; 4]>,
    pub offset: Option<(u32, u32)>,
}

/// The bytes of a sequence of RGBA8 texels, texel after texel, each in
/// channel order.
pub open spec fn rgba_bytes(px: Seq<[u8; 4]>) -> Seq<u8> {
    Seq::new((px.len() * 4) as nat, |k: int| px[k / 4]@[k % 4])
}

/// Relies on bytemuck::cast_slice: a slice of `[u8; 4]` read as the bytes it
/// is laid out in, four per element, in order.
#[verifier::external_body]
fn cast_texels(px: &[[u8; 4]]) -> (r: Vec<u8>)
    ensures
        r@ == rgba_bytes(px@),
{
    bytemuck::cast_slice::<[u8; 4], u8>(px).to_vec()
}

/// The bytes of the texels, texel after texel.
pub fn pixel_bytes(px: &[[u8; 4]]) -> (r: Vec<u8>)
    ensures
        r@ == rgba_bytes(px@),
        r@.len() == 4 * px@.len(),
{
    cast_texels(px)
}

/// The layout an image is in, as far as uploads are concerned.
#[derive(Clone, Copy, Debug, PartialEq, Eq, Structural)]
pub enum ImageLayout {
    Undefined,
    TransferDstOptimal,
    ShaderReadOnlyOptimal,
}

/// Where a buffer-to-image copy lands: top-left corner and extent.
#[derive(Clone, Copy, Debug, PartialEq, Eq, Structural)]
pub struct CopyRegion {
    pub x: u32,
    pub y: u32,
    pub width: u32,
    pub height: u32,
}

/// One step of a texture upload, in the order it must be carried out.
#[derive(Clone, Copy, Debug, PartialEq, Eq, Structural)]
pub enum UploadStep {
    /// Write the payload's `len` bytes at the start of the staging buffer.
    Stage { len: u64 },
    /// A layout transition barrier on the image.
    Barrier { from: ImageLayout, to: ImageLayout },
    /// Copy from the staging buffer into the image.
    CopyToImage { region: CopyRegion },
}

/// A host-visible buffer of fixed size that stages bytes before they are
/// copied into a device-local image.
#[derive(Clone, Copy, Debug, PartialEq, Eq, Structural)]
pub struct StagingBuffer {
    pub size: u64,
}

impl StagingBuffer {
    /// A staging buffer of exactly `size` bytes.
    pub fn create(size: u64) -> (r: StagingBuffer)
        ensures
            r.size == size,
    {
        StagingBuffer { size }
    }

    /// Whether a payload of `len` bytes fits in the buffer.
    pub fn upload_data(&self, len: u64) -> (r: bool)
        ensures
            r == (len <= self.size),
    {
        len <= self.size
    }
}

/// Bytes of an RGBA8 image of the given extent.
pub open spec fn image_bytes(extent: TextureExtent) -> int {
    extent.width as int * extent.height as int * 4
}

/// Whether a patch of extent `patch` placed at `offset` lies inside an
/// image of extent `extent`.
pub open spec fn region_fits(offset: (u32, u32), patch: TextureExtent, extent: TextureExtent) -> bool {
    &&& offset.0 as int + patch.width as int <= extent.width as int
    &&& offset.1 as int + patch.height as int <= extent.height as int
}

/// The steps that upload a payload of `len` bytes into an image in layout
/// `prior`: the copy covers exactly the patch of extent `patch` whose
/// top-left corner is `offset`.
pub open spec fn upload_steps(prior: ImageLayout, len: u64, offset: (u32, u32), patch: TextureExtent) -> Seq<UploadStep> {
    seq![
        UploadStep::Stage { len },
        UploadStep::Barrier { from: prior, to: ImageLayout::TransferDstOptimal },
        UploadStep::CopyToImage {
            region: CopyRegion { x: offset.0, y: offset.1, width: patch.width, height: patch.height },
        },
        UploadStep::Barrier { from: ImageLayout::TransferDstOptimal, to: ImageLayout::ShaderReadOnlyOptimal },
    ]
}

/// A 2D RGBA8 texture: one image with its view and memory, and a private
/// staging buffer sized to the image's bytes.
#[derive(Clone, Copy, Debug, PartialEq, Eq, Structural)]
pub struct Texture2D {
    pub extent: TextureExtent,
    pub staging: StagingBuffer,
    pub layout: ImageLayout,
}

impl Texture2D {
    /// A texture of `width` by `height` texels, its image not yet written.
    /// `None` when its byte size does not fit in a `u64`.
    pub fn create(width: u32, height: u32) -> (r: Option<Texture2D>)
        ensures
            image_bytes(TextureExtent { width, height }) <= u64::MAX ==> r == Some(
                Texture2D {
                    extent: TextureExtent { width, height },
                    staging: StagingBuffer { size: image_bytes(TextureExtent { width, height }) as u64 },
                    layout: ImageLayout::Undefined,
                },
            ),
            image_bytes(TextureExtent { width, height }) > u64::MAX ==> r is None,
    {
        proof {
            assert(width as int * height as int <= u32::MAX as int * u32::MAX as int) by (nonlinear_arith)
                requires
                    width <= u32::MAX,
                    height <= u32::MAX,
            ;
        }
        let texels: u64 = width as u64 * height as u64;
        if texels > u64::MAX / 4 {
            return None;
        }
        let size: u64 = texels * 4;
        Some(
            Texture2D {
                extent: TextureExtent { width, height },
                staging: StagingBuffer::create(size),
                layout: ImageLayout::Undefined,
            },
        )
    }

    /// The texture's invariant: its staging buffer holds exactly the
    /// image's bytes.
    pub open spec fn wf(&self) -> bool {
        self.staging.size == image_bytes(self.extent)
    }

    /// Plans the upload of a patch of extent `patch` at `offset`: stage its
    /// `4 * width * height` bytes, move the image to transfer-destination
    /// layout, copy exactly the patch's rectangle, move the image to
    /// shader-read layout. `None`, and the texture unchanged, when the patch
    /// does not lie inside the image or its bytes do not fit in the staging
    /// buffer. The extent never changes.
    pub fn upload_data(&mut self, patch: TextureExtent, offset: (u32, u32)) -> (r: Option<Vec<UploadStep>>)
        ensures
            region_fits(offset, patch, old(self).extent) && image_bytes(patch) <= old(self).staging.size ==> {
                &&& r is Some
                &&& r.unwrap()@ == upload_steps(old(self).layout, image_bytes(patch) as u64, offset, patch)
                &&& *final(self) == Texture2D { layout: ImageLayout::ShaderReadOnlyOptimal, ..*old(self) }
            },
            !(region_fits(offset, patch, old(self).extent) && image_bytes(patch) <= old(self).staging.size)
                ==> r is None && *final(self) == *old(self),
    {
        if offset.0 as u64 + patch.width as u64 > self.extent.width as u64 || offset.1 as u64
            + patch.height as u64 > self.extent.height as u64 {
            return None;
        }
        proof {
            assert(patch.width as int * patch.height as int <= u32::MAX as int * u32::MAX as int) by (nonlinear_arith)
                requires
                    patch.width <= u32::MAX,
                    patch.height <= u32::MAX,
            ;
        }
        let texels: u64 = patch.width as u64 * patch.height as u64;
        if texels > u64::MAX / 4 {
            return None;
        }
        let len: u64 = texels * 4;
        if !self.staging.upload_data(len) {
            return None;
        }
        let mut steps: Vec<UploadStep> = Vec::new();
        steps.push(UploadStep::Stage { len });
        steps.push(UploadStep::Barrier { from: self.layout, to: ImageLayout::TransferDstOptimal });
        steps.push(
            UploadStep::CopyToImage {
                region: CopyRegion { x: offset.0, y: offset.1, width: patch.width, height: patch.height },
            },
        );
        steps.push(
            UploadStep::Barrier {
                from: ImageLayout::TransferDstOptimal,
                to: ImageLayout::ShaderReadOnlyOptimal,
            },
        );
        self.layout = ImageLayout::ShaderReadOnlyOptimal;
        proof {
            assert(steps@ =~= upload_steps(old(self).layout, len, offset, patch));
        }
        Some(steps)
    }
}

} // verus!
