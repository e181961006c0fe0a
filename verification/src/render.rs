//! The render and readback pipeline's plan.
//!
//! A frame is drawn in two passes into one offscreen target. The splat pass
//! clears the target to transparent and draws one small triangle per body,
//! blending so that overlapping bodies add up. The target is then copied into
//! a second texture, and the tone-mapping pass clears the target to black and
//! draws over the whole of it, sampling the copy and replacing what is there.
//! Last, the target is copied into a staging buffer with padded rows, from
//! which the host extracts a dense pixel buffer for the image encoder.

use vstd::prelude::*;
use crate::extract::{strip_padding, unpadded};
use crate::layout::{
    FrameDims,
    FrameLayout,
    lemma_padded_row_is_least_multiple,
    padded_row_bytes,
    pixel_bytes,
    staging_bytes,
};
use crate::naming::{frame_file_name, frame_path, ImageFormat};
use crate::resource::{BufferPlan, BufferUsage, TexturePlan, TextureUsage};

verus! {

/// Width of a frame where none is configured.
pub const WIDTH: u32 = 1080;

/// Height of a frame where none is configured.
pub const HEIGHT: u32 = 1920;

/// Bytes of the camera's uniform: a 4 x 4 matrix of 32-bit floats.
pub const CAMERA_UNIFORM_BYTES: u64 = 64;

/// Bytes between the positions of two bodies in the splat pass's vertex
/// source.
pub const INSTANCE_STRIDE: u64 = 8;

/// Vertices of the triangle drawn for each instance of either pass.
pub const TRIANGLE_VERTICES: u32 = 3;

/// Triangles that the tone-mapping pass draws over the target.
pub const TONE_MAP_TRIANGLES: u32 = 2;

/// The weight of one side of a blend.
#[derive(Clone, Copy, Debug, PartialEq, Eq, Structural)]
pub enum BlendFactor {
    /// The side does not count.
    Zero,
    /// The side counts in full.
    One,
}

/// How one channel group of a fragment is combined with what the target
/// holds: the sum of the two, each times its weight.
#[derive(Clone, Copy, Debug, PartialEq, Eq, Structural)]
pub struct BlendComponent {
    /// Weight of the fragment.
    pub src: BlendFactor,
    /// Weight of what the target holds.
    pub dst: BlendFactor,
}

/// The blend of a pipeline.
#[derive(Clone, Copy, Debug, PartialEq, Eq, Structural)]
pub struct BlendState {
    /// Blend of the colour channels.
    pub color: BlendComponent,
    /// Blend of the alpha channel.
    pub alpha: BlendComponent,
}

/// The two passes of a frame.
#[derive(Clone, Copy, Debug, PartialEq, Eq, Structural)]
pub enum Pass {
    /// One triangle per body, accumulated in the target.
    Splat,
    /// The accumulated density mapped to display colour.
    ToneMap,
}

/// What a pass clears the target to before it draws.
#[derive(Clone, Copy, Debug, PartialEq, Eq, Structural)]
pub enum ClearColor {
    /// All channels zero.
    Transparent,
    /// Colour zero, alpha one.
    Black,
}

/// The two textures of the pipeline.
#[derive(Clone, Copy, Debug, PartialEq, Eq, Structural)]
pub enum RenderTexture {
    /// The offscreen colour target of both passes.
    Target,
    /// The copy of the target that the tone-mapping pass samples.
    Sampled,
}

/// One command of a frame, in the order of recording.
#[derive(Clone, Copy, Debug, PartialEq, Eq, Structural)]
pub enum RenderCommand {
    /// Clear the target to `clear` and draw `instances` instances of
    /// `vertices` vertices through the pipeline of `pass`.
    Draw { pass: Pass, clear: ClearColor, vertices: u32, instances: u32 },
    /// Copy the whole target into the sampled texture.
    CopyTargetToSampled,
    /// Copy the whole target into the staging buffer, `rows` rows at a
    /// stride of `bytes_per_row` bytes.
    CopyTargetToStaging { bytes_per_row: u32, rows: u32 },
    /// Hand everything recorded so far to the queue.
    Submit,
    /// Block until the device has finished that submission.
    WaitForSubmission,
}

/// Why no pixel buffer came out of an extraction.
#[derive(Clone, Copy, Debug, PartialEq, Eq, Structural)]
pub enum ExtractError {
    /// The device did not map the staging buffer.
    MapFailed,
    /// The mapped bytes are not a capture of the frame: their count is not
    /// the staging size.
    BadCapture,
}

/// An extracted frame, ready for the image encoder.
#[derive(Debug)]
pub struct Frame {
    /// Path of the image file.
    pub path: String,
    /// Pixels in a row.
    pub width: u32,
    /// Rows.
    pub height: u32,
    /// The RGBA8 pixels, row-major from the top row, without padding.
    pub pixels: Vec<u8>,
}

/// A channel value times a blend factor.
pub open spec fn scaled(factor: BlendFactor, value: int) -> int {
    match factor {
        BlendFactor::Zero => 0,
        BlendFactor::One => value,
    }
}

/// What a channel holds after a fragment of value `src` has been blended
/// over the value `dst`, before the target clamps it.
pub open spec fn blended(component: BlendComponent, src: int, dst: int) -> int {
    scaled(component.src, src) + scaled(component.dst, dst)
}

/// The blend of a pass.
pub open spec fn blend_of(pass: Pass) -> BlendState {
    match pass {
        Pass::Splat => BlendState {
            color: BlendComponent { src: BlendFactor::Zero, dst: BlendFactor::One },
            alpha: BlendComponent { src: BlendFactor::One, dst: BlendFactor::One },
        },
        Pass::ToneMap => BlendState {
            color: BlendComponent { src: BlendFactor::One, dst: BlendFactor::Zero },
            alpha: BlendComponent { src: BlendFactor::One, dst: BlendFactor::Zero },
        },
    }
}

/// Bytes between two instances in the vertex source of a pass, or `None`
/// where the pass has no vertex source.
pub open spec fn instance_stride_of(pass: Pass) -> Option<u64> {
    match pass {
        Pass::Splat => Some(8u64),
        Pass::ToneMap => None,
    }
}

/// What a texture of the pipeline is used for.
pub open spec fn texture_usage(texture: RenderTexture) -> TextureUsage {
    match texture {
        RenderTexture::Target => TextureUsage {
            render_attachment: true,
            texture_binding: false,
            copy_src: true,
            copy_dst: false,
        },
        RenderTexture::Sampled => TextureUsage {
            render_attachment: false,
            texture_binding: true,
            copy_src: false,
            copy_dst: true,
        },
    }
}

/// What the staging buffer is used for: it receives the copy of the target
/// and is mapped for reading.
pub open spec fn staging_usage() -> BufferUsage {
    BufferUsage {
        storage: false,
        uniform: false,
        vertex: false,
        copy_src: false,
        copy_dst: true,
        map_read: true,
    }
}

/// What the camera's uniform buffer is used for.
pub open spec fn camera_usage() -> BufferUsage {
    BufferUsage {
        storage: false,
        uniform: true,
        vertex: false,
        copy_src: false,
        copy_dst: true,
        map_read: false,
    }
}

/// The commands of one frame of `instances` bodies.
pub open spec fn frame_commands(dims: FrameDims, instances: int) -> Seq<RenderCommand> {
    seq![
        RenderCommand::Draw {
            pass: Pass::Splat,
            clear: ClearColor::Transparent,
            vertices: 3,
            instances: instances as u32,
        },
        RenderCommand::CopyTargetToSampled,
        RenderCommand::Draw {
            pass: Pass::ToneMap,
            clear: ClearColor::Black,
            vertices: 3,
            instances: 2,
        },
        RenderCommand::CopyTargetToStaging {
            bytes_per_row: padded_row_bytes(dims.width as int) as u32,
            rows: dims.height as u32,
        },
        RenderCommand::Submit,
        RenderCommand::WaitForSubmission,
    ]
}

/// What an extraction returns for the outcome of the mapping: the frame cut
/// from the capture, or the reason why there is none.
pub open spec fn extraction_is(
    result: Result<Frame, ExtractError>,
    capture: Option<Seq<u8>>,
    dims: FrameDims,
    format: ImageFormat,
    index: nat,
) -> bool {
    match capture {
        None => result == Err::<Frame, ExtractError>(ExtractError::MapFailed),
        Some(bytes) => if bytes.len() == staging_bytes(dims.width as int, dims.height as int) {
            &&& result matches Ok(frame)
            &&& frame.path@ == frame_path(index, format)
            &&& frame.width == dims.width
            &&& frame.height == dims.height
            &&& frame.pixels@ == unpadded(bytes, dims)
            &&& frame.pixels@.len() == pixel_bytes(dims.width as int, dims.height as int)
        } else {
            result == Err::<Frame, ExtractError>(ExtractError::BadCapture)
        },
    }
}

/// The splat pass leaves the colour of the target as it is and adds each
/// fragment's alpha to the alpha that is there, so bodies that overlap
/// accumulate. The tone-mapping pass overwrites both.
pub proof fn lemma_blend_accumulates(src: int, dst: int)
    ensures
        blended(blend_of(Pass::Splat).color, src, dst) == dst,
        blended(blend_of(Pass::Splat).alpha, src, dst) == src + dst,
        blended(blend_of(Pass::ToneMap).color, src, dst) == src,
        blended(blend_of(Pass::ToneMap).alpha, src, dst) == src,
{
}

/// The copy that ends a frame fills the staging buffer exactly, at a row
/// stride that the device accepts and a 32-bit stride can say.
pub proof fn lemma_staging_copy_fits(dims: FrameDims, instances: int)
    requires
        padded_row_bytes(dims.width as int) <= u32::MAX,
        dims.height <= u32::MAX,
    ensures
        frame_commands(dims, instances)[3] == (RenderCommand::CopyTargetToStaging {
            bytes_per_row: padded_row_bytes(dims.width as int) as u32,
            rows: dims.height as u32,
        }),
        padded_row_bytes(dims.width as int) as u32 == padded_row_bytes(dims.width as int),
        padded_row_bytes(dims.width as int) % 256 == 0,
        padded_row_bytes(dims.width as int) >= 4 * dims.width,
        padded_row_bytes(dims.width as int) * (dims.height as u32) == staging_bytes(
            dims.width as int,
            dims.height as int,
        ),
{
    lemma_padded_row_is_least_multiple(dims.width as int);
}

/// What a [`RenderState`] stands for.
pub ghost struct RenderView {
    /// Size of the frames.
    pub dims: FrameDims,
    /// Encoding of the image files.
    pub format: ImageFormat,
}

/// The render and readback pipeline's view of a run: the size of its frames
/// and the format of its files.
pub struct RenderState {
    layout: FrameLayout,
    format: ImageFormat,
}

impl View for RenderState {
    type V = RenderView;

    closed spec fn view(&self) -> RenderView {
        RenderView { dims: self.layout@, format: self.format }
    }
}

impl RenderState {
    /// The pipeline for frames of `width` x `height` pixels that are written
    /// as `format`, or `None` when a padded row of such a frame is longer
    /// than a 32-bit stride can say.
    pub fn new(width: u32, height: u32, format: ImageFormat) -> (state: Option<RenderState>)
        ensures
            state is Some <==> padded_row_bytes(width as int) <= u32::MAX,
            state matches Some(s) ==> s@ == (RenderView {
                dims: FrameDims { width: width as nat, height: height as nat },
                format,
            }),
    {
        match FrameLayout::new(width, height) {
            Some(layout) => Some(RenderState { layout, format }),
            None => None,
        }
    }

    /// The byte layout of a frame in the staging buffer.
    pub fn layout(&self) -> (layout: &FrameLayout)
        ensures
            layout@ == self@.dims,
    {
        &self.layout
    }

    /// The format of the image files.
    pub fn format(&self) -> (format: ImageFormat)
        ensures
            format == self@.format,
    {
        self.format
    }

    /// Size and usage of one of the pipeline's textures. Both have the size
    /// of the frame.
    pub fn texture(&self, which: RenderTexture) -> (plan: TexturePlan)
        ensures
            plan.width == self@.dims.width,
            plan.height == self@.dims.height,
            plan.usage == texture_usage(which),
    {
        let usage: TextureUsage = match which {
            RenderTexture::Target => TextureUsage {
                render_attachment: true,
                texture_binding: false,
                copy_src: true,
                copy_dst: false,
            },
            RenderTexture::Sampled => TextureUsage {
                render_attachment: false,
                texture_binding: true,
                copy_src: false,
                copy_dst: true,
            },
        };
        TexturePlan { width: self.layout.width(), height: self.layout.height(), usage }
    }

    /// Size and usage of the staging buffer: one padded row for every row
    /// of the frame.
    pub fn staging(&self) -> (plan: BufferPlan)
        ensures
            plan.size == staging_bytes(self@.dims.width as int, self@.dims.height as int),
            plan.usage == staging_usage(),
    {
        let mut usage: BufferUsage = BufferUsage::none();
        usage.copy_dst = true;
        usage.map_read = true;
        BufferPlan { size: self.layout.staging_size(), usage }
    }

    /// Size and usage of the camera's uniform buffer.
    pub fn camera_uniform(&self) -> (plan: BufferPlan)
        ensures
            plan.size == CAMERA_UNIFORM_BYTES,
            plan.usage == camera_usage(),
    {
        let mut usage: BufferUsage = BufferUsage::none();
        usage.uniform = true;
        usage.copy_dst = true;
        BufferPlan { size: CAMERA_UNIFORM_BYTES, usage }
    }

    /// The blend of the pipeline of a pass.
    pub fn blend(&self, pass: Pass) -> (blend: BlendState)
        ensures
            blend == blend_of(pass),
    {
        match pass {
            Pass::Splat => BlendState {
                color: BlendComponent { src: BlendFactor::Zero, dst: BlendFactor::One },
                alpha: BlendComponent { src: BlendFactor::One, dst: BlendFactor::One },
            },
            Pass::ToneMap => BlendState {
                color: BlendComponent { src: BlendFactor::One, dst: BlendFactor::Zero },
                alpha: BlendComponent { src: BlendFactor::One, dst: BlendFactor::Zero },
            },
        }
    }

    /// Bytes between two instances in the vertex source of a pass: the
    /// splat pass steps through the position snapshot one body at a time,
    /// the tone-mapping pass has no vertex source.
    pub fn instance_stride(&self, pass: Pass) -> (stride: Option<u64>)
        ensures
            stride == instance_stride_of(pass),
    {
        match pass {
            Pass::Splat => Some(INSTANCE_STRIDE),
            Pass::ToneMap => None,
        }
    }

    /// The commands of one frame of `input_len` bodies, in the order of
    /// recording.
    pub fn render(&self, input_len: u32) -> (commands: Vec<RenderCommand>)
        ensures
            commands@ == frame_commands(self@.dims, input_len as int),
    {
        let mut commands: Vec<RenderCommand> = Vec::new();
        commands.push(
            RenderCommand::Draw {
                pass: Pass::Splat,
                clear: ClearColor::Transparent,
                vertices: TRIANGLE_VERTICES,
                instances: input_len,
            },
        );
        commands.push(RenderCommand::CopyTargetToSampled);
        commands.push(
            RenderCommand::Draw {
                pass: Pass::ToneMap,
                clear: ClearColor::Black,
                vertices: TRIANGLE_VERTICES,
                instances: TONE_MAP_TRIANGLES,
            },
        );
        commands.push(
            RenderCommand::CopyTargetToStaging {
                bytes_per_row: self.layout.padded_bytes_per_row(),
                rows: self.layout.height(),
            },
        );
        commands.push(RenderCommand::Submit);
        commands.push(RenderCommand::WaitForSubmission);
        assert(commands@ =~= frame_commands(self@.dims, input_len as int));
        commands
    }

    /// Cuts the frame of index `filename` out of the mapped staging buffer.
    ///
    /// `capture` is what the mapping gave: the bytes of the staging buffer,
    /// or `None` where the device did not map it. The frame that comes back
    /// holds the pixels without the row padding and the path of its file.
    pub fn save_buffer_to_image(&self, filename: u32, capture: Option<&[u8]>) -> (result: Result<
        Frame,
        ExtractError,
    >)
        ensures
            extraction_is(
                result,
                match capture {
                    Some(bytes) => Some(bytes@),
                    None => None,
                },
                self@.dims,
                self@.format,
                filename as nat,
            ),
    {
        let bytes: &[u8] = match capture {
            Some(bytes) => bytes,
            None => {
                return Err(ExtractError::MapFailed);
            },
        };
        match strip_padding(bytes, &self.layout) {
            Some(pixels) => Ok(
                Frame {
                    path: frame_file_name(filename, self.format),
                    width: self.layout.width(),
                    height: self.layout.height(),
                    pixels,
                },
            ),
            None => Err(ExtractError::BadCapture),
        }
    }
}

} // verus!
