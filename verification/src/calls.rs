//! The graphics calls the executor asks for, and the call sequence of each
//! kind of command.

use crate::gpu::{
    AttributeKind, Bitmap, BitmapFormat, GpuState, IndexBuffer, PixelLayout, Rect, ResourceKind,
    ShaderType, TextureStorage, UniformBlock, VertexAttribute, VertexBuffer,
};
use vstd::prelude::*;

verus! {

/// One call, or one fixed group of calls, on the graphics API. Handles are
/// native object names; `0` unbinds.
#[derive(Clone, Copy, Debug, PartialEq, Eq, Structural)]
pub enum GlCall {
    /// Sets how pixel rows are read from client memory: byte alignment 1, the
    /// given row length in pixels, nothing skipped, no byte swapping.
    UnpackRows { row_length: u32 },
    BindTexture { texture: u32 },
    /// Linear filtering both ways, coordinates clamped to the edge.
    SampleLinearClamped,
    /// Allocates the bound texture and fills it from the command's pixels, if
    /// it has any.
    TexImage { storage: TextureStorage, width: u32, height: u32, layout: PixelLayout, has_pixels: bool },
    /// Overwrites the bound texture from the command's pixels.
    TexSubImage { width: u32, height: u32, layout: PixelLayout, has_pixels: bool },
    DeleteTexture { texture: u32 },
    BindFramebuffer { framebuffer: u32 },
    /// Turns on non-linear colour encoding for framebuffer writes.
    EnableFramebufferSrgb,
    /// Attaches the texture as the colour target of the bound framebuffer.
    AttachTexture { texture: u32 },
    /// Asks whether the bound framebuffer is complete; an incomplete one is
    /// reported and execution goes on.
    CheckFramebuffer,
    DeleteFramebuffer { framebuffer: u32 },
    BindVertexArray { vertex_array: u32 },
    BindVertexBuffer { buffer: u32 },
    BindIndexBuffer { buffer: u32 },
    /// Allocates the bound vertex buffer from the command's vertex bytes.
    VertexData { byte_len: usize },
    /// Allocates the bound index buffer from the command's indices.
    IndexData { index_count: usize },
    /// Overwrites the start of the bound vertex buffer.
    VertexSubData { byte_len: usize },
    /// Overwrites the start of the bound index buffer.
    IndexSubData { index_count: usize },
    /// Enables the attribute and describes where it lies in a vertex.
    Attribute { attribute: VertexAttribute },
    DeleteBuffer { buffer: u32 },
    DeleteVertexArray { vertex_array: u32 },
    /// Clears colour to transparent black, and depth.
    Clear,
    /// Viewport at the origin.
    Viewport { width: u32, height: u32 },
    /// Alpha blending: source alpha over the target.
    EnableBlend,
    DisableBlend,
    EnableScissor { left: i32, top: i32, span_x: i64, span_y: i64 },
    DisableScissor,
    UseProgram { program: u32 },
    /// Binds the texture to the texture unit.
    BindTextureUnit { unit: u32, texture: u32 },
    /// Points the sampler of that number at the texture unit of that number.
    SetSampler { unit: u32 },
    /// Uploads the transform of draw operation `draw` of the list, multiplied
    /// by the orthographic projection of its viewport.
    SetTransform { draw: usize },
    /// Uploads the vector (0, width, height, 1).
    SetState { viewport_width: u32, viewport_height: u32 },
    SetClipSize { clip_size: u32 },
    /// Creates a uniform buffer from that block of draw operation `draw` and
    /// binds it to the slot.
    CreateUniformBuffer { draw: usize, block: UniformBlock, slot: u32 },
    /// Ties the program's block of that name to the slot.
    BindUniformBlock { block: UniformBlock, slot: u32 },
    /// Indexed triangle-list draw of `count` 32-bit indices starting at
    /// `byte_offset` of the bound index buffer.
    DrawTriangles { count: u32, byte_offset: u64 },
    /// Reads the API's error flag and reports an error, if there is one.
    ReportError,
    /// Destroys the uniform buffer created for that block by this draw.
    DestroyUniformBuffer { block: UniformBlock },
    /// Reports that an update or a draw named an id that is not registered.
    /// Nothing else is called for it, and execution goes on.
    ReportUnknown { kind: ResourceKind, id: u32 },
}

/// The native objects reserved for one command before it executes: a texture
/// or a framebuffer in `first`; for a geometry the vertex array, vertex buffer
/// and index buffer, in this order. Commands that create nothing ignore them.
#[derive(Clone, Copy, Debug, PartialEq, Eq, Structural)]
pub struct FreshHandles {
    pub first: u32,
    pub second: u32,
    pub third: u32,
}

/// The two linked shader programs.
#[derive(Clone, Copy, Debug, PartialEq, Eq, Structural)]
pub struct Programs {
    pub path_program: u32,
    pub fill_program: u32,
}

impl BitmapFormat {
    pub open spec fn spec_storage(&self) -> TextureStorage {
        match self {
            BitmapFormat::A8Unorm => TextureStorage::R8,
            BitmapFormat::Bgra8UnormSrgb => TextureStorage::Srgb8Alpha8,
        }
    }

    /// How a texture of this format is stored.
    #[verifier::when_used_as_spec(spec_storage)]
    pub fn storage(&self) -> (r: TextureStorage)
        ensures
            r == self.spec_storage(),
    {
        match self {
            BitmapFormat::A8Unorm => TextureStorage::R8,
            BitmapFormat::Bgra8UnormSrgb => TextureStorage::Srgb8Alpha8,
        }
    }

    pub open spec fn spec_layout(&self) -> PixelLayout {
        match self {
            BitmapFormat::A8Unorm => PixelLayout::Red,
            BitmapFormat::Bgra8UnormSrgb => PixelLayout::Bgra,
        }
    }

    /// How pixel data of this format is laid out in client memory.
    #[verifier::when_used_as_spec(spec_layout)]
    pub fn layout(&self) -> (r: PixelLayout)
        ensures
            r == self.spec_layout(),
    {
        match self {
            BitmapFormat::A8Unorm => PixelLayout::Red,
            BitmapFormat::Bgra8UnormSrgb => PixelLayout::Bgra,
        }
    }
}

/// Calls that allocate texture `texture` from `bitmap`.
pub open spec fn create_texture_calls(texture: u32, bitmap: Bitmap) -> Seq<GlCall> {
    seq![
        GlCall::UnpackRows { row_length: bitmap.spec_row_length() },
        GlCall::BindTexture { texture },
        GlCall::SampleLinearClamped,
        GlCall::TexImage {
            storage: bitmap.format.spec_storage(),
            width: bitmap.width,
            height: bitmap.height,
            layout: bitmap.format.spec_layout(),
            has_pixels: bitmap.has_pixels,
        },
        GlCall::BindTexture { texture: 0 },
    ]
}

/// Calls that refresh texture `texture` from `bitmap`.
pub open spec fn update_texture_calls(texture: u32, bitmap: Bitmap) -> Seq<GlCall> {
    seq![
        GlCall::UnpackRows { row_length: bitmap.spec_row_length() },
        GlCall::BindTexture { texture },
        GlCall::TexSubImage {
            width: bitmap.width,
            height: bitmap.height,
            layout: bitmap.format.spec_layout(),
            has_pixels: bitmap.has_pixels,
        },
        GlCall::BindTexture { texture: 0 },
    ]
}

/// Calls that set framebuffer `framebuffer` up over texture `texture`.
pub open spec fn create_render_buffer_calls(framebuffer: u32, texture: u32) -> Seq<GlCall> {
    seq![
        GlCall::BindFramebuffer { framebuffer },
        GlCall::EnableFramebufferSrgb,
        GlCall::AttachTexture { texture },
        GlCall::CheckFramebuffer,
        GlCall::BindFramebuffer { framebuffer: 0 },
    ]
}

/// Calls that upload a geometry into the three objects reserved for it.
pub open spec fn create_geometry_calls(
    fresh: FreshHandles,
    vertices: VertexBuffer,
    indices: IndexBuffer,
) -> Seq<GlCall> {
    seq![
        GlCall::BindVertexArray { vertex_array: fresh.first },
        GlCall::BindVertexBuffer { buffer: fresh.second },
        GlCall::VertexData { byte_len: vertices.byte_len },
    ] + vertices.format.attributes().map_values(|a: VertexAttribute| GlCall::Attribute { attribute: a })
        + seq![
        GlCall::BindIndexBuffer { buffer: fresh.third },
        GlCall::IndexData { index_count: indices.index_count },
        GlCall::BindVertexArray { vertex_array: 0 },
    ]
}

/// Calls that refresh the buffers of a geometry.
pub open spec fn update_geometry_calls(
    objects: (u32, u32, u32),
    vertices: VertexBuffer,
    indices: IndexBuffer,
) -> Seq<GlCall> {
    seq![
        GlCall::BindVertexArray { vertex_array: objects.0 },
        GlCall::BindVertexBuffer { buffer: objects.1 },
        GlCall::VertexSubData { byte_len: vertices.byte_len },
        GlCall::BindIndexBuffer { buffer: objects.2 },
        GlCall::IndexSubData { index_count: indices.index_count },
        GlCall::BindVertexArray { vertex_array: 0 },
    ]
}

/// Calls that release the three objects of a geometry: the buffers first.
pub open spec fn destroy_geometry_calls(objects: (u32, u32, u32)) -> Seq<GlCall> {
    seq![
        GlCall::DeleteBuffer { buffer: objects.1 },
        GlCall::DeleteBuffer { buffer: objects.2 },
        GlCall::DeleteVertexArray { vertex_array: objects.0 },
    ]
}

/// Calls that clear framebuffer `framebuffer`.
pub open spec fn clear_calls(framebuffer: u32) -> Seq<GlCall> {
    seq![
        GlCall::BindFramebuffer { framebuffer },
        GlCall::Clear,
        GlCall::BindFramebuffer { framebuffer: 0 },
    ]
}

/// The blend call of a state.
pub open spec fn blend_call(state: GpuState) -> GlCall {
    if state.enable_blend {
        GlCall::EnableBlend
    } else {
        GlCall::DisableBlend
    }
}

/// The scissor call of a state: the rectangle by its corner and extent.
pub open spec fn scissor_call(state: GpuState) -> GlCall {
    if state.enable_scissor {
        let r = state.scissor_rect;
        GlCall::EnableScissor {
            left: r.left,
            top: r.top,
            span_x: (r.right - r.left) as i64,
            span_y: (r.bottom - r.top) as i64,
        }
    } else {
        GlCall::DisableScissor
    }
}

/// The program that a shader type selects.
pub open spec fn program_of(programs: Programs, shader_type: ShaderType) -> u32 {
    match shader_type {
        ShaderType::Fill => programs.fill_program,
        ShaderType::FillPath => programs.path_program,
    }
}

/// Calls of draw operation `draw` of a list, with the framebuffer, the three
/// textures and the vertex array already resolved to native handles.
pub open spec fn draw_calls(
    draw: usize,
    state: GpuState,
    program: u32,
    framebuffer: u32,
    textures: (u32, u32, u32),
    vertex_array: u32,
    indices_offset: u32,
    indices_count: u32,
) -> Seq<GlCall> {
    seq![
        GlCall::BindFramebuffer { framebuffer },
        GlCall::Viewport { width: state.viewport_width, height: state.viewport_height },
        GlCall::CheckFramebuffer,
        blend_call(state),
        scissor_call(state),
        GlCall::UseProgram { program },
        GlCall::BindTextureUnit { unit: 1, texture: textures.0 },
        GlCall::BindTextureUnit { unit: 2, texture: textures.1 },
        GlCall::BindTextureUnit { unit: 3, texture: textures.2 },
        GlCall::SetSampler { unit: 1 },
        GlCall::SetSampler { unit: 2 },
        GlCall::SetSampler { unit: 3 },
        GlCall::BindVertexArray { vertex_array },
        GlCall::SetTransform { draw },
        GlCall::SetState {
            viewport_width: state.viewport_width,
            viewport_height: state.viewport_height,
        },
        GlCall::SetClipSize { clip_size: state.clip_size as u32 },
        GlCall::CreateUniformBuffer { draw, block: UniformBlock::Scalar, slot: 0 },
        GlCall::CreateUniformBuffer { draw, block: UniformBlock::Vector, slot: 1 },
        GlCall::CreateUniformBuffer { draw, block: UniformBlock::Clip, slot: 2 },
        GlCall::BindUniformBlock { block: UniformBlock::Scalar, slot: 0 },
        GlCall::BindUniformBlock { block: UniformBlock::Vector, slot: 1 },
        GlCall::BindUniformBlock { block: UniformBlock::Clip, slot: 2 },
        GlCall::DrawTriangles { count: indices_count, byte_offset: (indices_offset * 4) as u64 },
        GlCall::ReportError,
        GlCall::UseProgram { program: 0 },
        GlCall::DestroyUniformBuffer { block: UniformBlock::Scalar },
        GlCall::DestroyUniformBuffer { block: UniformBlock::Vector },
        GlCall::DestroyUniformBuffer { block: UniformBlock::Clip },
        GlCall::BindVertexArray { vertex_array: 0 },
        GlCall::BindFramebuffer { framebuffer: 0 },
    ]
}

/// Appends the calls of a texture allocation to `out`.
pub fn push_create_texture(out: &mut Vec<GlCall>, texture: u32, bitmap: &Bitmap)
    ensures
        final(out)@ == old(out)@ + create_texture_calls(texture, *bitmap),
{
    out.push(GlCall::UnpackRows { row_length: bitmap.row_length() });
    out.push(GlCall::BindTexture { texture });
    out.push(GlCall::SampleLinearClamped);
    out.push(
        GlCall::TexImage {
            storage: bitmap.format.storage(),
            width: bitmap.width,
            height: bitmap.height,
            layout: bitmap.format.layout(),
            has_pixels: bitmap.has_pixels,
        },
    );
    out.push(GlCall::BindTexture { texture: 0 });
}

/// Appends the calls of a texture refresh to `out`.
pub fn push_update_texture(out: &mut Vec<GlCall>, texture: u32, bitmap: &Bitmap)
    ensures
        final(out)@ == old(out)@ + update_texture_calls(texture, *bitmap),
{
    out.push(GlCall::UnpackRows { row_length: bitmap.row_length() });
    out.push(GlCall::BindTexture { texture });
    out.push(
        GlCall::TexSubImage {
            width: bitmap.width,
            height: bitmap.height,
            layout: bitmap.format.layout(),
            has_pixels: bitmap.has_pixels,
        },
    );
    out.push(GlCall::BindTexture { texture: 0 });
}

/// Appends the calls of a framebuffer set-up to `out`.
pub fn push_create_render_buffer(out: &mut Vec<GlCall>, framebuffer: u32, texture: u32)
    ensures
        final(out)@ == old(out)@ + create_render_buffer_calls(framebuffer, texture),
{
    out.push(GlCall::BindFramebuffer { framebuffer });
    out.push(GlCall::EnableFramebufferSrgb);
    out.push(GlCall::AttachTexture { texture });
    out.push(GlCall::CheckFramebuffer);
    out.push(GlCall::BindFramebuffer { framebuffer: 0 });
}

/// Appends the calls of a geometry upload to `out`.
pub fn push_create_geometry(
    out: &mut Vec<GlCall>,
    fresh: FreshHandles,
    vertices: &VertexBuffer,
    indices: &IndexBuffer,
)
    ensures
        final(out)@ == old(out)@ + create_geometry_calls(fresh, *vertices, *indices),
{
    out.push(GlCall::BindVertexArray { vertex_array: fresh.first });
    out.push(GlCall::BindVertexBuffer { buffer: fresh.second });
    out.push(GlCall::VertexData { byte_len: vertices.byte_len });
    let attributes = vertices.format.vertex_attributes();
    let ghost head = out@;
    let n = attributes.len();
    let mut i: usize = 0;
    while i < n
        invariant
            i <= n,
            n == attributes@.len(),
            out@.len() == head.len() + i,
            out@.take(head.len() as int) == head,
            forall|j: int|
                0 <= j < i ==> #[trigger] out@[head.len() + j] == (GlCall::Attribute {
                    attribute: attributes@[j],
                }),
        decreases n - i,
    {
        out.push(GlCall::Attribute { attribute: attributes[i] });
        i += 1;
    }
    out.push(GlCall::BindIndexBuffer { buffer: fresh.third });
    out.push(GlCall::IndexData { index_count: indices.index_count });
    out.push(GlCall::BindVertexArray { vertex_array: 0 });
    proof {
        let want = old(out)@ + create_geometry_calls(fresh, *vertices, *indices);
        assert forall|k: int| 0 <= k < want.len() implies out@[k] == want[k] by {
            if k < head.len() {
                assert(out@.take(head.len() as int)[k] == head[k]);
            } else if k < head.len() + n {
                assert(out@[head.len() + (k - head.len())] == want[k]);
            }
        }
    }
}

/// Appends the calls of a geometry refresh to `out`.
pub fn push_update_geometry(
    out: &mut Vec<GlCall>,
    objects: (u32, u32, u32),
    vertices: &VertexBuffer,
    indices: &IndexBuffer,
)
    ensures
        final(out)@ == old(out)@ + update_geometry_calls(objects, *vertices, *indices),
{
    out.push(GlCall::BindVertexArray { vertex_array: objects.0 });
    out.push(GlCall::BindVertexBuffer { buffer: objects.1 });
    out.push(GlCall::VertexSubData { byte_len: vertices.byte_len });
    out.push(GlCall::BindIndexBuffer { buffer: objects.2 });
    out.push(GlCall::IndexSubData { index_count: indices.index_count });
    out.push(GlCall::BindVertexArray { vertex_array: 0 });
}

/// Appends the calls that release a geometry to `out`.
pub fn push_destroy_geometry(out: &mut Vec<GlCall>, objects: (u32, u32, u32))
    ensures
        final(out)@ == old(out)@ + destroy_geometry_calls(objects),
{
    out.push(GlCall::DeleteBuffer { buffer: objects.1 });
    out.push(GlCall::DeleteBuffer { buffer: objects.2 });
    out.push(GlCall::DeleteVertexArray { vertex_array: objects.0 });
}

/// Appends the calls that clear a framebuffer to `out`.
pub fn push_clear(out: &mut Vec<GlCall>, framebuffer: u32)
    ensures
        final(out)@ == old(out)@ + clear_calls(framebuffer),
{
    out.push(GlCall::BindFramebuffer { framebuffer });
    out.push(GlCall::Clear);
    out.push(GlCall::BindFramebuffer { framebuffer: 0 });
}

/// Appends the calls of one draw to `out`.
pub fn push_draw(
    out: &mut Vec<GlCall>,
    draw: usize,
    state: &GpuState,
    program: u32,
    framebuffer: u32,
    textures: (u32, u32, u32),
    vertex_array: u32,
    indices_offset: u32,
    indices_count: u32,
)
    ensures
        final(out)@ == old(out)@ + draw_calls(
            draw,
            *state,
            program,
            framebuffer,
            textures,
            vertex_array,
            indices_offset,
            indices_count,
        ),
{
    out.push(GlCall::BindFramebuffer { framebuffer });
    out.push(GlCall::Viewport { width: state.viewport_width, height: state.viewport_height });
    out.push(GlCall::CheckFramebuffer);
    if state.enable_blend {
        out.push(GlCall::EnableBlend);
    } else {
        out.push(GlCall::DisableBlend);
    }
    if state.enable_scissor {
        let r = state.scissor_rect;
        let right: i64 = r.right as i64;
        let left: i64 = r.left as i64;
        let bottom: i64 = r.bottom as i64;
        let top: i64 = r.top as i64;
        out.push(
            GlCall::EnableScissor { left: r.left, top: r.top, span_x: right - left, span_y: bottom - top },
        );
    } else {
        out.push(GlCall::DisableScissor);
    }
    out.push(GlCall::UseProgram { program });
    out.push(GlCall::BindTextureUnit { unit: 1, texture: textures.0 });
    out.push(GlCall::BindTextureUnit { unit: 2, texture: textures.1 });
    out.push(GlCall::BindTextureUnit { unit: 3, texture: textures.2 });
    out.push(GlCall::SetSampler { unit: 1 });
    out.push(GlCall::SetSampler { unit: 2 });
    out.push(GlCall::SetSampler { unit: 3 });
    out.push(GlCall::BindVertexArray { vertex_array });
    out.push(GlCall::SetTransform { draw });
    out.push(
        GlCall::SetState {
            viewport_width: state.viewport_width,
            viewport_height: state.viewport_height,
        },
    );
    out.push(GlCall::SetClipSize { clip_size: state.clip_size as u32 });
    out.push(GlCall::CreateUniformBuffer { draw, block: UniformBlock::Scalar, slot: 0 });
    out.push(GlCall::CreateUniformBuffer { draw, block: UniformBlock::Vector, slot: 1 });
    out.push(GlCall::CreateUniformBuffer { draw, block: UniformBlock::Clip, slot: 2 });
    out.push(GlCall::BindUniformBlock { block: UniformBlock::Scalar, slot: 0 });
    out.push(GlCall::BindUniformBlock { block: UniformBlock::Vector, slot: 1 });
    out.push(GlCall::BindUniformBlock { block: UniformBlock::Clip, slot: 2 });
    let offset: u64 = indices_offset as u64;
    out.push(GlCall::DrawTriangles { count: indices_count, byte_offset: offset * 4 });
    out.push(GlCall::ReportError);
    out.push(GlCall::UseProgram { program: 0 });
    out.push(GlCall::DestroyUniformBuffer { block: UniformBlock::Scalar });
    out.push(GlCall::DestroyUniformBuffer { block: UniformBlock::Vector });
    out.push(GlCall::DestroyUniformBuffer { block: UniformBlock::Clip });
    out.push(GlCall::BindVertexArray { vertex_array: 0 });
    out.push(GlCall::BindFramebuffer { framebuffer: 0 });
    assert(out@ =~= old(out)@ + draw_calls(
        draw,
        *state,
        program,
        framebuffer,
        textures,
        vertex_array,
        indices_offset,
        indices_count,
    ));
}

} // verus!
