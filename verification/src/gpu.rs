//! The GPU command vocabulary, the registry of native handles, and the
//! executor that turns each command into the graphics calls to issue.
//!
//! The executor never touches the graphics API. It owns the registry, decides
//! what has to be called and in which order, and hands that out as a list of
//! [`GlCall`] values. The thread that owns the graphics context issues them.
//! Pixel, vertex and index payloads and the floating-point uniforms stay with
//! that thread; the types here hold what the decisions read.

use crate::calls::{
    clear_calls, create_geometry_calls, create_render_buffer_calls, create_texture_calls,
    destroy_geometry_calls, draw_calls, program_of, push_clear, push_create_geometry,
    push_create_render_buffer, push_create_texture, push_destroy_geometry, push_draw,
    push_update_geometry, push_update_texture, update_geometry_calls, update_texture_calls,
    FreshHandles, GlCall, Programs,
};
use std::collections::HashMap;
use vstd::prelude::*;
use vstd::std_specs::hash::*;

verus! {

broadcast use vstd::std_specs::hash::group_hash_axioms;

/// Pixel formats a texture can be declared with.
#[derive(Clone, Copy, Debug, PartialEq, Eq, Structural)]
pub enum BitmapFormat {
    /// One 8-bit channel.
    A8Unorm,
    /// Four 8-bit channels, blue first, with non-linear colour encoding.
    Bgra8UnormSrgb,
}

impl BitmapFormat {
    pub open spec fn spec_bytes_per_pixel(&self) -> u32 {
        match self {
            BitmapFormat::A8Unorm => 1u32,
            BitmapFormat::Bgra8UnormSrgb => 4u32,
        }
    }

    #[verifier::when_used_as_spec(spec_bytes_per_pixel)]
    pub fn bytes_per_pixel(&self) -> (r: u32)
        ensures
            r == self.spec_bytes_per_pixel(),
    {
        match self {
            BitmapFormat::A8Unorm => 1,
            BitmapFormat::Bgra8UnormSrgb => 4,
        }
    }
}

/// What the executor reads of a bitmap: its size, format and stride, and
/// whether pixel data comes with it.
#[derive(Clone, Copy, Debug, PartialEq, Eq, Structural)]
pub struct Bitmap {
    pub width: u32,
    pub height: u32,
    pub format: BitmapFormat,
    /// Bytes from the start of one row to the start of the next.
    pub row_bytes: u32,
    pub has_pixels: bool,
}

impl Bitmap {
    /// Pixels per row as stored, which may exceed `width`.
    pub open spec fn spec_row_length(&self) -> u32 {
        (self.row_bytes / self.format.spec_bytes_per_pixel()) as u32
    }

    #[verifier::when_used_as_spec(spec_row_length)]
    pub fn row_length(&self) -> (r: u32)
        ensures
            r == self.spec_row_length(),
    {
        self.row_bytes / self.format.bytes_per_pixel()
    }
}

/// A render target: a framebuffer backed by a texture.
#[derive(Clone, Copy, Debug, PartialEq, Eq, Structural)]
pub struct RenderBuffer {
    pub texture_id: u32,
    pub width: u32,
    pub height: u32,
    pub has_stencil_buffer: bool,
    pub has_depth_buffer: bool,
}

/// The two vertex layouts.
#[derive(Clone, Copy, Debug, PartialEq, Eq, Structural)]
pub enum VertexBufferFormat {
    /// Position (2 floats), colour (4 bytes), texture coordinate (2 floats).
    Format2f4ub2f,
    /// The simple layout followed by an object coordinate (2 floats) and
    /// seven data slots of 4 floats each.
    Format2f4ub2f2f28f,
}

/// What the executor reads of a vertex buffer.
#[derive(Clone, Copy, Debug, PartialEq, Eq, Structural)]
pub struct VertexBuffer {
    pub format: VertexBufferFormat,
    pub byte_len: usize,
}

/// What the executor reads of an index buffer of 32-bit indices.
#[derive(Clone, Copy, Debug, PartialEq, Eq, Structural)]
pub struct IndexBuffer {
    pub index_count: usize,
}

/// Which of the two shader programs a draw uses.
#[derive(Clone, Copy, Debug, PartialEq, Eq, Structural)]
pub enum ShaderType {
    Fill,
    FillPath,
}

/// A scissor rectangle by its edges.
#[derive(Clone, Copy, Debug, PartialEq, Eq, Structural)]
pub struct Rect {
    pub left: i32,
    pub top: i32,
    pub right: i32,
    pub bottom: i32,
}

/// The integer part of the state of one draw call. The transform matrix and
/// the three uniform blocks are floating-point payload and stay with the
/// caller.
#[derive(Clone, Copy, Debug, PartialEq, Eq, Structural)]
pub struct GpuState {
    pub viewport_width: u32,
    pub viewport_height: u32,
    pub enable_blend: bool,
    pub shader_type: ShaderType,
    pub render_buffer_id: u32,
    pub texture_1_id: Option<u32>,
    pub texture_2_id: Option<u32>,
    pub texture_3_id: Option<u32>,
    pub clip_size: u8,
    pub enable_scissor: bool,
    pub scissor_rect: Rect,
}

/// One operation of a draw list.
#[derive(Clone, Copy, Debug, PartialEq, Eq, Structural)]
pub enum GpuCommand {
    ClearRenderBuffer { render_buffer_id: u32 },
    DrawGeometry { gpu_state: GpuState, geometry_id: u32, indices_offset: u32, indices_count: u32 },
}

/// A command on the GPU channel.
#[derive(Clone, Debug, PartialEq, Eq)]
pub enum OpenglCommand {
    CreateTexture(u32, Bitmap),
    UpdateTexture(u32, Bitmap),
    DestroyTexture(u32),
    CreateRenderBuffer(u32, RenderBuffer),
    DestroyRenderBuffer(u32),
    CreateGeometry(u32, VertexBuffer, IndexBuffer),
    UpdateGeometry(u32, VertexBuffer, IndexBuffer),
    DestroyGeometry(u32),
    UpdateCommandList(Vec<GpuCommand>),
}

/// Storage format of a texture on the GPU.
#[derive(Clone, Copy, Debug, PartialEq, Eq, Structural)]
pub enum TextureStorage {
    R8,
    Srgb8Alpha8,
}

/// Channel order of pixel data handed to the GPU, one unsigned byte per
/// channel.
#[derive(Clone, Copy, Debug, PartialEq, Eq, Structural)]
pub enum PixelLayout {
    Red,
    Bgra,
}

/// Component type of a vertex attribute.
#[derive(Clone, Copy, Debug, PartialEq, Eq, Structural)]
pub enum AttributeKind {
    Float,
    UnsignedByte,
}

/// The three uniform blocks of a draw call.
#[derive(Clone, Copy, Debug, PartialEq, Eq, Structural)]
pub enum UniformBlock {
    Scalar,
    Vector,
    Clip,
}

/// One vertex attribute: `components` values of `kind` at byte `offset` of
/// each vertex.
#[derive(Clone, Copy, Debug, PartialEq, Eq, Structural)]
pub struct VertexAttribute {
    pub index: u32,
    pub components: u32,
    pub kind: AttributeKind,
    pub normalized: bool,
    pub stride: u32,
    pub offset: u32,
}

impl AttributeKind {
    pub open spec fn spec_size(&self) -> u32 {
        match self {
            AttributeKind::Float => 4u32,
            AttributeKind::UnsignedByte => 1u32,
        }
    }

    /// Bytes per component.
    #[verifier::when_used_as_spec(spec_size)]
    pub fn size(&self) -> (r: u32)
        ensures
            r == self.spec_size(),
    {
        match self {
            AttributeKind::Float => 4,
            AttributeKind::UnsignedByte => 1,
        }
    }
}

impl VertexAttribute {
    /// Bytes the attribute takes in a vertex.
    pub open spec fn byte_size(&self) -> int {
        self.components * self.kind.spec_size()
    }
}

impl VertexBufferFormat {
    pub open spec fn spec_stride(&self) -> u32 {
        match self {
            VertexBufferFormat::Format2f4ub2f => 20u32,
            VertexBufferFormat::Format2f4ub2f2f28f => 140u32,
        }
    }

    /// Bytes from one vertex to the next.
    #[verifier::when_used_as_spec(spec_stride)]
    pub fn stride(&self) -> (r: u32)
        ensures
            r == self.spec_stride(),
    {
        match self {
            VertexBufferFormat::Format2f4ub2f => 20,
            VertexBufferFormat::Format2f4ub2f2f28f => 140,
        }
    }

    /// The attributes of the layout, in attribute-index order.
    pub open spec fn attributes(&self) -> Seq<VertexAttribute> {
        match self {
            VertexBufferFormat::Format2f4ub2f => seq![
                float_attribute(0, 2, 20, 0),
                color_attribute(20, 8),
                float_attribute(2, 2, 20, 12),
            ],
            VertexBufferFormat::Format2f4ub2f2f28f => Seq::new(11, |i: int| extended_attribute(i)),
        }
    }

    /// The attributes of the layout, each placed right behind the one before
    /// it.
    pub fn vertex_attributes(&self) -> (r: Vec<VertexAttribute>)
        ensures
            r@ == self.attributes(),
    {
        let stride = self.stride();
        let mut out: Vec<VertexAttribute> = Vec::new();
        let mut offset: u32 = 0;
        out.push(make_float_attribute(0, 2, stride, offset));
        offset += 2 * AttributeKind::Float.size();
        out.push(make_color_attribute(stride, offset));
        offset += 4 * AttributeKind::UnsignedByte.size();
        out.push(make_float_attribute(2, 2, stride, offset));
        offset += 2 * AttributeKind::Float.size();
        match self {
            VertexBufferFormat::Format2f4ub2f => {},
            VertexBufferFormat::Format2f4ub2f2f28f => {
                out.push(make_float_attribute(3, 2, stride, offset));
                offset += 2 * AttributeKind::Float.size();
                let mut k: u32 = 0;
                while k < 7
                    invariant
                        k <= 7,
                        stride == 140,
                        offset == 28 + 16 * k,
                        out@.len() == 4 + k,
                        forall|j: int| 0 <= j < 4 + k ==> #[trigger] out@[j] == extended_attribute(j),
                    decreases 7 - k,
                {
                    out.push(make_float_attribute(4 + k, 4, stride, offset));
                    offset += 4 * AttributeKind::Float.size();
                    k += 1;
                }
            },
        }
        out
    }
}

/// Attribute `i` of the extended layout: position, colour, texture
/// coordinate, object coordinate, then the seven data slots.
pub open spec fn extended_attribute(i: int) -> VertexAttribute {
    if i == 0 {
        float_attribute(0, 2, 140, 0)
    } else if i == 1 {
        color_attribute(140, 8)
    } else if i == 2 {
        float_attribute(2, 2, 140, 12)
    } else if i == 3 {
        float_attribute(3, 2, 140, 20)
    } else {
        float_attribute(i as u32, 4, 140, (28 + 16 * (i - 4)) as u32)
    }
}

/// A float attribute with `components` components.
pub open spec fn float_attribute(index: u32, components: u32, stride: u32, offset: u32) -> VertexAttribute {
    VertexAttribute { index, components, kind: AttributeKind::Float, normalized: false, stride, offset }
}

/// The colour attribute: four bytes read as fractions of 255.
pub open spec fn color_attribute(stride: u32, offset: u32) -> VertexAttribute {
    VertexAttribute {
        index: 1,
        components: 4,
        kind: AttributeKind::UnsignedByte,
        normalized: true,
        stride,
        offset,
    }
}

fn make_float_attribute(index: u32, components: u32, stride: u32, offset: u32) -> (r: VertexAttribute)
    ensures
        r == float_attribute(index, components, stride, offset),
{
    VertexAttribute { index, components, kind: AttributeKind::Float, normalized: false, stride, offset }
}

fn make_color_attribute(stride: u32, offset: u32) -> (r: VertexAttribute)
    ensures
        r == color_attribute(stride, offset),
{
    VertexAttribute {
        index: 1,
        components: 4,
        kind: AttributeKind::UnsignedByte,
        normalized: true,
        stride,
        offset,
    }
}

/// The bytes taken by the first `n` attributes of `s`.
pub open spec fn bytes_before(s: Seq<VertexAttribute>, n: int) -> int
    decreases n,
{
    if n <= 0 {
        0
    } else {
        bytes_before(s, n - 1) + s[n - 1].byte_size()
    }
}

/// In both layouts the attributes are numbered in order, every attribute
/// starts where the one before it ends, all carry the layout's stride, and
/// together they fill the stride exactly.
pub proof fn lemma_layout_fills_stride(format: VertexBufferFormat)
    ensures
        forall|i: int|
            0 <= i < format.attributes().len() ==> {
                let a = #[trigger] format.attributes()[i];
                &&& a.index == i
                &&& a.stride == format.spec_stride()
                &&& a.offset == bytes_before(format.attributes(), i)
            },
        bytes_before(format.attributes(), format.attributes().len() as int)
            == format.spec_stride(),
{
    let s = format.attributes();
    reveal_with_fuel(bytes_before, 12);
    match format {
        VertexBufferFormat::Format2f4ub2f => {},
        VertexBufferFormat::Format2f4ub2f2f28f => {
            assert forall|i: int| 0 <= i < 11 implies (#[trigger] s[i]).byte_size() == (if i == 1 {
                4int
            } else if i < 4 {
                8int
            } else {
                16int
            }) by {
                assert(s[i] == extended_attribute(i));
            }
        },
    }
}

/// The registry as a value: for each category the native handles by logical
/// id.
pub struct Registry {
    pub textures: Map<u32, u32>,
    pub render_buffers: Map<u32, u32>,
    /// Vertex array, vertex buffer and index buffer of each geometry.
    pub geometries: Map<u32, (u32, u32, u32)>,
}

/// What a batch of commands comes to: the registry after it, the calls to
/// issue for each command that was executed, and how many were.
pub struct Run {
    pub registry: Registry,
    pub calls: Seq<Seq<GlCall>>,
    pub executed: nat,
}

/// The three categories of resources.
#[derive(Clone, Copy, Debug, PartialEq, Eq, Structural)]
pub enum ResourceKind {
    Texture,
    RenderBuffer,
    Geometry,
}

impl Registry {
    pub open spec fn empty() -> Registry {
        Registry { textures: Map::empty(), render_buffers: Map::empty(), geometries: Map::empty() }
    }

    /// Whether a draw operation refers to a known render target and, for a
    /// draw, a known geometry. Unknown textures are no obstacle: they bind as
    /// no texture.
    pub open spec fn op_known(self, op: GpuCommand) -> bool {
        match op {
            GpuCommand::ClearRenderBuffer { render_buffer_id } => self.render_buffers.contains_key(
                render_buffer_id,
            ),
            GpuCommand::DrawGeometry { gpu_state, geometry_id, .. } => {
                &&& self.render_buffers.contains_key(gpu_state.render_buffer_id)
                &&& self.geometries.contains_key(geometry_id)
            },
        }
    }

    /// Whether a command can execute. It cannot where it destroys an id that
    /// is not registered or creates a render target over an unknown texture:
    /// those are protocol violations of the producer. An update or a draw
    /// that names an unknown id can: it is reported and skipped.
    pub open spec fn admits(self, command: OpenglCommand) -> bool {
        match command {
            OpenglCommand::DestroyTexture(id) => self.textures.contains_key(id),
            OpenglCommand::CreateRenderBuffer(_, render_buffer) => self.textures.contains_key(
                render_buffer.texture_id,
            ),
            OpenglCommand::DestroyRenderBuffer(id) => self.render_buffers.contains_key(id),
            OpenglCommand::DestroyGeometry(id) => self.geometries.contains_key(id),
            _ => true,
        }
    }

    /// The registry after an admitted command.
    pub open spec fn apply(self, command: OpenglCommand, fresh: FreshHandles) -> Registry {
        match command {
            OpenglCommand::CreateTexture(id, _) => Registry {
                textures: self.textures.insert(id, fresh.first),
                ..self
            },
            OpenglCommand::DestroyTexture(id) => Registry {
                textures: self.textures.remove(id),
                ..self
            },
            OpenglCommand::CreateRenderBuffer(id, _) => Registry {
                render_buffers: self.render_buffers.insert(id, fresh.first),
                ..self
            },
            OpenglCommand::DestroyRenderBuffer(id) => Registry {
                render_buffers: self.render_buffers.remove(id),
                ..self
            },
            OpenglCommand::CreateGeometry(id, _, _) => Registry {
                geometries: self.geometries.insert(id, (fresh.first, fresh.second, fresh.third)),
                ..self
            },
            OpenglCommand::DestroyGeometry(id) => Registry {
                geometries: self.geometries.remove(id),
                ..self
            },
            _ => self,
        }
    }

    /// The native texture bound for a texture slot of a draw: none for an
    /// empty slot or an unknown id.
    pub open spec fn texture_or_none(self, id: Option<u32>) -> u32 {
        match id {
            Some(id) => if self.textures.contains_key(id) {
                self.textures[id]
            } else {
                0
            },
            None => 0,
        }
    }

    /// The calls of operation `draw` of a draw list. An operation on an
    /// unknown render target, or else from an unknown geometry, is reported
    /// and calls nothing else.
    pub open spec fn op_calls(self, programs: Programs, draw: usize, op: GpuCommand) -> Seq<GlCall> {
        match op {
            GpuCommand::ClearRenderBuffer { render_buffer_id } => if self.render_buffers.contains_key(
                render_buffer_id,
            ) {
                clear_calls(self.render_buffers[render_buffer_id])
            } else {
                unknown(ResourceKind::RenderBuffer, render_buffer_id)
            },
            GpuCommand::DrawGeometry {
                gpu_state,
                geometry_id,
                indices_offset,
                indices_count,
            } => if !self.render_buffers.contains_key(gpu_state.render_buffer_id) {
                unknown(ResourceKind::RenderBuffer, gpu_state.render_buffer_id)
            } else if !self.geometries.contains_key(geometry_id) {
                unknown(ResourceKind::Geometry, geometry_id)
            } else {
                draw_calls(
                    draw,
                    gpu_state,
                    program_of(programs, gpu_state.shader_type),
                    self.render_buffers[gpu_state.render_buffer_id],
                    (
                        self.texture_or_none(gpu_state.texture_1_id),
                        self.texture_or_none(gpu_state.texture_2_id),
                        self.texture_or_none(gpu_state.texture_3_id),
                    ),
                    self.geometries[geometry_id].0,
                    indices_offset,
                    indices_count,
                )
            },
        }
    }

    /// The calls of a draw list: those of its operations, in order.
    pub open spec fn list_calls(self, programs: Programs, ops: Seq<GpuCommand>) -> Seq<GlCall>
        decreases ops.len(),
    {
        if ops.len() == 0 {
            Seq::empty()
        } else {
            self.list_calls(programs, ops.drop_last()) + self.op_calls(
                programs,
                (ops.len() - 1) as usize,
                ops.last(),
            )
        }
    }

    /// The calls of an admitted command. An update of an id that is not
    /// registered is reported and calls nothing else.
    pub open spec fn calls(self, programs: Programs, command: OpenglCommand, fresh: FreshHandles) -> Seq<
        GlCall,
    > {
        match command {
            OpenglCommand::CreateTexture(_, bitmap) => create_texture_calls(fresh.first, bitmap),
            OpenglCommand::UpdateTexture(id, bitmap) => if self.textures.contains_key(id) {
                update_texture_calls(self.textures[id], bitmap)
            } else {
                unknown(ResourceKind::Texture, id)
            },
            OpenglCommand::DestroyTexture(id) => seq![GlCall::DeleteTexture { texture: self.textures[id] }],
            OpenglCommand::CreateRenderBuffer(_, render_buffer) => create_render_buffer_calls(
                fresh.first,
                self.textures[render_buffer.texture_id],
            ),
            OpenglCommand::DestroyRenderBuffer(id) => seq![
                GlCall::DeleteFramebuffer { framebuffer: self.render_buffers[id] },
            ],
            OpenglCommand::CreateGeometry(_, vertices, indices) => create_geometry_calls(
                fresh,
                vertices,
                indices,
            ),
            OpenglCommand::UpdateGeometry(id, vertices, indices) => if self.geometries.contains_key(id) {
                update_geometry_calls(self.geometries[id], vertices, indices)
            } else {
                unknown(ResourceKind::Geometry, id)
            },
            OpenglCommand::DestroyGeometry(id) => destroy_geometry_calls(self.geometries[id]),
            OpenglCommand::UpdateCommandList(ops) => self.list_calls(programs, ops@),
        }
    }

    /// Executes commands in order up to the first that is not admitted.
    pub open spec fn run(
        self,
        programs: Programs,
        commands: Seq<OpenglCommand>,
        fresh: Seq<FreshHandles>,
    ) -> Run
        decreases commands.len(),
    {
        if commands.len() == 0 || !self.admits(commands[0]) {
            Run { registry: self, calls: Seq::empty(), executed: 0 }
        } else {
            let rest = self.apply(commands[0], fresh[0]).run(programs, commands.skip(1), fresh.skip(1));
            Run {
                registry: rest.registry,
                calls: seq![self.calls(programs, commands[0], fresh[0])] + rest.calls,
                executed: rest.executed + 1,
            }
        }
    }

    /// The number of entries of a category.
    pub open spec fn count(self, kind: ResourceKind) -> nat {
        match kind {
            ResourceKind::Texture => self.textures.len(),
            ResourceKind::RenderBuffer => self.render_buffers.len(),
            ResourceKind::Geometry => self.geometries.len(),
        }
    }

    pub open spec fn finite(self) -> bool {
        &&& self.textures.dom().finite()
        &&& self.render_buffers.dom().finite()
        &&& self.geometries.dom().finite()
    }

    /// Whether a command, if it creates a resource, gives it an id that is
    /// not in use.
    pub open spec fn unused_id(self, command: OpenglCommand) -> bool {
        match command {
            OpenglCommand::CreateTexture(id, _) => !self.textures.contains_key(id),
            OpenglCommand::CreateRenderBuffer(id, _) => !self.render_buffers.contains_key(id),
            OpenglCommand::CreateGeometry(id, _, _) => !self.geometries.contains_key(id),
            _ => true,
        }
    }

    /// Whether every command of a batch is admitted when its turn comes and
    /// creates only under an id that is not in use at that moment.
    pub open spec fn valid_ids(self, commands: Seq<OpenglCommand>, fresh: Seq<FreshHandles>) -> bool
        decreases commands.len(),
    {
        commands.len() == 0 || {
            &&& self.admits(commands[0])
            &&& self.unused_id(commands[0])
            &&& self.apply(commands[0], fresh[0]).valid_ids(commands.skip(1), fresh.skip(1))
        }
    }
}

/// The report of an id that is not registered.
pub open spec fn unknown(kind: ResourceKind, id: u32) -> Seq<GlCall> {
    seq![GlCall::ReportUnknown { kind, id }]
}

/// Whether a command creates a resource of that category.
pub open spec fn is_create(command: OpenglCommand, kind: ResourceKind) -> bool {
    match (command, kind) {
        (OpenglCommand::CreateTexture(_, _), ResourceKind::Texture) => true,
        (OpenglCommand::CreateRenderBuffer(_, _), ResourceKind::RenderBuffer) => true,
        (OpenglCommand::CreateGeometry(_, _, _), ResourceKind::Geometry) => true,
        _ => false,
    }
}

/// Whether a command destroys a resource of that category.
pub open spec fn is_destroy(command: OpenglCommand, kind: ResourceKind) -> bool {
    match (command, kind) {
        (OpenglCommand::DestroyTexture(_), ResourceKind::Texture) => true,
        (OpenglCommand::DestroyRenderBuffer(_), ResourceKind::RenderBuffer) => true,
        (OpenglCommand::DestroyGeometry(_), ResourceKind::Geometry) => true,
        _ => false,
    }
}

/// How many commands of a batch create a resource of that category.
pub open spec fn creates(commands: Seq<OpenglCommand>, kind: ResourceKind) -> nat
    decreases commands.len(),
{
    if commands.len() == 0 {
        0
    } else {
        creates(commands.skip(1), kind) + if is_create(commands[0], kind) {
            1nat
        } else {
            0nat
        }
    }
}

/// How many commands of a batch destroy a resource of that category.
pub open spec fn destroys(commands: Seq<OpenglCommand>, kind: ResourceKind) -> nat
    decreases commands.len(),
{
    if commands.len() == 0 {
        0
    } else {
        destroys(commands.skip(1), kind) + if is_destroy(commands[0], kind) {
            1nat
        } else {
            0nat
        }
    }
}

/// However creates, updates and destroys are interleaved, as long as every
/// create uses an unused id and every command is admitted, the whole batch is
/// executed and each category ends with as many entries as it had, plus its
/// creates, minus its destroys.
pub proof fn lemma_registry_count(
    registry: Registry,
    programs: Programs,
    commands: Seq<OpenglCommand>,
    fresh: Seq<FreshHandles>,
    kind: ResourceKind,
)
    requires
        registry.finite(),
        fresh.len() == commands.len(),
        registry.valid_ids(commands, fresh),
    ensures
        registry.run(programs, commands, fresh).executed == commands.len(),
        registry.run(programs, commands, fresh).registry.finite(),
        registry.run(programs, commands, fresh).registry.count(kind) == registry.count(kind)
            + creates(commands, kind) - destroys(commands, kind),
    decreases commands.len(),
{
    if commands.len() > 0 {
        let next = registry.apply(commands[0], fresh[0]);
        assert(next.count(kind) == registry.count(kind) + (if is_create(commands[0], kind) {
            1int
        } else {
            0int
        }) - (if is_destroy(commands[0], kind) {
            1int
        } else {
            0int
        }));
        lemma_registry_count(next, programs, commands.skip(1), fresh.skip(1), kind);
    }
}

/// Whether none of the calls is the report of an unknown id.
pub open spec fn nothing_unknown(calls: Seq<GlCall>) -> bool {
    forall|k: int| 0 <= k < calls.len() ==> !(#[trigger] calls[k] is ReportUnknown)
}

/// A draw list is always admitted and leaves the registry as it is. Where it
/// refers only to registered render targets and geometries, whatever texture
/// ids it names, every one of its operations is executed: none is reported as
/// unknown and skipped.
pub proof fn lemma_draw_list_executes(registry: Registry, programs: Programs, ops: Seq<GpuCommand>)
    requires
        forall|i: int| 0 <= i < ops.len() ==> registry.op_known(#[trigger] ops[i]),
    ensures
        nothing_unknown(registry.list_calls(programs, ops)),
        forall|list: Vec<GpuCommand>, fresh: FreshHandles|
            list@ == ops ==> {
                &&& #[trigger] registry.admits(OpenglCommand::UpdateCommandList(list))
                &&& #[trigger] registry.apply(OpenglCommand::UpdateCommandList(list), fresh) == registry
                &&& registry.calls(programs, OpenglCommand::UpdateCommandList(list), fresh)
                    == registry.list_calls(programs, ops)
            },
    decreases ops.len(),
{
    if ops.len() > 0 {
        let head = ops.drop_last();
        assert forall|i: int| 0 <= i < head.len() implies registry.op_known(#[trigger] head[i]) by {}
        lemma_draw_list_executes(registry, programs, head);
    }
}

/// An update is admitted whether or not its id is registered, and leaves all
/// three categories as they are. On a registered id it uploads into the
/// handles registered; on an unknown one it only reports.
pub proof fn lemma_update_keeps_registry(
    registry: Registry,
    programs: Programs,
    command: OpenglCommand,
    fresh: FreshHandles,
)
    requires
        command is UpdateTexture || command is UpdateGeometry,
    ensures
        registry.admits(command),
        registry.apply(command, fresh) == registry,
        match command {
            OpenglCommand::UpdateTexture(id, bitmap) => registry.calls(programs, command, fresh) == (
            if registry.textures.contains_key(id) {
                update_texture_calls(registry.textures[id], bitmap)
            } else {
                unknown(ResourceKind::Texture, id)
            }),
            OpenglCommand::UpdateGeometry(id, vertices, indices) => registry.calls(
                programs,
                command,
                fresh,
            ) == (if registry.geometries.contains_key(id) {
                update_geometry_calls(registry.geometries[id], vertices, indices)
            } else {
                unknown(ResourceKind::Geometry, id)
            }),
            _ => true,
        },
{
}

/// Destroying a registered geometry removes that entry and no other, leaves
/// textures and render targets alone, and releases its two buffers and its
/// vertex array, each once.
pub proof fn lemma_destroy_geometry(registry: Registry, programs: Programs, id: u32, fresh: FreshHandles)
    requires
        registry.finite(),
        registry.geometries.contains_key(id),
    ensures
        ({
            let command = OpenglCommand::DestroyGeometry(id);
            let after = registry.apply(command, fresh);
            let objects = registry.geometries[id];
            &&& registry.admits(command)
            &&& !after.geometries.contains_key(id)
            &&& after.geometries.len() == registry.geometries.len() - 1
            &&& forall|other: u32|
                other != id ==> after.geometries.contains_key(other) == registry.geometries.contains_key(
                    other,
                ) && after.geometries[other] == registry.geometries[other]
            &&& after.textures == registry.textures
            &&& after.render_buffers == registry.render_buffers
            &&& registry.calls(programs, command, fresh) == seq![
                GlCall::DeleteBuffer { buffer: objects.1 },
                GlCall::DeleteBuffer { buffer: objects.2 },
                GlCall::DeleteVertexArray { vertex_array: objects.0 },
            ]
        }),
{
}

/// How many of the first `n` calls are an indexed draw.
pub open spec fn draws_before(calls: Seq<GlCall>, n: int) -> nat
    decreases n,
{
    if n <= 0 {
        0
    } else {
        draws_before(calls, n - 1) + if calls[n - 1] is DrawTriangles {
            1nat
        } else {
            0nat
        }
    }
}

/// A draw on a registered render target from a registered geometry issues
/// exactly one indexed draw, with the registered framebuffer bound first and
/// the registered vertex array bound before the draw, and resets both
/// bindings at the end.
pub proof fn lemma_draw_on_known_ids(
    registry: Registry,
    programs: Programs,
    draw: usize,
    gpu_state: GpuState,
    geometry_id: u32,
    indices_offset: u32,
    indices_count: u32,
)
    requires
        registry.render_buffers.contains_key(gpu_state.render_buffer_id),
        registry.geometries.contains_key(geometry_id),
    ensures
        ({
            let calls = registry.op_calls(
                programs,
                draw,
                GpuCommand::DrawGeometry { gpu_state, geometry_id, indices_offset, indices_count },
            );
            &&& calls.len() == 30
            &&& draws_before(calls, 30) == 1
            &&& calls[0] == GlCall::BindFramebuffer {
                framebuffer: registry.render_buffers[gpu_state.render_buffer_id],
            }
            &&& calls[12] == GlCall::BindVertexArray { vertex_array: registry.geometries[geometry_id].0 }
            &&& calls[22] == GlCall::DrawTriangles {
                count: indices_count,
                byte_offset: (indices_offset * 4) as u64,
            }
            &&& calls[28] == GlCall::BindVertexArray { vertex_array: 0 }
            &&& calls[29] == GlCall::BindFramebuffer { framebuffer: 0 }
        }),
{
    reveal_with_fuel(draws_before, 31);
}

/// A clear on a registered render target binds its framebuffer, clears
/// colour and depth, and resets the binding.
pub proof fn lemma_clear_on_known_target(registry: Registry, programs: Programs, draw: usize, id: u32)
    requires
        registry.render_buffers.contains_key(id),
    ensures
        registry.op_calls(programs, draw, GpuCommand::ClearRenderBuffer { render_buffer_id: id }) == seq![
            GlCall::BindFramebuffer { framebuffer: registry.render_buffers[id] },
            GlCall::Clear,
            GlCall::BindFramebuffer { framebuffer: 0 },
        ],
{
}

/// The producer's end of the GPU channel: it numbers the resources and words
/// the commands. Each method that words a command returns it; the caller puts
/// it on the channel.
pub struct OpenglCommandSender {
    next_texture_id: u32,
    next_render_buffer_id: u32,
    next_geometry_id: u32,
}

impl OpenglCommandSender {
    /// The last id handed out for a category; `0` when none was.
    pub closed spec fn last_id(&self, kind: ResourceKind) -> u32 {
        match kind {
            ResourceKind::Texture => self.next_texture_id,
            ResourceKind::RenderBuffer => self.next_render_buffer_id,
            ResourceKind::Geometry => self.next_geometry_id,
        }
    }

    pub fn new() -> (r: Self)
        ensures
            forall|kind: ResourceKind| r.last_id(kind) == 0,
    {
        OpenglCommandSender { next_texture_id: 0, next_render_buffer_id: 0, next_geometry_id: 0 }
    }

    /// Whether another id of that category can be handed out.
    pub fn has_next_id(&self, kind: ResourceKind) -> (r: bool)
        ensures
            r == (self.last_id(kind) < u32::MAX),
    {
        match kind {
            ResourceKind::Texture => self.next_texture_id < u32::MAX,
            ResourceKind::RenderBuffer => self.next_render_buffer_id < u32::MAX,
            ResourceKind::Geometry => self.next_geometry_id < u32::MAX,
        }
    }

    pub fn begin_synchronize(&mut self)
        ensures
            *final(self) == *old(self),
    {
    }

    pub fn end_synchronize(&mut self)
        ensures
            *final(self) == *old(self),
    {
    }

    /// Hands out the next texture id: one more than the last.
    pub fn next_texture_id(&mut self) -> (r: u32)
        requires
            old(self).last_id(ResourceKind::Texture) < u32::MAX,
        ensures
            r == old(self).last_id(ResourceKind::Texture) + 1,
            final(self).last_id(ResourceKind::Texture) == r,
            final(self).last_id(ResourceKind::RenderBuffer) == old(self).last_id(
                ResourceKind::RenderBuffer,
            ),
            final(self).last_id(ResourceKind::Geometry) == old(self).last_id(ResourceKind::Geometry),
    {
        self.next_texture_id += 1;
        self.next_texture_id
    }

    pub fn create_texture(&mut self, texture_id: u32, bitmap: Bitmap) -> (r: OpenglCommand)
        ensures
            r == OpenglCommand::CreateTexture(texture_id, bitmap),
            *final(self) == *old(self),
    {
        OpenglCommand::CreateTexture(texture_id, bitmap)
    }

    pub fn update_texture(&mut self, texture_id: u32, bitmap: Bitmap) -> (r: OpenglCommand)
        ensures
            r == OpenglCommand::UpdateTexture(texture_id, bitmap),
            *final(self) == *old(self),
    {
        OpenglCommand::UpdateTexture(texture_id, bitmap)
    }

    pub fn destroy_texture(&mut self, texture_id: u32) -> (r: OpenglCommand)
        ensures
            r == OpenglCommand::DestroyTexture(texture_id),
            *final(self) == *old(self),
    {
        OpenglCommand::DestroyTexture(texture_id)
    }

    /// Hands out the next render-target id: one more than the last.
    pub fn next_render_buffer_id(&mut self) -> (r: u32)
        requires
            old(self).last_id(ResourceKind::RenderBuffer) < u32::MAX,
        ensures
            r == old(self).last_id(ResourceKind::RenderBuffer) + 1,
            final(self).last_id(ResourceKind::RenderBuffer) == r,
            final(self).last_id(ResourceKind::Texture) == old(self).last_id(ResourceKind::Texture),
            final(self).last_id(ResourceKind::Geometry) == old(self).last_id(ResourceKind::Geometry),
    {
        self.next_render_buffer_id += 1;
        self.next_render_buffer_id
    }

    pub fn create_render_buffer(&mut self, render_buffer_id: u32, render_buffer: RenderBuffer) -> (r:
        OpenglCommand)
        ensures
            r == OpenglCommand::CreateRenderBuffer(render_buffer_id, render_buffer),
            *final(self) == *old(self),
    {
        OpenglCommand::CreateRenderBuffer(render_buffer_id, render_buffer)
    }

    pub fn destroy_render_buffer(&mut self, render_buffer_id: u32) -> (r: OpenglCommand)
        ensures
            r == OpenglCommand::DestroyRenderBuffer(render_buffer_id),
            *final(self) == *old(self),
    {
        OpenglCommand::DestroyRenderBuffer(render_buffer_id)
    }

    /// Hands out the next geometry id: one more than the last.
    pub fn next_geometry_id(&mut self) -> (r: u32)
        requires
            old(self).last_id(ResourceKind::Geometry) < u32::MAX,
        ensures
            r == old(self).last_id(ResourceKind::Geometry) + 1,
            final(self).last_id(ResourceKind::Geometry) == r,
            final(self).last_id(ResourceKind::Texture) == old(self).last_id(ResourceKind::Texture),
            final(self).last_id(ResourceKind::RenderBuffer) == old(self).last_id(
                ResourceKind::RenderBuffer,
            ),
    {
        self.next_geometry_id += 1;
        self.next_geometry_id
    }

    pub fn create_geometry(
        &mut self,
        geometry_id: u32,
        vertex_buffer: VertexBuffer,
        index_buffer: IndexBuffer,
    ) -> (r: OpenglCommand)
        ensures
            r == OpenglCommand::CreateGeometry(geometry_id, vertex_buffer, index_buffer),
            *final(self) == *old(self),
    {
        OpenglCommand::CreateGeometry(geometry_id, vertex_buffer, index_buffer)
    }

    pub fn update_geometry(
        &mut self,
        geometry_id: u32,
        vertex_buffer: VertexBuffer,
        index_buffer: IndexBuffer,
    ) -> (r: OpenglCommand)
        ensures
            r == OpenglCommand::UpdateGeometry(geometry_id, vertex_buffer, index_buffer),
            *final(self) == *old(self),
    {
        OpenglCommand::UpdateGeometry(geometry_id, vertex_buffer, index_buffer)
    }

    pub fn destroy_geometry(&mut self, geometry_id: u32) -> (r: OpenglCommand)
        ensures
            r == OpenglCommand::DestroyGeometry(geometry_id),
            *final(self) == *old(self),
    {
        OpenglCommand::DestroyGeometry(geometry_id)
    }

    pub fn update_command_list(&mut self, command_list: Vec<GpuCommand>) -> (r: OpenglCommand)
        ensures
            r == OpenglCommand::UpdateCommandList(command_list),
            *final(self) == *old(self),
    {
        OpenglCommand::UpdateCommandList(command_list)
    }
}

/// The consumer's end of the GPU channel: the registry of native handles and
/// the two shader programs. It is owned by the thread that owns the graphics
/// context.
pub struct OpenglCommandReceiver {
    textures: HashMap<u32, u32>,
    render_buffers: HashMap<u32, u32>,
    geometries: HashMap<u32, (u32, u32, u32)>,
    path_program: u32,
    fill_program: u32,
}

impl OpenglCommandReceiver {
    /// The registry held.
    pub closed spec fn registry(&self) -> Registry {
        Registry {
            textures: self.textures@,
            render_buffers: self.render_buffers@,
            geometries: self.geometries@,
        }
    }

    /// The shader programs held.
    pub closed spec fn programs(&self) -> Programs {
        Programs { path_program: self.path_program, fill_program: self.fill_program }
    }

    /// A receiver with an empty registry over the two linked programs.
    pub fn new(path_program: u32, fill_program: u32) -> (r: Self)
        ensures
            r.registry() == Registry::empty(),
            r.programs() == (Programs { path_program, fill_program }),
    {
        OpenglCommandReceiver {
            textures: HashMap::new(),
            render_buffers: HashMap::new(),
            geometries: HashMap::new(),
            path_program,
            fill_program,
        }
    }

    pub fn get_texture_handle(&self, texture_id: u32) -> (r: Option<u32>)
        ensures
            r == if self.registry().textures.contains_key(texture_id) {
                Some(self.registry().textures[texture_id])
            } else {
                None
            },
    {
        match self.textures.get(&texture_id) {
            Some(handle) => Some(*handle),
            None => None,
        }
    }

    /// The number of entries of a category.
    pub fn count(&self, kind: ResourceKind) -> (r: usize)
        ensures
            r == self.registry().count(kind),
            self.registry().finite(),
    {
        match kind {
            ResourceKind::Texture => self.textures.len(),
            ResourceKind::RenderBuffer => self.render_buffers.len(),
            ResourceKind::Geometry => self.geometries.len(),
        }
    }

    /// Whether the command can execute against the registry as it is.
    pub fn admits(&self, command: &OpenglCommand) -> (r: bool)
        ensures
            r == self.registry().admits(*command),
    {
        match command {
            OpenglCommand::DestroyTexture(id) => self.textures.contains_key(id),
            OpenglCommand::CreateRenderBuffer(_, render_buffer) => self.textures.contains_key(
                &render_buffer.texture_id,
            ),
            OpenglCommand::DestroyRenderBuffer(id) => self.render_buffers.contains_key(id),
            OpenglCommand::DestroyGeometry(id) => self.geometries.contains_key(id),
            _ => true,
        }
    }

    /// Executes one command: brings the registry up to date and returns the
    /// calls to issue, in order. `fresh` holds the native objects reserved for
    /// what the command creates.
    pub fn execute(&mut self, command: &OpenglCommand, fresh: FreshHandles) -> (r: Vec<GlCall>)
        requires
            old(self).registry().admits(*command),
        ensures
            final(self).registry() == old(self).registry().apply(*command, fresh),
            final(self).programs() == old(self).programs(),
            r@ == old(self).registry().calls(old(self).programs(), *command, fresh),
    {
        let mut out: Vec<GlCall> = Vec::new();
        self.dispatch(&mut out, command, fresh);
        out
    }

    /// Executes a batch in order, up to the first command that is not
    /// admitted. Returns the calls to issue, command by command, and the
    /// number of commands executed; where that is less than the batch, the
    /// command at that position violates the protocol.
    pub fn render(&mut self, commands: &Vec<OpenglCommand>, fresh: &Vec<FreshHandles>) -> (r: (
        Vec<Vec<GlCall>>,
        usize,
    ))
        requires
            fresh@.len() == commands@.len(),
        ensures
            ({
                let run = old(self).registry().run(old(self).programs(), commands@, fresh@);
                &&& final(self).registry() == run.registry
                &&& r.0@.len() == run.calls.len()
                &&& forall|k: int| 0 <= k < r.0@.len() ==> (#[trigger] r.0@[k])@ == run.calls[k]
                &&& r.1 == run.executed
                &&& r.1 == r.0@.len()
            }),
            final(self).programs() == old(self).programs(),
    {
        let mut out: Vec<Vec<GlCall>> = Vec::new();
        let n = commands.len();
        let mut i: usize = 0;
        let ghost start = self.registry();
        let ghost programs = self.programs();
        let ghost done = Seq::<Seq<GlCall>>::empty();
        proof {
            assert(commands@.skip(0) =~= commands@);
            assert(fresh@.skip(0) =~= fresh@);
        }
        while i < n
            invariant
                i <= n,
                start == old(self).registry(),
                programs == old(self).programs(),
                n == commands@.len(),
                n == fresh@.len(),
                self.programs() == programs,
                out@.len() == i,
                done.len() == i,
                forall|k: int| 0 <= k < i ==> (#[trigger] out@[k])@ == done[k],
                ({
                    let rest = self.registry().run(programs, commands@.skip(i as int), fresh@.skip(i as int));
                    let run = start.run(programs, commands@, fresh@);
                    &&& run.registry == rest.registry
                    &&& run.calls == done + rest.calls
                    &&& run.executed == i + rest.executed
                }),
            decreases n - i,
        {
            let ghost here = self.registry();
            proof {
                assert(commands@.skip(i as int).skip(1) =~= commands@.skip(i + 1));
                assert(fresh@.skip(i as int).skip(1) =~= fresh@.skip(i + 1));
            }
            if !self.admits(&commands[i]) {
                return (out, i);
            }
            let calls = self.execute(&commands[i], fresh[i]);
            proof {
                done = done.push(here.calls(programs, commands@[i as int], fresh@[i as int]));
            }
            out.push(calls);
            i += 1;
        }
        (out, n)
    }

    fn dispatch(&mut self, out: &mut Vec<GlCall>, command: &OpenglCommand, fresh: FreshHandles)
        requires
            old(self).registry().admits(*command),
        ensures
            final(self).registry() == old(self).registry().apply(*command, fresh),
            final(self).programs() == old(self).programs(),
            final(out)@ == old(out)@ + old(self).registry().calls(old(self).programs(), *command, fresh),
    {
        match command {
            OpenglCommand::CreateTexture(id, bitmap) => self.create_texture(out, *id, bitmap, fresh.first),
            OpenglCommand::UpdateTexture(id, bitmap) => self.update_texture(out, *id, bitmap),
            OpenglCommand::DestroyTexture(id) => self.destroy_texture(out, *id),
            OpenglCommand::CreateRenderBuffer(id, buffer) => self.create_render_buffer(
                out,
                *id,
                buffer,
                fresh.first,
            ),
            OpenglCommand::DestroyRenderBuffer(id) => self.destroy_render_buffer(out, *id),
            OpenglCommand::CreateGeometry(id, vertex_buffer, index_buffer) => self.create_geometry(
                out,
                *id,
                vertex_buffer,
                index_buffer,
                fresh,
            ),
            OpenglCommand::UpdateGeometry(id, vertex_buffer, index_buffer) => self.update_geometry(
                out,
                *id,
                vertex_buffer,
                index_buffer,
            ),
            OpenglCommand::DestroyGeometry(id) => self.destroy_geometry(out, *id),
            OpenglCommand::UpdateCommandList(commands) => self.update_command_list(out, commands),
        }
    }

    /// Registers the texture under the handle reserved for it and appends
    /// the calls that allocate it to `out`.
    pub fn create_texture(&mut self, out: &mut Vec<GlCall>, texture_id: u32, bitmap: &Bitmap, handle: u32)
        ensures
            final(self).registry() == (Registry {
                textures: old(self).registry().textures.insert(texture_id, handle),
                ..old(self).registry()
            }),
            final(self).programs() == old(self).programs(),
            final(out)@ == old(out)@ + create_texture_calls(handle, *bitmap),
    {
        push_create_texture(out, handle, bitmap);
        self.textures.insert(texture_id, handle);
    }

    /// Appends the calls that refresh a registered texture to `out`, or the
    /// report of an unknown id. The registry stays as it is: an update never
    /// adds, removes or re-maps an entry.
    pub fn update_texture(&mut self, out: &mut Vec<GlCall>, texture_id: u32, bitmap: &Bitmap)
        ensures
            *final(self) == *old(self),
            final(self).registry() == old(self).registry(),
            final(out)@ == old(out)@ + (if old(self).registry().textures.contains_key(texture_id) {
                update_texture_calls(old(self).registry().textures[texture_id], *bitmap)
            } else {
                unknown(ResourceKind::Texture, texture_id)
            }),
    {
        if let Some(handle) = self.get_texture_handle(texture_id) {
            push_update_texture(out, handle, bitmap);
        } else {
            push_unknown(out, ResourceKind::Texture, texture_id);
        }
    }

    /// Removes a registered texture and appends the call that releases its
    /// handle to `out`.
    pub fn destroy_texture(&mut self, out: &mut Vec<GlCall>, texture_id: u32)
        requires
            old(self).registry().textures.contains_key(texture_id),
        ensures
            final(self).registry() == (Registry {
                textures: old(self).registry().textures.remove(texture_id),
                ..old(self).registry()
            }),
            final(self).programs() == old(self).programs(),
            final(out)@ == old(out)@ + seq![
                GlCall::DeleteTexture { texture: old(self).registry().textures[texture_id] },
            ],
    {
        if let Some(handle) = self.textures.remove(&texture_id) {
            out.push(GlCall::DeleteTexture { texture: handle });
        }
    }

    /// Registers the render target under the framebuffer reserved for it and
    /// appends the calls that set it up over its texture to `out`.
    pub fn create_render_buffer(
        &mut self,
        out: &mut Vec<GlCall>,
        render_buffer_id: u32,
        render_buffer: &RenderBuffer,
        framebuffer: u32,
    )
        requires
            old(self).registry().textures.contains_key(render_buffer.texture_id),
        ensures
            final(self).registry() == (Registry {
                render_buffers: old(self).registry().render_buffers.insert(render_buffer_id, framebuffer),
                ..old(self).registry()
            }),
            final(self).programs() == old(self).programs(),
            final(out)@ == old(out)@ + create_render_buffer_calls(
                framebuffer,
                old(self).registry().textures[render_buffer.texture_id],
            ),
    {
        if let Some(texture) = self.get_texture_handle(render_buffer.texture_id) {
            push_create_render_buffer(out, framebuffer, texture);
            self.render_buffers.insert(render_buffer_id, framebuffer);
        }
    }

    /// Removes a registered render target and appends the call that releases
    /// its framebuffer to `out`.
    pub fn destroy_render_buffer(&mut self, out: &mut Vec<GlCall>, render_buffer_id: u32)
        requires
            old(self).registry().render_buffers.contains_key(render_buffer_id),
        ensures
            final(self).registry() == (Registry {
                render_buffers: old(self).registry().render_buffers.remove(render_buffer_id),
                ..old(self).registry()
            }),
            final(self).programs() == old(self).programs(),
            final(out)@ == old(out)@ + seq![
                GlCall::DeleteFramebuffer {
                    framebuffer: old(self).registry().render_buffers[render_buffer_id],
                },
            ],
    {
        if let Some(handle) = self.render_buffers.remove(&render_buffer_id) {
            out.push(GlCall::DeleteFramebuffer { framebuffer: handle });
        }
    }

    /// Registers the geometry under the three objects reserved for it and
    /// appends the calls that upload it to `out`.
    pub fn create_geometry(
        &mut self,
        out: &mut Vec<GlCall>,
        geometry_id: u32,
        vertex_buffer: &VertexBuffer,
        index_buffer: &IndexBuffer,
        fresh: FreshHandles,
    )
        ensures
            final(self).registry() == (Registry {
                geometries: old(self).registry().geometries.insert(
                    geometry_id,
                    (fresh.first, fresh.second, fresh.third),
                ),
                ..old(self).registry()
            }),
            final(self).programs() == old(self).programs(),
            final(out)@ == old(out)@ + create_geometry_calls(fresh, *vertex_buffer, *index_buffer),
    {
        push_create_geometry(out, fresh, vertex_buffer, index_buffer);
        self.geometries.insert(geometry_id, (fresh.first, fresh.second, fresh.third));
    }

    /// Appends the calls that upload into the objects of a registered
    /// geometry to `out`, or the report of an unknown id. The registry stays
    /// as it is: no handle is registered or dropped.
    pub fn update_geometry(
        &mut self,
        out: &mut Vec<GlCall>,
        geometry_id: u32,
        vertex_buffer: &VertexBuffer,
        index_buffer: &IndexBuffer,
    )
        ensures
            *final(self) == *old(self),
            final(self).registry() == old(self).registry(),
            final(out)@ == old(out)@ + (if old(self).registry().geometries.contains_key(geometry_id) {
                update_geometry_calls(
                    old(self).registry().geometries[geometry_id],
                    *vertex_buffer,
                    *index_buffer,
                )
            } else {
                unknown(ResourceKind::Geometry, geometry_id)
            }),
    {
        match self.geometries.get(&geometry_id) {
            Some(objects) => {
                push_update_geometry(out, *objects, vertex_buffer, index_buffer);
            },
            None => {
                push_unknown(out, ResourceKind::Geometry, geometry_id);
            },
        }
    }

    /// Removes a registered geometry and appends the calls that release its
    /// two buffers and its vertex array, each once, to `out`. Every other
    /// entry stays, and the geometries are one fewer.
    pub fn destroy_geometry(&mut self, out: &mut Vec<GlCall>, geometry_id: u32)
        requires
            old(self).registry().geometries.contains_key(geometry_id),
        ensures
            final(self).registry() == (Registry {
                geometries: old(self).registry().geometries.remove(geometry_id),
                ..old(self).registry()
            }),
            !final(self).registry().geometries.contains_key(geometry_id),
            final(self).registry().geometries.len() == old(self).registry().geometries.len() - 1,
            final(self).programs() == old(self).programs(),
            final(out)@ == old(out)@ + destroy_geometry_calls(old(self).registry().geometries[geometry_id]),
    {
        if let Some(objects) = self.geometries.remove(&geometry_id) {
            push_destroy_geometry(out, objects);
        }
    }

    /// Appends the calls of every operation of a draw list, in order, to
    /// `out`. The registry stays as it is.
    pub fn update_command_list(&mut self, out: &mut Vec<GlCall>, command_list: &Vec<GpuCommand>)
        ensures
            *final(self) == *old(self),
            final(out)@ == old(out)@ + old(self).registry().list_calls(
                old(self).programs(),
                command_list@,
            ),
    {
        let n = command_list.len();
        let mut i: usize = 0;
        while i < n
            invariant
                i <= n,
                n == command_list@.len(),
                *self == *old(self),
                out@ == old(out)@ + self.registry().list_calls(
                    self.programs(),
                    command_list@.take(i as int),
                ),
            decreases n - i,
        {
            match &command_list[i] {
                GpuCommand::ClearRenderBuffer { render_buffer_id } => {
                    self.clear_render_buffer(out, *render_buffer_id)
                },
                GpuCommand::DrawGeometry { gpu_state, geometry_id, indices_offset, indices_count } => {
                    self.draw_geometry(out, i, gpu_state, *geometry_id, *indices_offset, *indices_count)
                },
            }
            assert(command_list@.take(i + 1).drop_last() =~= command_list@.take(i as int));
            i += 1;
        }
        assert(command_list@.take(n as int) =~= command_list@);
    }

    /// Appends the calls that clear a registered render target to `out`:
    /// its framebuffer is bound, colour and depth are cleared, and the
    /// binding is reset. An unknown target is reported. The registry stays as
    /// it is.
    pub fn clear_render_buffer(&mut self, out: &mut Vec<GlCall>, render_buffer_id: u32)
        ensures
            *final(self) == *old(self),
            final(self).registry() == old(self).registry(),
            final(out)@ == old(out)@ + old(self).registry().op_calls(
                old(self).programs(),
                0,
                GpuCommand::ClearRenderBuffer { render_buffer_id },
            ),
            old(self).registry().render_buffers.contains_key(render_buffer_id) ==> final(out)@ == old(
                out,
            )@ + seq![
                GlCall::BindFramebuffer {
                    framebuffer: old(self).registry().render_buffers[render_buffer_id],
                },
                GlCall::Clear,
                GlCall::BindFramebuffer { framebuffer: 0 },
            ],
    {
        match self.render_buffers.get(&render_buffer_id) {
            Some(framebuffer) => push_clear(out, *framebuffer),
            None => push_unknown(out, ResourceKind::RenderBuffer, render_buffer_id),
        }
    }

    /// The native texture to bind for a texture slot.
    fn bound_texture(&self, id: Option<u32>) -> (r: u32)
        ensures
            r == self.registry().texture_or_none(id),
    {
        match id {
            Some(id) => match self.get_texture_handle(id) {
                Some(handle) => handle,
                None => 0,
            },
            None => 0,
        }
    }

    /// Appends the calls of draw operation `draw` of a list to `out`: on a
    /// registered render target and geometry, the one indexed draw with what
    /// sets it up and what resets it, on the framebuffer and the vertex array
    /// registered. An unknown target, or else an unknown geometry, is
    /// reported. The registry stays as it is.
    pub fn draw_geometry(
        &mut self,
        out: &mut Vec<GlCall>,
        draw: usize,
        gpu_state: &GpuState,
        geometry_id: u32,
        indices_offset: u32,
        indices_count: u32,
    )
        ensures
            *final(self) == *old(self),
            final(self).registry() == old(self).registry(),
            final(out)@ == old(out)@ + old(self).registry().op_calls(
                old(self).programs(),
                draw,
                GpuCommand::DrawGeometry {
                    gpu_state: *gpu_state,
                    geometry_id,
                    indices_offset,
                    indices_count,
                },
            ),
            old(self).registry().render_buffers.contains_key(gpu_state.render_buffer_id) && old(
                self,
            ).registry().geometries.contains_key(geometry_id) ==> final(out)@ == old(out)@ + draw_calls(
                draw,
                *gpu_state,
                program_of(old(self).programs(), gpu_state.shader_type),
                old(self).registry().render_buffers[gpu_state.render_buffer_id],
                (
                    old(self).registry().texture_or_none(gpu_state.texture_1_id),
                    old(self).registry().texture_or_none(gpu_state.texture_2_id),
                    old(self).registry().texture_or_none(gpu_state.texture_3_id),
                ),
                old(self).registry().geometries[geometry_id].0,
                indices_offset,
                indices_count,
            ),
    {
        let framebuffer = match self.render_buffers.get(&gpu_state.render_buffer_id) {
            Some(framebuffer) => *framebuffer,
            None => {
                push_unknown(out, ResourceKind::RenderBuffer, gpu_state.render_buffer_id);
                return ;
            },
        };
        let vertex_array = match self.geometries.get(&geometry_id) {
            Some(objects) => objects.0,
            None => {
                push_unknown(out, ResourceKind::Geometry, geometry_id);
                return ;
            },
        };
        let program = match gpu_state.shader_type {
            ShaderType::Fill => self.fill_program,
            ShaderType::FillPath => self.path_program,
        };
        let textures = (
            self.bound_texture(gpu_state.texture_1_id),
            self.bound_texture(gpu_state.texture_2_id),
            self.bound_texture(gpu_state.texture_3_id),
        );
        push_draw(
            out,
            draw,
            gpu_state,
            program,
            framebuffer,
            textures,
            vertex_array,
            indices_offset,
            indices_count,
        );
    }
}

/// Appends the report of an id that is not registered to `out`.
fn push_unknown(out: &mut Vec<GlCall>, kind: ResourceKind, id: u32)
    ensures
        final(out)@ == old(out)@ + unknown(kind, id),
{
    out.push(GlCall::ReportUnknown { kind, id });
}

/// The two ends of a GPU channel: a sender that has handed out no id and a
/// receiver with an empty registry over the two linked programs.
pub fn create_gpu_driver(path_program: u32, fill_program: u32) -> (r: (
    OpenglCommandSender,
    OpenglCommandReceiver,
))
    ensures
        forall|kind: ResourceKind| r.0.last_id(kind) == 0,
        r.1.registry() == Registry::empty(),
        r.1.programs() == (Programs { path_program, fill_program }),
{
    let command_sender = OpenglCommandSender::new();
    let command_receiver = OpenglCommandReceiver::new(path_program, fill_program);
    (command_sender, command_receiver)
}

} // verus!
