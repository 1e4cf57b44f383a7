use ultralightui::calls::{FreshHandles, GlCall, Programs};
use ultralightui::gpu::{
    create_gpu_driver, AttributeKind, Bitmap, BitmapFormat, GpuCommand, GpuState, IndexBuffer,
    OpenglCommand, OpenglCommandReceiver, OpenglCommandSender, PixelLayout, Rect, RenderBuffer,
    ResourceKind, ShaderType, TextureStorage, UniformBlock, VertexAttribute, VertexBuffer,
    VertexBufferFormat,
};

fn fresh(first: u32, second: u32, third: u32) -> FreshHandles {
    FreshHandles { first, second, third }
}

fn bgra(width: u32, height: u32, row_bytes: u32) -> Bitmap {
    Bitmap { width, height, format: BitmapFormat::Bgra8UnormSrgb, row_bytes, has_pixels: true }
}

fn target(texture_id: u32) -> RenderBuffer {
    RenderBuffer { texture_id, width: 4, height: 2, has_stencil_buffer: false, has_depth_buffer: false }
}

fn state(render_buffer_id: u32) -> GpuState {
    GpuState {
        viewport_width: 800,
        viewport_height: 600,
        enable_blend: true,
        shader_type: ShaderType::Fill,
        render_buffer_id,
        texture_1_id: Some(1),
        texture_2_id: None,
        texture_3_id: Some(99),
        clip_size: 3,
        enable_scissor: true,
        scissor_rect: Rect { left: 10, top: 20, right: 110, bottom: 70 },
    }
}

#[test]
fn create_texture_calls_follow_the_stride() {
    let mut receiver = OpenglCommandReceiver::new(11, 22);
    let command = OpenglCommand::CreateTexture(1, bgra(4, 2, 32));
    assert!(receiver.admits(&command));
    let calls = receiver.execute(&command, fresh(7, 0, 0));
    assert_eq!(
        calls,
        vec![
            GlCall::UnpackRows { row_length: 8 },
            GlCall::BindTexture { texture: 7 },
            GlCall::SampleLinearClamped,
            GlCall::TexImage {
                storage: TextureStorage::Srgb8Alpha8,
                width: 4,
                height: 2,
                layout: PixelLayout::Bgra,
                has_pixels: true,
            },
            GlCall::BindTexture { texture: 0 },
        ]
    );
    assert_eq!(receiver.get_texture_handle(1), Some(7));
    assert_eq!(receiver.get_texture_handle(2), None);
}

#[test]
fn single_channel_texture_uses_one_byte_per_pixel() {
    let bitmap = Bitmap { width: 5, height: 1, format: BitmapFormat::A8Unorm, row_bytes: 8, has_pixels: false };
    assert_eq!(bitmap.row_length(), 8);
    assert_eq!(bgra(2, 1, 10).row_length(), 2);
    assert_eq!(bgra(2, 1, 3).row_length(), 0);
    assert_eq!(BitmapFormat::A8Unorm.bytes_per_pixel(), 1);
    assert_eq!(BitmapFormat::Bgra8UnormSrgb.bytes_per_pixel(), 4);
    let mut receiver = OpenglCommandReceiver::new(11, 22);
    let calls = receiver.execute(&OpenglCommand::CreateTexture(3, bitmap), fresh(9, 0, 0));
    assert_eq!(
        calls[3],
        GlCall::TexImage {
            storage: TextureStorage::R8,
            width: 5,
            height: 1,
            layout: PixelLayout::Red,
            has_pixels: false,
        }
    );
}

#[test]
fn update_texture_refreshes_a_known_texture_only() {
    let mut receiver = OpenglCommandReceiver::new(11, 22);
    receiver.execute(&OpenglCommand::CreateTexture(1, bgra(4, 2, 16)), fresh(7, 0, 0));
    let calls = receiver.execute(&OpenglCommand::UpdateTexture(1, bgra(4, 2, 16)), fresh(0, 0, 0));
    assert_eq!(
        calls,
        vec![
            GlCall::UnpackRows { row_length: 4 },
            GlCall::BindTexture { texture: 7 },
            GlCall::TexSubImage { width: 4, height: 2, layout: PixelLayout::Bgra, has_pixels: true },
            GlCall::BindTexture { texture: 0 },
        ]
    );
    let unknown = OpenglCommand::UpdateTexture(5, bgra(4, 2, 16));
    assert!(receiver.admits(&unknown));
    assert_eq!(
        receiver.execute(&unknown, fresh(0, 0, 0)),
        vec![GlCall::ReportUnknown { kind: ResourceKind::Texture, id: 5 }]
    );
    assert_eq!(receiver.count(ResourceKind::Texture), 1);
}

#[test]
fn registry_holds_creates_minus_destroys() {
    let mut receiver = OpenglCommandReceiver::new(11, 22);
    for id in 1..=5u32 {
        receiver.execute(&OpenglCommand::CreateTexture(id, bgra(1, 1, 4)), fresh(100 + id, 0, 0));
    }
    receiver.execute(&OpenglCommand::UpdateTexture(2, bgra(1, 1, 4)), fresh(0, 0, 0));
    let calls = receiver.execute(&OpenglCommand::DestroyTexture(2), fresh(0, 0, 0));
    assert_eq!(calls, vec![GlCall::DeleteTexture { texture: 102 }]);
    receiver.execute(&OpenglCommand::DestroyTexture(4), fresh(0, 0, 0));
    assert_eq!(receiver.count(ResourceKind::Texture), 3);
    assert_eq!(receiver.count(ResourceKind::RenderBuffer), 0);
    assert_eq!(receiver.get_texture_handle(2), None);
    assert_eq!(receiver.get_texture_handle(5), Some(105));
}

#[test]
fn destroying_an_absent_id_is_not_admitted() {
    let receiver = OpenglCommandReceiver::new(11, 22);
    assert!(!receiver.admits(&OpenglCommand::DestroyTexture(1)));
    assert!(!receiver.admits(&OpenglCommand::DestroyRenderBuffer(1)));
    assert!(!receiver.admits(&OpenglCommand::DestroyGeometry(1)));
}

#[test]
fn render_target_needs_a_known_texture() {
    let mut receiver = OpenglCommandReceiver::new(11, 22);
    assert!(!receiver.admits(&OpenglCommand::CreateRenderBuffer(1, target(1))));
    receiver.execute(&OpenglCommand::CreateTexture(1, bgra(4, 2, 16)), fresh(7, 0, 0));
    let command = OpenglCommand::CreateRenderBuffer(1, target(1));
    assert!(receiver.admits(&command));
    let calls = receiver.execute(&command, fresh(30, 0, 0));
    assert_eq!(
        calls,
        vec![
            GlCall::BindFramebuffer { framebuffer: 30 },
            GlCall::EnableFramebufferSrgb,
            GlCall::AttachTexture { texture: 7 },
            GlCall::CheckFramebuffer,
            GlCall::BindFramebuffer { framebuffer: 0 },
        ]
    );
    assert_eq!(receiver.count(ResourceKind::RenderBuffer), 1);
    let calls = receiver.execute(&OpenglCommand::DestroyRenderBuffer(1), fresh(0, 0, 0));
    assert_eq!(calls, vec![GlCall::DeleteFramebuffer { framebuffer: 30 }]);
    assert_eq!(receiver.count(ResourceKind::RenderBuffer), 0);
}

#[test]
fn simple_layout_fills_twenty_bytes() {
    let format = VertexBufferFormat::Format2f4ub2f;
    assert_eq!(format.stride(), 20);
    let attributes = format.vertex_attributes();
    assert_eq!(
        attributes,
        vec![
            VertexAttribute { index: 0, components: 2, kind: AttributeKind::Float, normalized: false, stride: 20, offset: 0 },
            VertexAttribute { index: 1, components: 4, kind: AttributeKind::UnsignedByte, normalized: true, stride: 20, offset: 8 },
            VertexAttribute { index: 2, components: 2, kind: AttributeKind::Float, normalized: false, stride: 20, offset: 12 },
        ]
    );
    let bytes: u32 = attributes.iter().map(|a| a.components * a.kind.size()).sum();
    assert_eq!(bytes, 20);
}

#[test]
fn extended_layout_fills_one_hundred_forty_bytes() {
    let format = VertexBufferFormat::Format2f4ub2f2f28f;
    assert_eq!(format.stride(), 140);
    let attributes = format.vertex_attributes();
    assert_eq!(attributes.len(), 11);
    assert_eq!(
        attributes[3],
        VertexAttribute { index: 3, components: 2, kind: AttributeKind::Float, normalized: false, stride: 140, offset: 20 }
    );
    assert_eq!(
        attributes[4],
        VertexAttribute { index: 4, components: 4, kind: AttributeKind::Float, normalized: false, stride: 140, offset: 28 }
    );
    assert_eq!(
        attributes[10],
        VertexAttribute { index: 10, components: 4, kind: AttributeKind::Float, normalized: false, stride: 140, offset: 124 }
    );
    let mut offset = 0;
    for (i, a) in attributes.iter().enumerate() {
        assert_eq!(a.index as usize, i);
        assert_eq!(a.offset, offset);
        offset += a.components * a.kind.size();
    }
    assert_eq!(offset, 140);
}

#[test]
fn geometry_is_created_updated_and_destroyed() {
    let mut receiver = OpenglCommandReceiver::new(11, 22);
    let vertices = VertexBuffer { format: VertexBufferFormat::Format2f4ub2f, byte_len: 60 };
    let indices = IndexBuffer { index_count: 3 };
    let calls = receiver.execute(&OpenglCommand::CreateGeometry(1, vertices, indices), fresh(40, 41, 42));
    assert_eq!(calls.len(), 9);
    assert_eq!(calls[0], GlCall::BindVertexArray { vertex_array: 40 });
    assert_eq!(calls[1], GlCall::BindVertexBuffer { buffer: 41 });
    assert_eq!(calls[2], GlCall::VertexData { byte_len: 60 });
    assert_eq!(
        calls[4],
        GlCall::Attribute {
            attribute: VertexAttribute { index: 1, components: 4, kind: AttributeKind::UnsignedByte, normalized: true, stride: 20, offset: 8 },
        }
    );
    assert_eq!(calls[6], GlCall::BindIndexBuffer { buffer: 42 });
    assert_eq!(calls[7], GlCall::IndexData { index_count: 3 });
    assert_eq!(calls[8], GlCall::BindVertexArray { vertex_array: 0 });
    assert_eq!(receiver.count(ResourceKind::Geometry), 1);

    let calls = receiver.execute(&OpenglCommand::UpdateGeometry(1, vertices, indices), fresh(0, 0, 0));
    assert_eq!(
        calls,
        vec![
            GlCall::BindVertexArray { vertex_array: 40 },
            GlCall::BindVertexBuffer { buffer: 41 },
            GlCall::VertexSubData { byte_len: 60 },
            GlCall::BindIndexBuffer { buffer: 42 },
            GlCall::IndexSubData { index_count: 3 },
            GlCall::BindVertexArray { vertex_array: 0 },
        ]
    );
    assert_eq!(
        receiver.execute(&OpenglCommand::UpdateGeometry(9, vertices, indices), fresh(0, 0, 0)),
        vec![GlCall::ReportUnknown { kind: ResourceKind::Geometry, id: 9 }]
    );

    let calls = receiver.execute(&OpenglCommand::DestroyGeometry(1), fresh(0, 0, 0));
    assert_eq!(
        calls,
        vec![
            GlCall::DeleteBuffer { buffer: 41 },
            GlCall::DeleteBuffer { buffer: 42 },
            GlCall::DeleteVertexArray { vertex_array: 40 },
        ]
    );
    assert_eq!(receiver.count(ResourceKind::Geometry), 0);
}

fn receiver_with_target_and_geometry() -> OpenglCommandReceiver {
    let mut receiver = OpenglCommandReceiver::new(11, 22);
    receiver.execute(&OpenglCommand::CreateTexture(1, bgra(4, 2, 16)), fresh(7, 0, 0));
    receiver.execute(&OpenglCommand::CreateRenderBuffer(1, target(1)), fresh(30, 0, 0));
    let vertices = VertexBuffer { format: VertexBufferFormat::Format2f4ub2f2f28f, byte_len: 420 };
    receiver.execute(&OpenglCommand::CreateGeometry(1, vertices, IndexBuffer { index_count: 3 }), fresh(40, 41, 42));
    receiver
}

#[test]
fn draw_list_over_known_ids_executes_every_operation() {
    let mut receiver = receiver_with_target_and_geometry();
    let list = OpenglCommand::UpdateCommandList(vec![
        GpuCommand::ClearRenderBuffer { render_buffer_id: 1 },
        GpuCommand::DrawGeometry { gpu_state: state(1), geometry_id: 1, indices_offset: 6, indices_count: 3 },
    ]);
    assert!(receiver.admits(&list));
    let calls = receiver.execute(&list, fresh(0, 0, 0));
    let expected = vec![
        GlCall::BindFramebuffer { framebuffer: 30 },
        GlCall::Clear,
        GlCall::BindFramebuffer { framebuffer: 0 },
        GlCall::BindFramebuffer { framebuffer: 30 },
        GlCall::Viewport { width: 800, height: 600 },
        GlCall::CheckFramebuffer,
        GlCall::EnableBlend,
        GlCall::EnableScissor { left: 10, top: 20, span_x: 100, span_y: 50 },
        GlCall::UseProgram { program: 22 },
        GlCall::BindTextureUnit { unit: 1, texture: 7 },
        GlCall::BindTextureUnit { unit: 2, texture: 0 },
        GlCall::BindTextureUnit { unit: 3, texture: 0 },
        GlCall::SetSampler { unit: 1 },
        GlCall::SetSampler { unit: 2 },
        GlCall::SetSampler { unit: 3 },
        GlCall::BindVertexArray { vertex_array: 40 },
        GlCall::SetTransform { draw: 1 },
        GlCall::SetState { viewport_width: 800, viewport_height: 600 },
        GlCall::SetClipSize { clip_size: 3 },
        GlCall::CreateUniformBuffer { draw: 1, block: UniformBlock::Scalar, slot: 0 },
        GlCall::CreateUniformBuffer { draw: 1, block: UniformBlock::Vector, slot: 1 },
        GlCall::CreateUniformBuffer { draw: 1, block: UniformBlock::Clip, slot: 2 },
        GlCall::BindUniformBlock { block: UniformBlock::Scalar, slot: 0 },
        GlCall::BindUniformBlock { block: UniformBlock::Vector, slot: 1 },
        GlCall::BindUniformBlock { block: UniformBlock::Clip, slot: 2 },
        GlCall::DrawTriangles { count: 3, byte_offset: 24 },
        GlCall::ReportError,
        GlCall::UseProgram { program: 0 },
        GlCall::DestroyUniformBuffer { block: UniformBlock::Scalar },
        GlCall::DestroyUniformBuffer { block: UniformBlock::Vector },
        GlCall::DestroyUniformBuffer { block: UniformBlock::Clip },
        GlCall::BindVertexArray { vertex_array: 0 },
        GlCall::BindFramebuffer { framebuffer: 0 },
    ];
    assert!(calls.iter().all(|call| !matches!(call, GlCall::ReportUnknown { .. })));
    assert_eq!(calls, expected);
    assert_eq!(receiver.count(ResourceKind::Texture), 1);
    assert_eq!(receiver.count(ResourceKind::RenderBuffer), 1);
    assert_eq!(receiver.count(ResourceKind::Geometry), 1);
}

#[test]
fn draw_without_blend_and_scissor_uses_the_path_program() {
    let mut receiver = receiver_with_target_and_geometry();
    let mut gpu_state = state(1);
    gpu_state.enable_blend = false;
    gpu_state.enable_scissor = false;
    gpu_state.shader_type = ShaderType::FillPath;
    let list = OpenglCommand::UpdateCommandList(vec![GpuCommand::DrawGeometry {
        gpu_state,
        geometry_id: 1,
        indices_offset: u32::MAX,
        indices_count: 0,
    }]);
    let calls = receiver.execute(&list, fresh(0, 0, 0));
    assert_eq!(calls.len(), 30);
    assert_eq!(calls[3], GlCall::DisableBlend);
    assert_eq!(calls[4], GlCall::DisableScissor);
    assert_eq!(calls[5], GlCall::UseProgram { program: 11 });
    assert_eq!(calls[13], GlCall::SetTransform { draw: 0 });
    assert_eq!(calls[22], GlCall::DrawTriangles { count: 0, byte_offset: 17179869180 });
}

#[test]
fn scissor_extent_does_not_overflow() {
    let mut receiver = receiver_with_target_and_geometry();
    let mut gpu_state = state(1);
    gpu_state.scissor_rect = Rect { left: i32::MIN, top: i32::MAX, right: i32::MAX, bottom: i32::MIN };
    let list = OpenglCommand::UpdateCommandList(vec![GpuCommand::DrawGeometry {
        gpu_state,
        geometry_id: 1,
        indices_offset: 0,
        indices_count: 3,
    }]);
    let calls = receiver.execute(&list, fresh(0, 0, 0));
    assert_eq!(
        calls[4],
        GlCall::EnableScissor { left: i32::MIN, top: i32::MAX, span_x: 4294967295, span_y: -4294967295 }
    );
}

#[test]
fn draw_list_reports_an_unknown_target_or_geometry_and_goes_on() {
    let mut receiver = receiver_with_target_and_geometry();
    let list = OpenglCommand::UpdateCommandList(vec![
        GpuCommand::ClearRenderBuffer { render_buffer_id: 2 },
        GpuCommand::DrawGeometry { gpu_state: state(1), geometry_id: 2, indices_offset: 0, indices_count: 3 },
        GpuCommand::DrawGeometry { gpu_state: state(5), geometry_id: 2, indices_offset: 0, indices_count: 3 },
        GpuCommand::ClearRenderBuffer { render_buffer_id: 1 },
    ]);
    assert!(receiver.admits(&list));
    assert_eq!(
        receiver.execute(&list, fresh(0, 0, 0)),
        vec![
            GlCall::ReportUnknown { kind: ResourceKind::RenderBuffer, id: 2 },
            GlCall::ReportUnknown { kind: ResourceKind::Geometry, id: 2 },
            GlCall::ReportUnknown { kind: ResourceKind::RenderBuffer, id: 5 },
            GlCall::BindFramebuffer { framebuffer: 30 },
            GlCall::Clear,
            GlCall::BindFramebuffer { framebuffer: 0 },
        ]
    );
    assert!(receiver.admits(&OpenglCommand::UpdateCommandList(vec![])));
    assert_eq!(receiver.execute(&OpenglCommand::UpdateCommandList(vec![]), fresh(0, 0, 0)), vec![]);
    assert_eq!(receiver.count(ResourceKind::RenderBuffer), 1);
}

#[test]
fn render_executes_in_order_and_stops_at_a_violation() {
    let mut receiver = OpenglCommandReceiver::new(11, 22);
    let commands = vec![
        OpenglCommand::CreateTexture(1, bgra(4, 2, 16)),
        OpenglCommand::CreateRenderBuffer(1, target(1)),
        OpenglCommand::UpdateCommandList(vec![GpuCommand::ClearRenderBuffer { render_buffer_id: 1 }]),
        OpenglCommand::CreateRenderBuffer(2, target(8)),
        OpenglCommand::DestroyTexture(1),
    ];
    let handles = vec![fresh(7, 0, 0), fresh(30, 0, 0), fresh(0, 0, 0), fresh(31, 0, 0), fresh(0, 0, 0)];
    let (calls, executed) = receiver.render(&commands, &handles);
    assert_eq!(executed, 3);
    assert_eq!(calls.len(), 3);
    assert_eq!(calls[0].len(), 5);
    assert_eq!(calls[1][2], GlCall::AttachTexture { texture: 7 });
    assert_eq!(
        calls[2],
        vec![
            GlCall::BindFramebuffer { framebuffer: 30 },
            GlCall::Clear,
            GlCall::BindFramebuffer { framebuffer: 0 },
        ]
    );
    assert_eq!(receiver.count(ResourceKind::Texture), 1);
    assert_eq!(receiver.count(ResourceKind::RenderBuffer), 1);

    let (calls, executed) = receiver.render(&vec![], &vec![]);
    assert_eq!(executed, 0);
    assert_eq!(calls, Vec::<Vec<GlCall>>::new());
}

#[test]
fn render_of_a_valid_batch_executes_all_of_it() {
    let mut receiver = OpenglCommandReceiver::new(11, 22);
    let commands = vec![
        OpenglCommand::CreateTexture(1, bgra(4, 2, 16)),
        OpenglCommand::CreateTexture(2, bgra(4, 2, 16)),
        OpenglCommand::UpdateTexture(1, bgra(4, 2, 16)),
        OpenglCommand::DestroyTexture(1),
        OpenglCommand::CreateTexture(3, bgra(4, 2, 16)),
    ];
    let handles = vec![fresh(7, 0, 0), fresh(8, 0, 0), fresh(0, 0, 0), fresh(0, 0, 0), fresh(9, 0, 0)];
    let (calls, executed) = receiver.render(&commands, &handles);
    assert_eq!(executed, 5);
    assert_eq!(calls[2][1], GlCall::BindTexture { texture: 7 });
    assert_eq!(calls[3], vec![GlCall::DeleteTexture { texture: 7 }]);
    assert_eq!(receiver.count(ResourceKind::Texture), 2);
}

#[test]
fn sender_numbers_each_category_from_one() {
    let mut sender = OpenglCommandSender::new();
    assert!(sender.has_next_id(ResourceKind::Texture));
    assert_eq!(sender.next_texture_id(), 1);
    assert_eq!(sender.next_texture_id(), 2);
    assert_eq!(sender.next_render_buffer_id(), 1);
    assert_eq!(sender.next_geometry_id(), 1);
    assert_eq!(sender.next_geometry_id(), 2);
    assert_eq!(sender.next_texture_id(), 3);
    sender.begin_synchronize();
    sender.end_synchronize();
    assert_eq!(sender.next_render_buffer_id(), 2);
}

#[test]
fn sender_words_the_commands() {
    let mut sender = OpenglCommandSender::new();
    let bitmap = bgra(4, 2, 16);
    let vertices = VertexBuffer { format: VertexBufferFormat::Format2f4ub2f, byte_len: 60 };
    let indices = IndexBuffer { index_count: 3 };
    assert_eq!(sender.create_texture(1, bitmap), OpenglCommand::CreateTexture(1, bitmap));
    assert_eq!(sender.update_texture(1, bitmap), OpenglCommand::UpdateTexture(1, bitmap));
    assert_eq!(sender.destroy_texture(1), OpenglCommand::DestroyTexture(1));
    assert_eq!(sender.create_render_buffer(2, target(1)), OpenglCommand::CreateRenderBuffer(2, target(1)));
    assert_eq!(sender.destroy_render_buffer(2), OpenglCommand::DestroyRenderBuffer(2));
    assert_eq!(sender.create_geometry(3, vertices, indices), OpenglCommand::CreateGeometry(3, vertices, indices));
    assert_eq!(sender.update_geometry(3, vertices, indices), OpenglCommand::UpdateGeometry(3, vertices, indices));
    assert_eq!(sender.destroy_geometry(3), OpenglCommand::DestroyGeometry(3));
    let list = vec![GpuCommand::ClearRenderBuffer { render_buffer_id: 2 }];
    assert_eq!(sender.update_command_list(list.clone()), OpenglCommand::UpdateCommandList(list));
}

#[test]
fn gpu_driver_starts_empty() {
    let (mut sender, receiver) = create_gpu_driver(11, 22);
    assert_eq!(sender.next_texture_id(), 1);
    assert_eq!(receiver.count(ResourceKind::Texture), 0);
    assert_eq!(receiver.count(ResourceKind::RenderBuffer), 0);
    assert_eq!(receiver.count(ResourceKind::Geometry), 0);
    let programs = Programs { path_program: 11, fill_program: 22 };
    assert_eq!(programs.fill_program, 22);
}

#[test]
fn the_steps_of_the_executor_can_be_taken_one_by_one() {
    let mut receiver = receiver_with_target_and_geometry();
    let mut out = Vec::new();
    receiver.clear_render_buffer(&mut out, 1);
    assert_eq!(
        out,
        vec![
            GlCall::BindFramebuffer { framebuffer: 30 },
            GlCall::Clear,
            GlCall::BindFramebuffer { framebuffer: 0 },
        ]
    );
    receiver.draw_geometry(&mut out, 0, &state(1), 1, 2, 3);
    assert_eq!(out.len(), 33);
    assert_eq!(out.iter().filter(|call| matches!(call, GlCall::DrawTriangles { .. })).count(), 1);
    assert_eq!(out[3], GlCall::BindFramebuffer { framebuffer: 30 });
    assert_eq!(out[15], GlCall::BindVertexArray { vertex_array: 40 });
    assert_eq!(out[25], GlCall::DrawTriangles { count: 3, byte_offset: 8 });
    assert_eq!(out[32], GlCall::BindFramebuffer { framebuffer: 0 });

    let mut out = Vec::new();
    let vertices = VertexBuffer { format: VertexBufferFormat::Format2f4ub2f2f28f, byte_len: 140 };
    receiver.update_texture(&mut out, 1, &bgra(4, 2, 16));
    receiver.update_texture(&mut out, 2, &bgra(4, 2, 16));
    receiver.update_geometry(&mut out, 1, &vertices, &IndexBuffer { index_count: 3 });
    receiver.update_geometry(&mut out, 2, &vertices, &IndexBuffer { index_count: 3 });
    assert_eq!(out.len(), 4 + 1 + 6 + 1);
    assert_eq!(out[4], GlCall::ReportUnknown { kind: ResourceKind::Texture, id: 2 });
    assert_eq!(out[11], GlCall::ReportUnknown { kind: ResourceKind::Geometry, id: 2 });
    assert_eq!(receiver.count(ResourceKind::Texture), 1);
    assert_eq!(receiver.count(ResourceKind::RenderBuffer), 1);
    assert_eq!(receiver.count(ResourceKind::Geometry), 1);
    assert_eq!(receiver.get_texture_handle(1), Some(7));

    let mut out = Vec::new();
    assert!(receiver.admits(&OpenglCommand::DestroyGeometry(1)));
    receiver.destroy_geometry(&mut out, 1);
    assert_eq!(
        out,
        vec![
            GlCall::DeleteBuffer { buffer: 41 },
            GlCall::DeleteBuffer { buffer: 42 },
            GlCall::DeleteVertexArray { vertex_array: 40 },
        ]
    );
    assert_eq!(receiver.count(ResourceKind::Geometry), 0);
    assert_eq!(receiver.count(ResourceKind::Texture), 1);
    assert_eq!(receiver.count(ResourceKind::RenderBuffer), 1);
    assert!(!receiver.admits(&OpenglCommand::DestroyGeometry(1)));
}
