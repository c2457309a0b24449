use texture_sharing::device::{compile_shader, shared_surface_properties, Device, SurfaceProperties};
use texture_sharing::render::{
    BufferTarget, Quad, RenderCommand, TextureParameter, TextureParameterValue,
};

fn bind_commands(texture: u32, size: i32) -> Vec<RenderCommand> {
    vec![
        RenderCommand::BindTexture(texture),
        RenderCommand::BindSurfaceToTexture { width: size, height: size },
        RenderCommand::SetTextureParameter(TextureParameter::MinFilter, TextureParameterValue::Linear),
        RenderCommand::SetTextureParameter(TextureParameter::MagFilter, TextureParameterValue::Linear),
        RenderCommand::SetTextureParameter(TextureParameter::WrapS, TextureParameterValue::ClampToBorder),
        RenderCommand::SetTextureParameter(TextureParameter::WrapT, TextureParameterValue::ClampToBorder),
        RenderCommand::BindTexture(0),
    ]
}

#[test]
fn compiled_shader_keeps_its_name() {
    assert_eq!(compile_shader(7, 1), Some(7));
    assert_eq!(compile_shader(3, -1), Some(3));
}

#[test]
fn shared_surface_properties_are_1024_square_rgba() {
    assert_eq!(
        shared_surface_properties(),
        SurfaceProperties { width: 1024, height: 1024, bytes_per_row: 4096, bytes_per_element: 4, is_global: true }
    );
}

#[test]
fn new_device_links_both_programs() {
    let (device, cmds) = Device::new(10, 11, 12, 20, 21);
    assert_eq!(
        cmds,
        vec![
            RenderCommand::AttachShader { program: 20, shader: 10 },
            RenderCommand::AttachShader { program: 20, shader: 11 },
            RenderCommand::LinkProgram(20),
            RenderCommand::UseProgram(20),
            RenderCommand::AttachShader { program: 21, shader: 10 },
            RenderCommand::AttachShader { program: 21, shader: 12 },
            RenderCommand::LinkProgram(21),
        ]
    );
    assert_eq!(device.get_program_id(), 20);
    assert_eq!(device.m_fbo, 0);
    assert_eq!(device.m_fbo_tex_id, 0);
    assert_eq!(device.m_shared_gl_texture_id, 0);
    assert_eq!(device.m_shared_iosurface_id, 0);
}

#[test]
fn shader_switching_uses_the_two_programs() {
    let (device, _) = Device::new(1, 2, 3, 4, 5);
    assert_eq!(device.debug_shaders(), vec![RenderCommand::UseProgram(5)]);
    assert_eq!(device.release_shaders(), vec![RenderCommand::UseProgram(4)]);
}

#[test]
fn frames_bind_device_then_window_framebuffer() {
    let (mut device, _) = Device::new(1, 2, 3, 4, 5);
    assert_eq!(device.begin_frame(), vec![RenderCommand::BindFramebuffer(0)]);
    device.setup_fbo_iosurface(9);
    assert_eq!(device.begin_frame(), vec![RenderCommand::BindFramebuffer(9)]);
    assert_eq!(device.end_frame(), vec![RenderCommand::BindFramebuffer(0)]);
}

#[test]
fn setup_iosurface_binds_surface_to_texture() {
    let (mut device, _) = Device::new(1, 2, 3, 4, 5);
    let cmds = device.setup_iosurface(77, 30);
    assert_eq!(cmds, bind_commands(30, 1024));
    assert_eq!(device.m_shared_gl_texture_id, 30);
    assert_eq!(device.m_shared_iosurface_id, 77);
    assert_eq!(device.get_program_id(), 4);
}

#[test]
fn bind_iosurface_takes_given_size() {
    let (mut device, _) = Device::new(1, 2, 3, 4, 5);
    device.setup_iosurface(77, 30);
    let cmds = device.bind_iosurface(512, 256, 31);
    assert_eq!(cmds[1], RenderCommand::BindSurfaceToTexture { width: 512, height: 256 });
    assert_eq!(cmds[0], RenderCommand::BindTexture(31));
    assert_eq!(device.m_shared_gl_texture_id, 31);
    assert_eq!(device.m_shared_iosurface_id, 77);
}

#[test]
fn connect_iosurface_records_looked_up_surface() {
    let (mut device, _) = Device::new(1, 2, 3, 4, 5);
    let cmds = device.connect_iosurface(12, 12, 40);
    assert_eq!(cmds, bind_commands(40, 1024));
    assert_eq!(device.m_shared_iosurface_id, 12);
    assert_eq!(device.m_shared_gl_texture_id, 40);
}

#[test]
fn framebuffer_renders_into_shared_texture() {
    let (mut device, _) = Device::new(1, 2, 3, 4, 5);
    device.setup_iosurface(77, 30);
    let cmds = device.setup_fbo_iosurface(8);
    assert_eq!(
        cmds,
        vec![
            RenderCommand::BindFramebuffer(8),
            RenderCommand::FramebufferTexture(30),
            RenderCommand::RequireFramebufferComplete,
            RenderCommand::Clear,
            RenderCommand::Flush,
            RenderCommand::BindFramebuffer(0),
        ]
    );
    assert_eq!(device.m_fbo, 8);
}

#[test]
fn setup_vao_points_attributes_into_vertices() {
    let (mut device, _) = Device::new(1, 2, 3, 4, 5);
    let cmds = device.setup_vao(6, 7, 8, 0, 1);
    assert_eq!(
        cmds,
        vec![
            RenderCommand::BindVertexArray(6),
            RenderCommand::BindBuffer(BufferTarget::ArrayBuffer, 8),
            RenderCommand::BufferVertices(Quad { tex_size: 256, flipped: true }),
            RenderCommand::BindBuffer(BufferTarget::ElementArrayBuffer, 7),
            RenderCommand::BufferQuadIndices,
            RenderCommand::EnableVertexAttribArray(0),
            RenderCommand::VertexAttribPointer { index: 0, size: 2, stride: 16, offset: 0 },
            RenderCommand::EnableVertexAttribArray(1),
            RenderCommand::VertexAttribPointer { index: 1, size: 2, stride: 16, offset: 8 },
        ]
    );
}

#[test]
fn missing_attribute_wraps_to_max_index() {
    let (mut device, _) = Device::new(1, 2, 3, 4, 5);
    let cmds = device.setup_vao(6, 7, 8, -1, 2);
    assert_eq!(cmds[5], RenderCommand::EnableVertexAttribArray(u32::MAX));
}

#[test]
fn vertex_uploads_go_to_device_vertex_buffer() {
    let (mut device, _) = Device::new(1, 2, 3, 4, 5);
    device.setup_vao(6, 7, 8, 0, 1);
    assert_eq!(
        device.setup_noninverting_vertices(),
        vec![
            RenderCommand::BindBuffer(BufferTarget::ArrayBuffer, 8),
            RenderCommand::BufferVertices(Quad { tex_size: 1, flipped: true }),
        ]
    );
    assert_eq!(
        device.setup_shared_texture_vertices(),
        vec![
            RenderCommand::BindBuffer(BufferTarget::ArrayBuffer, 8),
            RenderCommand::BufferVertices(Quad { tex_size: 1024, flipped: false }),
        ]
    );
}

#[test]
fn teardown_releases_what_setup_took() {
    let (mut device, _) = Device::new(10, 11, 12, 20, 21);
    device.setup_vao(30, 31, 32, 0, 1);
    device.setup_iosurface(99, 40);
    device.setup_fbo_iosurface(50);
    assert_eq!(
        device.teardown(),
        vec![
            RenderCommand::DeleteFramebuffer(50),
            RenderCommand::DeleteShader(10),
            RenderCommand::DeleteShader(11),
            RenderCommand::DeleteShader(12),
            RenderCommand::DeleteProgram(20),
            RenderCommand::DeleteProgram(21),
            RenderCommand::DeleteVertexArray(30),
            RenderCommand::DeleteBuffers(31, 32),
        ]
    );
}
