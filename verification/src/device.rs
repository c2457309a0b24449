use vstd::prelude::*;

use crate::render::{
    BufferTarget, Quad, RenderCommand, TextureParameter, TextureParameterValue, COMPONENTS_PER_ATTRIBUTE,
    FLOATS_PER_VERTEX, FLOAT_BYTES,
};

verus! {

/// The width and height of the shared surface, in pixels.
pub const SHARED_SURFACE_SIZE: i32 = 1024;

/// Bytes per pixel of the shared surface (RGBA, one byte each).
pub const BYTES_PER_PIXEL: i32 = 4;

/// The properties with which the shared surface is created.
#[derive(Debug, Clone, Copy, PartialEq, Eq, Structural)]
pub struct SurfaceProperties {
    pub width: i32,
    pub height: i32,
    pub bytes_per_row: i32,
    pub bytes_per_element: i32,
    pub is_global: bool,
}

/// The properties of a shared surface of `width` by `height` pixels, four
/// bytes each, that other processes can look up by its id.
pub open spec fn surface_properties_of(width: i32, height: i32) -> SurfaceProperties {
    SurfaceProperties {
        width,
        height,
        bytes_per_row: (width * BYTES_PER_PIXEL) as i32,
        bytes_per_element: BYTES_PER_PIXEL,
        is_global: true,
    }
}

/// The properties of the shared surface that the parent creates.
pub fn shared_surface_properties() -> (p: SurfaceProperties)
    ensures
        p == surface_properties_of(SHARED_SURFACE_SIZE, SHARED_SURFACE_SIZE),
        p.bytes_per_row == 4096,
{
    let width = SHARED_SURFACE_SIZE;
    let height = SHARED_SURFACE_SIZE;
    SurfaceProperties {
        width,
        height,
        bytes_per_row: width * BYTES_PER_PIXEL,
        bytes_per_element: BYTES_PER_PIXEL,
        is_global: true,
    }
}

/// The result of compiling a shader whose compile status reports success
/// (non-zero): the shader's name. A shader whose status reports failure
/// (zero) stops the program before this point, so the result is always
/// `Some`.
pub fn compile_shader(shader: u32, compile_status: i32) -> (r: Option<u32>)
    requires
        compile_status != 0,
    ensures
        r == Some(shader),
{
    Some(shader)
}

/// The state of a device, as values.
pub struct DeviceView {
    pub m_fbo: u32,
    pub m_fbo_tex_id: u32,
    pub quad_vertex_shader: u32,
    pub quad_fragment_shader: u32,
    pub debug_fragment_shader: u32,
    pub pid: u32,
    pub debug_pid: u32,
    pub m_vao: u32,
    pub m_ibo: u32,
    pub m_vbo: u32,
    pub m_shared_gl_texture_id: u32,
    pub m_shared_iosurface_id: u32,
    pub m_shared_surface: Option<u32>,
}

/// A rendering device: the names of the GL objects it made and the id of
/// the shared surface it holds, if any. A held surface is known by the id
/// that it reports of itself.
pub struct Device {
    pub m_fbo: u32,
    pub m_fbo_tex_id: u32,
    quad_vertex_shader: u32,
    quad_fragment_shader: u32,
    debug_fragment_shader: u32,
    pid: u32,
    debug_pid: u32,
    m_vao: u32,
    m_ibo: u32,
    m_vbo: u32,
    pub m_shared_gl_texture_id: u32,
    pub m_shared_iosurface_id: u32,
    m_shared_surface: Option<u32>,
}

impl View for Device {
    type V = DeviceView;

    closed spec fn view(&self) -> DeviceView {
        DeviceView {
            m_fbo: self.m_fbo,
            m_fbo_tex_id: self.m_fbo_tex_id,
            quad_vertex_shader: self.quad_vertex_shader,
            quad_fragment_shader: self.quad_fragment_shader,
            debug_fragment_shader: self.debug_fragment_shader,
            pid: self.pid,
            debug_pid: self.debug_pid,
            m_vao: self.m_vao,
            m_ibo: self.m_ibo,
            m_vbo: self.m_vbo,
            m_shared_gl_texture_id: self.m_shared_gl_texture_id,
            m_shared_iosurface_id: self.m_shared_iosurface_id,
            m_shared_surface: self.m_shared_surface,
        }
    }
}

/// A device that has just been made from its shaders and programs.
pub open spec fn new_device(
    quad_vertex_shader: u32,
    quad_fragment_shader: u32,
    debug_fragment_shader: u32,
    pid: u32,
    debug_pid: u32,
) -> DeviceView {
    DeviceView {
        m_fbo: 0,
        m_fbo_tex_id: 0,
        quad_vertex_shader,
        quad_fragment_shader,
        debug_fragment_shader,
        pid,
        debug_pid,
        m_vao: 0,
        m_ibo: 0,
        m_vbo: 0,
        m_shared_gl_texture_id: 0,
        m_shared_iosurface_id: 0,
        m_shared_surface: None,
    }
}

/// What making a device issues: the quad program from the vertex and
/// fragment shaders, linked and made current, then the debug program from
/// the vertex and debug fragment shaders, linked.
pub open spec fn new_device_commands(
    quad_vertex_shader: u32,
    quad_fragment_shader: u32,
    debug_fragment_shader: u32,
    pid: u32,
    debug_pid: u32,
) -> Seq<RenderCommand> {
    seq![
        RenderCommand::AttachShader { program: pid, shader: quad_vertex_shader },
        RenderCommand::AttachShader { program: pid, shader: quad_fragment_shader },
        RenderCommand::LinkProgram(pid),
        RenderCommand::UseProgram(pid),
        RenderCommand::AttachShader { program: debug_pid, shader: quad_vertex_shader },
        RenderCommand::AttachShader { program: debug_pid, shader: debug_fragment_shader },
        RenderCommand::LinkProgram(debug_pid),
    ]
}

/// The device after it took the texture `texture` for its shared surface.
pub open spec fn with_shared_texture(d: DeviceView, texture: u32) -> DeviceView {
    DeviceView {
        m_shared_gl_texture_id: texture,
        m_shared_iosurface_id: d.m_shared_surface.unwrap(),
        ..d
    }
}

/// What binding the shared surface to the texture `texture` issues.
pub open spec fn bind_surface_commands(width: i32, height: i32, texture: u32) -> Seq<RenderCommand> {
    seq![
        RenderCommand::BindTexture(texture),
        RenderCommand::BindSurfaceToTexture { width, height },
        RenderCommand::SetTextureParameter(TextureParameter::MinFilter, TextureParameterValue::Linear),
        RenderCommand::SetTextureParameter(TextureParameter::MagFilter, TextureParameterValue::Linear),
        RenderCommand::SetTextureParameter(TextureParameter::WrapS, TextureParameterValue::ClampToBorder),
        RenderCommand::SetTextureParameter(TextureParameter::WrapT, TextureParameterValue::ClampToBorder),
        RenderCommand::BindTexture(0),
    ]
}

/// The device after it created a shared surface that reports the id
/// `surface_id` and bound it to `texture`.
pub open spec fn after_setup_iosurface(d: DeviceView, surface_id: u32, texture: u32) -> DeviceView {
    with_shared_texture(DeviceView { m_shared_surface: Some(surface_id), ..d }, texture)
}

/// The device after it looked up the surface shared under `iosurface_id`,
/// which reports the id `surface_id`, and bound it to `texture`.
pub open spec fn after_connect_iosurface(d: DeviceView, iosurface_id: u8, surface_id: u32, texture: u32) -> DeviceView {
    with_shared_texture(
        DeviceView { m_shared_surface: Some(surface_id), m_shared_iosurface_id: iosurface_id as u32, ..d },
        texture,
    )
}

/// The device after it took the framebuffer `fbo`.
pub open spec fn with_framebuffer(d: DeviceView, fbo: u32) -> DeviceView {
    DeviceView { m_fbo: fbo, ..d }
}

/// What making `fbo` render into the shared texture issues.
pub open spec fn framebuffer_commands(fbo: u32, texture: u32) -> Seq<RenderCommand> {
    seq![
        RenderCommand::BindFramebuffer(fbo),
        RenderCommand::FramebufferTexture(texture),
        RenderCommand::RequireFramebufferComplete,
        RenderCommand::Clear,
        RenderCommand::Flush,
        RenderCommand::BindFramebuffer(0),
    ]
}

/// The device after it took its vertex array and buffers.
pub open spec fn with_vertex_array(d: DeviceView, vao: u32, ibo: u32, vbo: u32) -> DeviceView {
    DeviceView { m_vao: vao, m_ibo: ibo, m_vbo: vbo, ..d }
}

/// The quad that `setup_vao` uploads: an image of 256 by 256 pixels whose
/// rows start at the top.
pub open spec fn image_quad() -> Quad {
    Quad { tex_size: 256, flipped: true }
}

/// The quad over the whole shared surface.
pub open spec fn shared_texture_quad() -> Quad {
    Quad { tex_size: SHARED_SURFACE_SIZE, flipped: false }
}

/// The quad over a unit texture whose rows start at the top.
pub open spec fn noninverting_quad() -> Quad {
    Quad { tex_size: 1, flipped: true }
}

/// What `setup_vao` issues.
pub open spec fn vertex_array_commands(
    vao: u32,
    ibo: u32,
    vbo: u32,
    pos_attribute: i32,
    tex_attribute: i32,
) -> Seq<RenderCommand> {
    seq![
        RenderCommand::BindVertexArray(vao),
        RenderCommand::BindBuffer(BufferTarget::ArrayBuffer, vbo),
        RenderCommand::BufferVertices(image_quad()),
        RenderCommand::BindBuffer(BufferTarget::ElementArrayBuffer, ibo),
        RenderCommand::BufferQuadIndices,
        RenderCommand::EnableVertexAttribArray(pos_attribute as u32),
        RenderCommand::VertexAttribPointer {
            index: pos_attribute as u32,
            size: COMPONENTS_PER_ATTRIBUTE,
            stride: (FLOAT_BYTES * FLOATS_PER_VERTEX) as i32,
            offset: 0,
        },
        RenderCommand::EnableVertexAttribArray(tex_attribute as u32),
        RenderCommand::VertexAttribPointer {
            index: tex_attribute as u32,
            size: COMPONENTS_PER_ATTRIBUTE,
            stride: (FLOAT_BYTES * FLOATS_PER_VERTEX) as i32,
            offset: (FLOAT_BYTES * COMPONENTS_PER_ATTRIBUTE) as u32,
        },
    ]
}

/// What uploading `quad` into the device's vertex buffer issues.
pub open spec fn vertices_commands(d: DeviceView, quad: Quad) -> Seq<RenderCommand> {
    seq![RenderCommand::BindBuffer(BufferTarget::ArrayBuffer, d.m_vbo), RenderCommand::BufferVertices(quad)]
}

/// What making the debug program (`debug`) or the quad program current
/// issues.
pub open spec fn program_commands(d: DeviceView, debug: bool) -> Seq<RenderCommand> {
    seq![RenderCommand::UseProgram(if debug { d.debug_pid } else { d.pid })]
}

/// What starting (`begin`) or ending a frame issues: drawing goes into the
/// device's framebuffer, or back into the window's.
pub open spec fn frame_commands_of(d: DeviceView, begin: bool) -> Seq<RenderCommand> {
    seq![RenderCommand::BindFramebuffer(if begin { d.m_fbo } else { 0 })]
}

/// What releasing the device's GL objects issues.
pub open spec fn teardown_commands(d: DeviceView) -> Seq<RenderCommand> {
    seq![
        RenderCommand::DeleteFramebuffer(d.m_fbo),
        RenderCommand::DeleteShader(d.quad_vertex_shader),
        RenderCommand::DeleteShader(d.quad_fragment_shader),
        RenderCommand::DeleteShader(d.debug_fragment_shader),
        RenderCommand::DeleteProgram(d.pid),
        RenderCommand::DeleteProgram(d.debug_pid),
        RenderCommand::DeleteVertexArray(d.m_vao),
        RenderCommand::DeleteBuffers(d.m_ibo, d.m_vbo),
    ]
}

impl Device {
    /// Makes a device from its compiled shaders and its two programs, and
    /// returns what that issues.
    pub fn new(
        quad_vertex_shader: u32,
        quad_fragment_shader: u32,
        debug_fragment_shader: u32,
        pid: u32,
        debug_pid: u32,
    ) -> (r: (Device, Vec<RenderCommand>))
        ensures
            r.0@ == new_device(quad_vertex_shader, quad_fragment_shader, debug_fragment_shader, pid, debug_pid),
            r.1@ == new_device_commands(quad_vertex_shader, quad_fragment_shader, debug_fragment_shader, pid, debug_pid),
    {
        let mut device = Device {
            m_fbo: 0,
            m_fbo_tex_id: 0,
            quad_vertex_shader,
            quad_fragment_shader,
            debug_fragment_shader,
            pid: 0,
            debug_pid: 0,
            m_vao: 0,
            m_ibo: 0,
            m_vbo: 0,
            m_shared_gl_texture_id: 0,
            m_shared_iosurface_id: 0,
            m_shared_surface: None,
        };
        let mut cmds: Vec<RenderCommand> = Vec::new();
        device.pid = pid;
        cmds.push(RenderCommand::AttachShader { program: device.pid, shader: device.quad_vertex_shader });
        cmds.push(RenderCommand::AttachShader { program: device.pid, shader: device.quad_fragment_shader });
        cmds.push(RenderCommand::LinkProgram(device.pid));
        cmds.push(RenderCommand::UseProgram(device.pid));
        device.debug_pid = debug_pid;
        cmds.push(RenderCommand::AttachShader { program: device.debug_pid, shader: device.quad_vertex_shader });
        cmds.push(RenderCommand::AttachShader { program: device.debug_pid, shader: device.debug_fragment_shader });
        cmds.push(RenderCommand::LinkProgram(device.debug_pid));
        (device, cmds)
    }

    /// Makes the debug program current.
    pub fn debug_shaders(&self) -> (cmds: Vec<RenderCommand>)
        ensures
            cmds@ == program_commands(self@, true),
    {
        vec![RenderCommand::UseProgram(self.debug_pid)]
    }

    /// Makes the quad program current.
    pub fn release_shaders(&self) -> (cmds: Vec<RenderCommand>)
        ensures
            cmds@ == program_commands(self@, false),
    {
        vec![RenderCommand::UseProgram(self.pid)]
    }

    /// Starts drawing into the device's framebuffer.
    pub fn begin_frame(&self) -> (cmds: Vec<RenderCommand>)
        ensures
            cmds@ == frame_commands_of(self@, true),
    {
        vec![RenderCommand::BindFramebuffer(self.m_fbo)]
    }

    /// Goes back to drawing into the window.
    pub fn end_frame(&self) -> (cmds: Vec<RenderCommand>)
        ensures
            cmds@ == frame_commands_of(self@, false),
    {
        vec![RenderCommand::BindFramebuffer(0)]
    }

    /// Takes the surface that reports the id `surface_id`, just created
    /// with `shared_surface_properties`, as the device's shared surface, and
    /// binds it to the texture `texture`.
    pub fn setup_iosurface(&mut self, surface_id: u32, texture: u32) -> (cmds: Vec<RenderCommand>)
        ensures
            final(self)@ == after_setup_iosurface(old(self)@, surface_id, texture),
            cmds@ == bind_surface_commands(SHARED_SURFACE_SIZE, SHARED_SURFACE_SIZE, texture),
    {
        let width = SHARED_SURFACE_SIZE;
        let height = SHARED_SURFACE_SIZE;
        self.m_shared_surface = Some(surface_id);
        self.bind_iosurface(width, height, texture)
    }

    /// Binds the shared surface to the rectangle texture `texture`, which
    /// becomes the device's shared texture, and records the surface's id.
    pub fn bind_iosurface(&mut self, width: i32, height: i32, texture: u32) -> (cmds: Vec<RenderCommand>)
        requires
            old(self)@.m_shared_surface is Some,
        ensures
            final(self)@ == with_shared_texture(old(self)@, texture),
            cmds@ == bind_surface_commands(width, height, texture),
    {
        let mut cmds: Vec<RenderCommand> = Vec::new();
        self.m_shared_gl_texture_id = texture;
        cmds.push(RenderCommand::BindTexture(self.m_shared_gl_texture_id));
        match self.m_shared_surface {
            Some(id) => {
                cmds.push(RenderCommand::BindSurfaceToTexture { width, height });
                self.m_shared_iosurface_id = id;
            },
            None => {},
        }
        cmds.push(RenderCommand::SetTextureParameter(TextureParameter::MinFilter, TextureParameterValue::Linear));
        cmds.push(RenderCommand::SetTextureParameter(TextureParameter::MagFilter, TextureParameterValue::Linear));
        cmds.push(RenderCommand::SetTextureParameter(TextureParameter::WrapS, TextureParameterValue::ClampToBorder));
        cmds.push(RenderCommand::SetTextureParameter(TextureParameter::WrapT, TextureParameterValue::ClampToBorder));
        cmds.push(RenderCommand::BindTexture(0));
        cmds
    }

    /// Takes the surface that another process shared under the id
    /// `iosurface_id` (looked up under that id widened to 32 bits; it
    /// reports the id `surface_id`), and binds it to the texture `texture`.
    pub fn connect_iosurface(&mut self, iosurface_id: u8, surface_id: u32, texture: u32) -> (cmds: Vec<RenderCommand>)
        ensures
            final(self)@ == after_connect_iosurface(old(self)@, iosurface_id, surface_id, texture),
            final(self)@.m_shared_iosurface_id == surface_id,
            cmds@ == bind_surface_commands(SHARED_SURFACE_SIZE, SHARED_SURFACE_SIZE, texture),
    {
        let width = SHARED_SURFACE_SIZE;
        let height = SHARED_SURFACE_SIZE;
        self.m_shared_iosurface_id = iosurface_id as u32;
        self.m_shared_surface = Some(surface_id);
        self.bind_iosurface(width, height, texture)
    }

    /// Makes `fbo` the device's framebuffer, rendering into the shared
    /// texture, clears it and goes back to the window's framebuffer.
    pub fn setup_fbo_iosurface(&mut self, fbo: u32) -> (cmds: Vec<RenderCommand>)
        ensures
            final(self)@ == with_framebuffer(old(self)@, fbo),
            cmds@ == framebuffer_commands(fbo, old(self)@.m_shared_gl_texture_id),
    {
        let mut cmds: Vec<RenderCommand> = Vec::new();
        self.m_fbo = fbo;
        cmds.push(RenderCommand::BindFramebuffer(self.m_fbo));
        cmds.push(RenderCommand::FramebufferTexture(self.m_shared_gl_texture_id));
        cmds.push(RenderCommand::RequireFramebufferComplete);
        cmds.push(RenderCommand::Clear);
        cmds.push(RenderCommand::Flush);
        cmds.push(RenderCommand::BindFramebuffer(0));
        cmds
    }

    /// Uploads the unit quad for images whose rows start at the top.
    pub fn setup_noninverting_vertices(&mut self) -> (cmds: Vec<RenderCommand>)
        ensures
            final(self)@ == old(self)@,
            cmds@ == vertices_commands(old(self)@, noninverting_quad()),
    {
        let quad = Quad { tex_size: 1, flipped: true };
        vec![RenderCommand::BindBuffer(BufferTarget::ArrayBuffer, self.m_vbo), RenderCommand::BufferVertices(quad)]
    }

    /// Uploads the quad over the whole shared surface.
    pub fn setup_shared_texture_vertices(&self) -> (cmds: Vec<RenderCommand>)
        ensures
            cmds@ == vertices_commands(self@, shared_texture_quad()),
    {
        let quad = Quad { tex_size: SHARED_SURFACE_SIZE, flipped: false };
        vec![RenderCommand::BindBuffer(BufferTarget::ArrayBuffer, self.m_vbo), RenderCommand::BufferVertices(quad)]
    }

    /// Takes the vertex array `vao` and the buffers `ibo` (indices) and
    /// `vbo` (vertices), fills them with the image quad, and points the
    /// program's attributes `position` (at `pos_attribute`) and
    /// `texture_coord` (at `tex_attribute`) into the vertices.
    pub fn setup_vao(&mut self, vao: u32, ibo: u32, vbo: u32, pos_attribute: i32, tex_attribute: i32) -> (cmds: Vec<RenderCommand>)
        ensures
            final(self)@ == with_vertex_array(old(self)@, vao, ibo, vbo),
            cmds@ == vertex_array_commands(vao, ibo, vbo, pos_attribute, tex_attribute),
    {
        let mut cmds: Vec<RenderCommand> = Vec::new();
        let quad = Quad { tex_size: 256, flipped: true };
        self.m_vao = vao;
        cmds.push(RenderCommand::BindVertexArray(self.m_vao));
        self.m_ibo = ibo;
        self.m_vbo = vbo;
        cmds.push(RenderCommand::BindBuffer(BufferTarget::ArrayBuffer, self.m_vbo));
        cmds.push(RenderCommand::BufferVertices(quad));
        cmds.push(RenderCommand::BindBuffer(BufferTarget::ElementArrayBuffer, self.m_ibo));
        cmds.push(RenderCommand::BufferQuadIndices);
        let vertex_count = COMPONENTS_PER_ATTRIBUTE;
        let vertex_stride = FLOAT_BYTES * FLOATS_PER_VERTEX;
        let pos = pos_attribute as u32;
        cmds.push(RenderCommand::EnableVertexAttribArray(pos));
        cmds.push(RenderCommand::VertexAttribPointer { index: pos, size: vertex_count, stride: vertex_stride, offset: 0 });
        let tex = tex_attribute as u32;
        let tex_offset = (FLOAT_BYTES * COMPONENTS_PER_ATTRIBUTE) as u32;
        cmds.push(RenderCommand::EnableVertexAttribArray(tex));
        cmds.push(RenderCommand::VertexAttribPointer { index: tex, size: vertex_count, stride: vertex_stride, offset: tex_offset });
        cmds
    }

    /// The name of the texture backed by the shared surface.
    pub(crate) fn shared_texture_id(&self) -> (id: u32)
        ensures
            id == self@.m_shared_gl_texture_id,
    {
        self.m_shared_gl_texture_id
    }

    /// The quad program's name.
    pub fn get_program_id(&self) -> (id: u32)
        ensures
            id == self@.pid,
    {
        self.pid
    }

    /// Releases the device's GL objects.
    pub fn teardown(&self) -> (cmds: Vec<RenderCommand>)
        ensures
            cmds@ == teardown_commands(self@),
    {
        vec![
            RenderCommand::DeleteFramebuffer(self.m_fbo),
            RenderCommand::DeleteShader(self.quad_vertex_shader),
            RenderCommand::DeleteShader(self.quad_fragment_shader),
            RenderCommand::DeleteShader(self.debug_fragment_shader),
            RenderCommand::DeleteProgram(self.pid),
            RenderCommand::DeleteProgram(self.debug_pid),
            RenderCommand::DeleteVertexArray(self.m_vao),
            RenderCommand::DeleteBuffers(self.m_ibo, self.m_vbo),
        ]
    }
}

} // verus!
