use vstd::prelude::*;

use crate::device::{
    after_connect_iosurface, after_setup_iosurface, bind_surface_commands, frame_commands_of, program_commands,
    with_shared_texture, SurfaceProperties, SHARED_SURFACE_SIZE, framebuffer_commands, image_quad,
    new_device, new_device_commands, noninverting_quad, shared_texture_quad, surface_properties_of,
    teardown_commands, vertex_array_commands, vertices_commands, with_framebuffer, with_vertex_array,
    DeviceView,
};
use crate::render::{BufferTarget, Quad, RenderCommand, TextureParameter, TextureParameterValue};
use crate::scene::{redraw_commands, stops_drawing, upload_commands, WindowEvent};

verus! {

/// The shared texture is what both processes draw with: once a device has
/// bound a surface to a texture and made its framebuffer, the framebuffer
/// renders into that texture, the redraw of the surface samples that
/// texture, and the device records the surface's id. This holds whether
/// the device created the surface or looked it up.
pub proof fn lemma_framebuffer_and_redraw_share_texture(
    d: DeviceView,
    iosurface_id: u8,
    surface_id: u32,
    texture: u32,
    fbo: u32,
)
    ensures
        ({
            let created = after_setup_iosurface(d, surface_id, texture);
            let looked_up = after_connect_iosurface(d, iosurface_id, surface_id, texture);
            &&& created == looked_up
            &&& framebuffer_commands(fbo, created.m_shared_gl_texture_id)[0]
                == RenderCommand::BindFramebuffer(fbo)
            &&& framebuffer_commands(fbo, created.m_shared_gl_texture_id)[1]
                == RenderCommand::FramebufferTexture(texture)
            &&& redraw_commands(with_framebuffer(created, fbo))[2] == RenderCommand::BindTexture(texture)
            &&& with_framebuffer(created, fbo).m_shared_iosurface_id == surface_id
            &&& with_framebuffer(created, fbo).m_fbo == fbo
        }),
{
}

/// Setting a device up never changes its shaders or programs: binding a
/// surface, making the framebuffer and making the vertex array keep them,
/// so the quad and debug programs stay those the device was made with.
pub proof fn lemma_setup_keeps_programs(
    d: DeviceView,
    surface_id: u32,
    texture: u32,
    fbo: u32,
    vao: u32,
    ibo: u32,
    vbo: u32,
)
    ensures
        ({
            let e = with_framebuffer(
                after_setup_iosurface(with_vertex_array(d, vao, ibo, vbo), surface_id, texture),
                fbo,
            );
            &&& e.pid == d.pid
            &&& e.debug_pid == d.debug_pid
            &&& e.quad_vertex_shader == d.quad_vertex_shader
            &&& e.quad_fragment_shader == d.quad_fragment_shader
            &&& e.debug_fragment_shader == d.debug_fragment_shader
        }),
{
}

/// Tearing down a device that was made and set up as the parent sets it up
/// (vertex array, shared surface, framebuffer) deletes exactly the objects
/// that the device was given, each once.
pub proof fn lemma_teardown_releases_what_setup_took(
    vs: u32,
    fs: u32,
    dfs: u32,
    pid: u32,
    debug_pid: u32,
    vao: u32,
    ibo: u32,
    vbo: u32,
    surface_id: u32,
    texture: u32,
    fbo: u32,
)
    ensures
        ({
            let d = with_framebuffer(
                after_setup_iosurface(
                    with_vertex_array(new_device(vs, fs, dfs, pid, debug_pid), vao, ibo, vbo),
                    surface_id,
                    texture,
                ),
                fbo,
            );
            teardown_commands(d) == seq![
                RenderCommand::DeleteFramebuffer(fbo),
                RenderCommand::DeleteShader(vs),
                RenderCommand::DeleteShader(fs),
                RenderCommand::DeleteShader(dfs),
                RenderCommand::DeleteProgram(pid),
                RenderCommand::DeleteProgram(debug_pid),
                RenderCommand::DeleteVertexArray(vao),
                RenderCommand::DeleteBuffers(ibo, vbo),
            ]
        }),
        ({
            let c = new_device_commands(vs, fs, dfs, pid, debug_pid);
            &&& c.contains(RenderCommand::LinkProgram(pid))
            &&& c.contains(RenderCommand::LinkProgram(debug_pid))
        }),
{
    let c = new_device_commands(vs, fs, dfs, pid, debug_pid);
    assert(c[2] == RenderCommand::LinkProgram(pid));
    assert(c[6] == RenderCommand::LinkProgram(debug_pid));
}

/// An upload draws inside the device's frame: it starts by binding the
/// device's framebuffer and ends by binding the window's framebuffer again,
/// and binds no other framebuffer in between.
pub proof fn lemma_upload_stays_in_frame(d: DeviceView, width: u32, height: u32, texture: u32)
    ensures
        ({
            let c = upload_commands(d, width, height, texture);
            &&& c[0] == RenderCommand::BindFramebuffer(d.m_fbo)
            &&& c.last() == RenderCommand::BindFramebuffer(0)
            &&& forall|i: int| 0 < i < c.len() - 1 ==> !(#[trigger] c[i] is BindFramebuffer)
        }),
{
    let c = upload_commands(d, width, height, texture);
    assert forall|i: int| 0 < i < c.len() - 1 implies !(#[trigger] c[i] is BindFramebuffer) by {
    }
}

/// Making a device links the quad program `pid` from the vertex and the
/// fragment shader and makes it current, and links the debug program
/// `debug_pid` from the vertex and the debug fragment shader. Every shader
/// attached goes to one of these two programs, and each program gets its
/// shaders before it is linked. The new device holds the given names and
/// nothing else yet.
pub proof fn lemma_new_device_links_given_programs(vs: u32, fs: u32, dfs: u32, pid: u32, debug_pid: u32)
    ensures
        ({
            let c = new_device_commands(vs, fs, dfs, pid, debug_pid);
            &&& c.len() == 7
            &&& forall|i: int| 0 <= i < c.len() && (#[trigger] c[i] is AttachShader) ==> (c[i]->program == pid
                || c[i]->program == debug_pid)
            &&& c[0] == RenderCommand::AttachShader { program: pid, shader: vs }
            &&& c[1] == RenderCommand::AttachShader { program: pid, shader: fs }
            &&& c[2] == RenderCommand::LinkProgram(pid)
            &&& c[3] == RenderCommand::UseProgram(pid)
            &&& c[4] == RenderCommand::AttachShader { program: debug_pid, shader: vs }
            &&& c[5] == RenderCommand::AttachShader { program: debug_pid, shader: dfs }
            &&& c[6] == RenderCommand::LinkProgram(debug_pid)
        }),
        ({
            let d = new_device(vs, fs, dfs, pid, debug_pid);
            &&& d.quad_vertex_shader == vs && d.quad_fragment_shader == fs && d.debug_fragment_shader == dfs
            &&& d.pid == pid && d.debug_pid == debug_pid
            &&& d.m_fbo == 0 && d.m_fbo_tex_id == 0 && d.m_vao == 0 && d.m_ibo == 0 && d.m_vbo == 0
            &&& d.m_shared_gl_texture_id == 0 && d.m_shared_iosurface_id == 0 && d.m_shared_surface is None
        }),
{
    let c = new_device_commands(vs, fs, dfs, pid, debug_pid);
    assert forall|i: int| 0 <= i < c.len() && (#[trigger] c[i] is AttachShader) implies (c[i]->program == pid
        || c[i]->program == debug_pid) by {
    }
}

/// `setup_vao` binds the vertex array, fills the vertex buffer with the
/// 256-pixel flipped image quad and the index buffer with the quad's
/// indices, then points the position attribute (at `pos_attribute`) at the
/// first two floats of each vertex and the texture coordinate attribute (at
/// `tex_attribute`) at the next two, with a stride of four floats (16
/// bytes). Each attribute uses its own location, whatever the other is.
pub proof fn lemma_vertex_array_layout(vao: u32, ibo: u32, vbo: u32, pos_attribute: i32, tex_attribute: i32)
    ensures
        ({
            let c = vertex_array_commands(vao, ibo, vbo, pos_attribute, tex_attribute);
            &&& c.len() == 9
            &&& c[0] == RenderCommand::BindVertexArray(vao)
            &&& c[1] == RenderCommand::BindBuffer(BufferTarget::ArrayBuffer, vbo)
            &&& c[2] == RenderCommand::BufferVertices(Quad { tex_size: 256, flipped: true })
            &&& c[3] == RenderCommand::BindBuffer(BufferTarget::ElementArrayBuffer, ibo)
            &&& c[4] == RenderCommand::BufferQuadIndices
            &&& c[5] == RenderCommand::EnableVertexAttribArray(pos_attribute as u32)
            &&& c[6] == RenderCommand::VertexAttribPointer {
                index: pos_attribute as u32,
                size: 2,
                stride: 16,
                offset: 0,
            }
            &&& c[7] == RenderCommand::EnableVertexAttribArray(tex_attribute as u32)
            &&& c[8] == RenderCommand::VertexAttribPointer {
                index: tex_attribute as u32,
                size: 2,
                stride: 16,
                offset: 8,
            }
        }),
        image_quad() == (Quad { tex_size: 256, flipped: true }),
{
}

/// Binding the shared surface binds `texture`, backs it with the surface
/// at the given width and height (in that order), sets linear filtering
/// both ways and clamping to the border on both axes, and unbinds the
/// texture at the end.
pub proof fn lemma_bind_surface_steps(width: i32, height: i32, texture: u32)
    ensures
        ({
            let c = bind_surface_commands(width, height, texture);
            &&& c.len() == 7
            &&& c[0] == RenderCommand::BindTexture(texture)
            &&& c[1] == RenderCommand::BindSurfaceToTexture { width, height }
            &&& c[2] == RenderCommand::SetTextureParameter(TextureParameter::MinFilter, TextureParameterValue::Linear)
            &&& c[3] == RenderCommand::SetTextureParameter(TextureParameter::MagFilter, TextureParameterValue::Linear)
            &&& c[4] == RenderCommand::SetTextureParameter(
                TextureParameter::WrapS,
                TextureParameterValue::ClampToBorder,
            )
            &&& c[5] == RenderCommand::SetTextureParameter(
                TextureParameter::WrapT,
                TextureParameterValue::ClampToBorder,
            )
            &&& c[6] == RenderCommand::BindTexture(0)
        }),
{
}

/// Making the framebuffer binds `fbo`, attaches `texture` to it, requires
/// it to be complete before it is cleared and flushed, and binds the
/// window's framebuffer again.
pub proof fn lemma_framebuffer_steps(fbo: u32, texture: u32)
    ensures
        framebuffer_commands(fbo, texture) == seq![
            RenderCommand::BindFramebuffer(fbo),
            RenderCommand::FramebufferTexture(texture),
            RenderCommand::RequireFramebufferComplete,
            RenderCommand::Clear,
            RenderCommand::Flush,
            RenderCommand::BindFramebuffer(0),
        ],
{
}

/// Each setup step changes only what it takes: binding a surface records
/// the surface (its id twice over) and the texture; the framebuffer step
/// records the framebuffer; the vertex array step records the array and
/// its two buffers. Everything else stays as it was.
pub proof fn lemma_setup_steps_change_only_their_fields(
    d: DeviceView,
    iosurface_id: u8,
    surface_id: u32,
    texture: u32,
    fbo: u32,
    vao: u32,
    ibo: u32,
    vbo: u32,
)
    ensures
        ({
            let e = after_setup_iosurface(d, surface_id, texture);
            &&& e.m_shared_surface == Some(surface_id)
            &&& e.m_shared_iosurface_id == surface_id
            &&& e.m_shared_gl_texture_id == texture
            &&& e.m_fbo == d.m_fbo && e.m_fbo_tex_id == d.m_fbo_tex_id
            &&& e.m_vao == d.m_vao && e.m_ibo == d.m_ibo && e.m_vbo == d.m_vbo
            &&& e.pid == d.pid && e.debug_pid == d.debug_pid
            &&& e.quad_vertex_shader == d.quad_vertex_shader
            &&& e.quad_fragment_shader == d.quad_fragment_shader
            &&& e.debug_fragment_shader == d.debug_fragment_shader
        }),
        after_connect_iosurface(d, iosurface_id, surface_id, texture) == after_setup_iosurface(d, surface_id, texture),
        ({
            let e = with_framebuffer(d, fbo);
            &&& e.m_fbo == fbo
            &&& DeviceView { m_fbo: 0, ..e } == DeviceView { m_fbo: 0, ..d }
        }),
        ({
            let e = with_vertex_array(d, vao, ibo, vbo);
            &&& e.m_vao == vao && e.m_ibo == ibo && e.m_vbo == vbo
            &&& DeviceView { m_vao: 0, m_ibo: 0, m_vbo: 0, ..e } == DeviceView { m_vao: 0, m_ibo: 0, m_vbo: 0, ..d }
        }),
{
}

/// Vertex uploads go to the device's vertex buffer: the buffer is bound,
/// then the quad is uploaded. The quads are the whole 1024-pixel shared
/// surface (rows from the bottom), the unit texture and the 256-pixel
/// image (rows from the top).
pub proof fn lemma_vertex_uploads(d: DeviceView, q: Quad)
    ensures
        vertices_commands(d, q) == seq![
            RenderCommand::BindBuffer(BufferTarget::ArrayBuffer, d.m_vbo),
            RenderCommand::BufferVertices(q),
        ],
        shared_texture_quad() == (Quad { tex_size: 1024, flipped: false }),
        noninverting_quad() == (Quad { tex_size: 1, flipped: true }),
{
}

/// The redraw of the shared surface uploads the quad over the whole
/// surface into the device's vertex buffer, binds the device's shared
/// texture, clears and draws.
pub proof fn lemma_redraw_steps(d: DeviceView)
    ensures
        redraw_commands(d) == seq![
            RenderCommand::BindBuffer(BufferTarget::ArrayBuffer, d.m_vbo),
            RenderCommand::BufferVertices(Quad { tex_size: 1024, flipped: false }),
            RenderCommand::BindTexture(d.m_shared_gl_texture_id),
            RenderCommand::Clear,
            RenderCommand::DrawQuad,
        ],
{
}

/// An upload fills the texture `texture` with an image of exactly the
/// given width and height, in that order: the one image command names them,
/// after `texture` is bound and enabled, and before the quad is drawn.
/// Swapping width and height swaps them in the command.
pub proof fn lemma_upload_keeps_image_size(d: DeviceView, width: u32, height: u32, texture: u32)
    ensures
        ({
            let c = upload_commands(d, width, height, texture);
            &&& c.len() == 11
            &&& c[1] == RenderCommand::EnableTextureRectangle
            &&& c[2] == RenderCommand::BindTexture(texture)
            &&& c[7] == RenderCommand::TextureImage { width: width as i32, height: height as i32 }
            &&& c[8] == RenderCommand::DrawQuad
            &&& forall|i: int| 0 <= i < c.len() && (#[trigger] c[i] is TextureImage) ==> i == 7
            &&& c[3] == RenderCommand::SetTextureParameter(TextureParameter::MinFilter, TextureParameterValue::Linear)
            &&& c[4] == RenderCommand::SetTextureParameter(TextureParameter::MagFilter, TextureParameterValue::Linear)
            &&& c[5] == RenderCommand::SetTextureParameter(
                TextureParameter::WrapS,
                TextureParameterValue::ClampToBorder,
            )
            &&& c[6] == RenderCommand::SetTextureParameter(
                TextureParameter::WrapT,
                TextureParameterValue::ClampToBorder,
            )
            &&& c[9] == RenderCommand::Flush
        }),
        upload_commands(d, height, width, texture)[7] == (RenderCommand::TextureImage {
            width: height as i32,
            height: width as i32,
        }),
{
    let c = upload_commands(d, width, height, texture);
    assert forall|i: int| 0 <= i < c.len() && (#[trigger] c[i] is TextureImage) implies i == 7 by {
    }
}

/// The drawing loop stops exactly when the window is closed or woken up.
pub proof fn lemma_drawing_stops_on_close_or_wakeup(event: WindowEvent)
    ensures
        stops_drawing(event) <==> (event is Closed || event is Awakened),
        !stops_drawing(WindowEvent::Other),
{
}

/// A shared surface of `width` by `height` pixels has rows of four bytes
/// per pixel, elements of four bytes, and is visible to other processes.
pub proof fn lemma_surface_properties(width: i32, height: i32)
    ensures
        ({
            let p = surface_properties_of(width, height);
            &&& p.width == width && p.height == height
            &&& p.bytes_per_element == 4
            &&& (-0x2000_0000 <= width < 0x2000_0000 ==> p.bytes_per_row == width * 4)
            &&& p.is_global
        }),
{
}

/// The debug switch makes the debug program current and the release
/// switch the quad program; a frame starts in the device's framebuffer and
/// ends in the window's (framebuffer 0).
pub proof fn lemma_program_and_frame_switches(d: DeviceView)
    ensures
        program_commands(d, true) == seq![RenderCommand::UseProgram(d.debug_pid)],
        program_commands(d, false) == seq![RenderCommand::UseProgram(d.pid)],
        frame_commands_of(d, true) == seq![RenderCommand::BindFramebuffer(d.m_fbo)],
        frame_commands_of(d, false) == seq![RenderCommand::BindFramebuffer(0)],
{
}

/// Binding a held surface to `texture` makes `texture` the shared texture
/// and records the held surface's id; nothing else changes.
pub proof fn lemma_bind_records_surface(d: DeviceView, texture: u32)
    requires
        d.m_shared_surface is Some,
    ensures
        ({
            let e = with_shared_texture(d, texture);
            &&& e.m_shared_gl_texture_id == texture
            &&& e.m_shared_iosurface_id == d.m_shared_surface.unwrap()
            &&& e.m_shared_surface == d.m_shared_surface
            &&& DeviceView { m_shared_gl_texture_id: 0, m_shared_iosurface_id: 0, ..e }
                == DeviceView { m_shared_gl_texture_id: 0, m_shared_iosurface_id: 0, ..d }
        }),
{
}

/// The shared surface is 1024 by 1024 pixels, 4096 bytes per row.
pub proof fn lemma_shared_surface_size()
    ensures
        SHARED_SURFACE_SIZE == 1024,
        surface_properties_of(SHARED_SURFACE_SIZE, SHARED_SURFACE_SIZE) == (SurfaceProperties {
            width: 1024,
            height: 1024,
            bytes_per_row: 4096,
            bytes_per_element: 4,
            is_global: true,
        }),
{
}

} // verus!
