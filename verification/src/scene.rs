use vstd::prelude::*;

use crate::device::{shared_texture_quad, vertices_commands, Device, DeviceView};
use crate::render::{frame_commands, RenderCommand, TextureParameter, TextureParameterValue};

verus! {

/// An event of the window, as far as drawing cares.
#[derive(Debug, Clone, Copy, PartialEq, Eq, Structural)]
pub enum WindowEvent {
    /// The window was closed.
    Closed,
    /// The event loop was woken up from outside.
    Awakened,
    /// Any other event.
    Other,
}

/// What uploading an image of `width` by `height` pixels into the
/// rectangle texture `texture` issues: drawn inside the device's frame.
pub open spec fn upload_commands(d: DeviceView, width: u32, height: u32, texture: u32) -> Seq<RenderCommand> {
    seq![
        RenderCommand::BindFramebuffer(d.m_fbo),
        RenderCommand::EnableTextureRectangle,
        RenderCommand::BindTexture(texture),
        RenderCommand::SetTextureParameter(TextureParameter::MinFilter, TextureParameterValue::Linear),
        RenderCommand::SetTextureParameter(TextureParameter::MagFilter, TextureParameterValue::Linear),
        RenderCommand::SetTextureParameter(TextureParameter::WrapS, TextureParameterValue::ClampToBorder),
        RenderCommand::SetTextureParameter(TextureParameter::WrapT, TextureParameterValue::ClampToBorder),
        RenderCommand::TextureImage { width: width as i32, height: height as i32 },
        RenderCommand::DrawQuad,
        RenderCommand::Flush,
        RenderCommand::BindFramebuffer(0),
    ]
}

/// What drawing the shared surface into the window issues.
pub open spec fn redraw_commands(d: DeviceView) -> Seq<RenderCommand> {
    vertices_commands(d, shared_texture_quad()) + seq![
        RenderCommand::BindTexture(d.m_shared_gl_texture_id),
        RenderCommand::Clear,
        RenderCommand::DrawQuad,
    ]
}

/// Whether the drawing loop stops at an event.
pub open spec fn stops_drawing(event: WindowEvent) -> bool {
    event == WindowEvent::Closed || event == WindowEvent::Awakened
}

/// Loads an image of `width` by `height` pixels into the rectangle texture
/// `texture` and draws it into the device's framebuffer.
pub fn upload_texture_rectangle(device: &Device, width: u32, height: u32, texture: u32) -> (cmds: Vec<RenderCommand>)
    ensures
        cmds@ == upload_commands(device@, width, height, texture),
{
    let mut cmds = device.begin_frame();
    cmds.push(RenderCommand::EnableTextureRectangle);
    cmds.push(RenderCommand::BindTexture(texture));
    cmds.push(RenderCommand::SetTextureParameter(TextureParameter::MinFilter, TextureParameterValue::Linear));
    cmds.push(RenderCommand::SetTextureParameter(TextureParameter::MagFilter, TextureParameterValue::Linear));
    cmds.push(RenderCommand::SetTextureParameter(TextureParameter::WrapS, TextureParameterValue::ClampToBorder));
    cmds.push(RenderCommand::SetTextureParameter(TextureParameter::WrapT, TextureParameterValue::ClampToBorder));
    cmds.push(RenderCommand::TextureImage { width: width as i32, height: height as i32 });
    cmds.push(RenderCommand::DrawQuad);
    cmds.push(RenderCommand::Flush);
    let mut end = device.end_frame();
    cmds.append(&mut end);
    cmds
}

/// Draws the shared surface into the window: the quad over the whole
/// surface, textured with the device's shared texture.
pub fn redraw_parent_from_shared_iosurface(device: &Device) -> (cmds: Vec<RenderCommand>)
    ensures
        cmds@ == redraw_commands(device@),
{
    let mut cmds = device.setup_shared_texture_vertices();
    cmds.push(RenderCommand::BindTexture(device.shared_texture_id()));
    cmds.push(RenderCommand::Clear);
    cmds.push(RenderCommand::DrawQuad);
    cmds
}

/// What the drawing loop does at an event: it shows one more frame, then
/// stops when the window was closed or woken up.
pub fn on_window_event(event: WindowEvent) -> (r: (Vec<RenderCommand>, bool))
    ensures
        r.0@ == frame_commands(),
        r.1 == stops_drawing(event),
{
    let cmds: Vec<RenderCommand> = vec![RenderCommand::Clear, RenderCommand::DrawQuad, RenderCommand::SwapBuffers];
    let stop = match event {
        WindowEvent::Closed => true,
        WindowEvent::Awakened => true,
        WindowEvent::Other => false,
    };
    (cmds, stop)
}

/// The child's last step of a render: draw the shared surface as the
/// parent does, then flush.
pub fn child_present(device: &Device) -> (cmds: Vec<RenderCommand>)
    ensures
        cmds@ == redraw_commands(device@).push(RenderCommand::Flush),
{
    let mut cmds = redraw_parent_from_shared_iosurface(device);
    cmds.push(RenderCommand::Flush);
    cmds
}

} // verus!
