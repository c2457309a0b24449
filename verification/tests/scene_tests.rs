use texture_sharing::device::Device;
use texture_sharing::render::{BufferTarget, Quad, RenderCommand, TextureParameter, TextureParameterValue};
use texture_sharing::scene::{
    child_present, on_window_event, redraw_parent_from_shared_iosurface, upload_texture_rectangle, WindowEvent,
};

fn parent_device() -> Device {
    let (mut device, _) = Device::new(1, 2, 3, 4, 5);
    device.setup_vao(6, 7, 8, 0, 1);
    device.setup_iosurface(55, 9);
    device.setup_fbo_iosurface(10);
    device
}

#[test]
fn upload_draws_inside_device_frame() {
    let device = parent_device();
    let cmds = upload_texture_rectangle(&device, 256, 128, 42);
    assert_eq!(
        cmds,
        vec![
            RenderCommand::BindFramebuffer(10),
            RenderCommand::EnableTextureRectangle,
            RenderCommand::BindTexture(42),
            RenderCommand::SetTextureParameter(TextureParameter::MinFilter, TextureParameterValue::Linear),
            RenderCommand::SetTextureParameter(TextureParameter::MagFilter, TextureParameterValue::Linear),
            RenderCommand::SetTextureParameter(TextureParameter::WrapS, TextureParameterValue::ClampToBorder),
            RenderCommand::SetTextureParameter(TextureParameter::WrapT, TextureParameterValue::ClampToBorder),
            RenderCommand::TextureImage { width: 256, height: 128 },
            RenderCommand::DrawQuad,
            RenderCommand::Flush,
            RenderCommand::BindFramebuffer(0),
        ]
    );
}

#[test]
fn upload_size_wraps_like_a_cast() {
    let device = parent_device();
    let cmds = upload_texture_rectangle(&device, u32::MAX, 1, 42);
    assert_eq!(cmds[7], RenderCommand::TextureImage { width: -1, height: 1 });
}

#[test]
fn redraw_samples_shared_texture() {
    let device = parent_device();
    assert_eq!(
        redraw_parent_from_shared_iosurface(&device),
        vec![
            RenderCommand::BindBuffer(BufferTarget::ArrayBuffer, 8),
            RenderCommand::BufferVertices(Quad { tex_size: 1024, flipped: false }),
            RenderCommand::BindTexture(9),
            RenderCommand::Clear,
            RenderCommand::DrawQuad,
        ]
    );
}

#[test]
fn framebuffer_and_redraw_share_texture() {
    let (mut device, _) = Device::new(1, 2, 3, 4, 5);
    device.setup_vao(6, 7, 8, 0, 1);
    device.connect_iosurface(3, 3, 17);
    let fbo = device.setup_fbo_iosurface(10);
    let redraw = redraw_parent_from_shared_iosurface(&device);
    assert_eq!(fbo[1], RenderCommand::FramebufferTexture(17));
    assert_eq!(redraw[2], RenderCommand::BindTexture(17));
}

#[test]
fn window_events_show_a_frame_and_stop_on_close_or_wakeup() {
    let frame = vec![RenderCommand::Clear, RenderCommand::DrawQuad, RenderCommand::SwapBuffers];
    assert_eq!(on_window_event(WindowEvent::Other), (frame.clone(), false));
    assert_eq!(on_window_event(WindowEvent::Closed), (frame.clone(), true));
    assert_eq!(on_window_event(WindowEvent::Awakened), (frame, true));
}

#[test]
fn child_present_is_redraw_then_flush() {
    let device = parent_device();
    let mut expected = redraw_parent_from_shared_iosurface(&device);
    expected.push(RenderCommand::Flush);
    assert_eq!(child_present(&device), expected);
}
