//! Texture sharing between two processes through a shared surface:
//! the message protocol between the parent and the child process, the GL
//! state of a rendering device, and the render commands that each step
//! of the program issues.

pub mod protocol;
pub mod render;
pub mod device;
pub mod scene;
pub mod lifecycle;
