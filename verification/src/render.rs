use vstd::prelude::*;

verus! {

/// A buffer binding point.
#[derive(Debug, Clone, Copy, PartialEq, Eq, Structural)]
pub enum BufferTarget {
    /// Vertex attributes.
    ArrayBuffer,
    /// Vertex indices.
    ElementArrayBuffer,
}

/// A parameter of the bound rectangle texture.
#[derive(Debug, Clone, Copy, PartialEq, Eq, Structural)]
pub enum TextureParameter {
    MinFilter,
    MagFilter,
    WrapS,
    WrapT,
}

/// A value of a texture parameter.
#[derive(Debug, Clone, Copy, PartialEq, Eq, Structural)]
pub enum TextureParameterValue {
    Linear,
    ClampToBorder,
}

/// A textured quad that covers the whole viewport: its corners in clip
/// space and its texture coordinates, which run from 0 to `tex_size` on
/// both axes. `flipped` turns the texture upside down, for images whose
/// rows start at the top.
#[derive(Debug, Clone, Copy, PartialEq, Eq, Structural)]
pub struct Quad {
    pub tex_size: i32,
    pub flipped: bool,
}

/// One step of rendering, as the program issues it to the graphics
/// library. Object names are those the library handed out.
#[derive(Debug, Clone, Copy, PartialEq, Eq, Structural)]
pub enum RenderCommand {
    /// Make `program` the current program.
    UseProgram(u32),
    /// Attach `shader` to `program`.
    AttachShader { program: u32, shader: u32 },
    /// Link `program`.
    LinkProgram(u32),
    /// Bind the framebuffer named by the value (0: the window's own).
    BindFramebuffer(u32),
    /// Bind the rectangle texture named by the value (0: none).
    BindTexture(u32),
    /// Enable rectangle textures.
    EnableTextureRectangle,
    /// Set a parameter of the bound rectangle texture.
    SetTextureParameter(TextureParameter, TextureParameterValue),
    /// Back the bound rectangle texture with the shared surface.
    BindSurfaceToTexture { width: i32, height: i32 },
    /// Fill the bound rectangle texture with the loaded image's RGBA bytes.
    TextureImage { width: i32, height: i32 },
    /// Attach the rectangle texture named by the value to the bound
    /// framebuffer as its first colour attachment.
    FramebufferTexture(u32),
    /// Stop unless the bound framebuffer is complete.
    RequireFramebufferComplete,
    /// Clear the colour buffer.
    Clear,
    /// Flush the command queue.
    Flush,
    /// Bind the buffer named by the value to a binding point.
    BindBuffer(BufferTarget, u32),
    /// Fill the bound vertex buffer with the quad's vertices, static draw.
    BufferVertices(Quad),
    /// Fill the bound index buffer with the quad's indices, static draw.
    BufferQuadIndices,
    /// Bind the vertex array named by the value.
    BindVertexArray(u32),
    /// Enable the vertex attribute at the index.
    EnableVertexAttribArray(u32),
    /// Point the vertex attribute `index` at `size` floats of each vertex,
    /// `stride` bytes apart, starting `offset` bytes in.
    VertexAttribPointer { index: u32, size: i32, stride: i32, offset: u32 },
    /// Draw the quad's two triangles from the index buffer.
    DrawQuad,
    /// Show the back buffer of the window.
    SwapBuffers,
    /// Delete the framebuffer named by the value.
    DeleteFramebuffer(u32),
    /// Delete the shader named by the value.
    DeleteShader(u32),
    /// Delete the program named by the value.
    DeleteProgram(u32),
    /// Delete the vertex array named by the value.
    DeleteVertexArray(u32),
    /// Delete the two buffers named by the values.
    DeleteBuffers(u32, u32),
}

/// Numbers per vertex: two for the position, two for the texture
/// coordinates.
pub const FLOATS_PER_VERTEX: i32 = 4;

/// Position or texture coordinates of a vertex: two numbers.
pub const COMPONENTS_PER_ATTRIBUTE: i32 = 2;

/// The size of one float of vertex data, in bytes.
pub const FLOAT_BYTES: i32 = 4;

/// The texture's v coordinate at the bottom and at the top of the quad.
pub open spec fn quad_v_bottom(q: Quad) -> i32 {
    if q.flipped { q.tex_size } else { 0 }
}

pub open spec fn quad_v_top(q: Quad) -> i32 {
    if q.flipped { 0 } else { q.tex_size }
}

/// The quad's vertices, four numbers each (x, y, u, v), in the order
/// bottom left, top left, top right, bottom right.
pub open spec fn quad_vertices(q: Quad) -> Seq<i32> {
    seq![
        -1i32, -1i32, 0i32, quad_v_bottom(q),
        -1i32, 1i32, 0i32, quad_v_top(q),
        1i32, 1i32, q.tex_size, quad_v_top(q),
        1i32, -1i32, q.tex_size, quad_v_bottom(q),
    ]
}

/// The quad's two triangles: bottom left, top left, top right, then top
/// right, bottom right, bottom left.
pub open spec fn quad_indices() -> Seq<u32> {
    seq![0u32, 1u32, 2u32, 2u32, 3u32, 0u32]
}

impl Quad {
    /// The quad's vertices, four numbers each (x, y, u, v).
    pub fn vertices(&self) -> (v: Vec<i32>)
        ensures
            v@ == quad_vertices(*self),
    {
        let s = self.tex_size;
        let bottom: i32 = if self.flipped { s } else { 0 };
        let top: i32 = if self.flipped { 0 } else { s };
        let v: Vec<i32> = vec![-1, -1, 0, bottom, -1, 1, 0, top, 1, 1, s, top, 1, -1, s, bottom];
        v
    }
}

/// The indices of the quad's two triangles.
pub fn quad_index_data() -> (v: Vec<u32>)
    ensures
        v@ == quad_indices(),
{
    let v: Vec<u32> = vec![0, 1, 2, 2, 3, 0];
    v
}

/// The clear, draw and swap that show one frame in the window.
pub open spec fn frame_commands() -> Seq<RenderCommand> {
    seq![RenderCommand::Clear, RenderCommand::DrawQuad, RenderCommand::SwapBuffers]
}

/// A flipped quad shows the texture of the same quad upside down: the
/// corners and u coordinates agree, and each v is `tex_size` minus the
/// other's.
pub proof fn lemma_flip_mirrors_v(tex_size: i32)
    ensures
        ({
            let a = quad_vertices(Quad { tex_size, flipped: true });
            let b = quad_vertices(Quad { tex_size, flipped: false });
            &&& a.len() == 16 && b.len() == 16
            &&& forall|i: int| 0 <= i < 16 && i % 4 != 3 ==> a[i] == b[i]
            &&& forall|i: int| 0 <= i < 16 && i % 4 == 3 ==> a[i] == tex_size - b[i]
        }),
{
    let a = quad_vertices(Quad { tex_size, flipped: true });
    let b = quad_vertices(Quad { tex_size, flipped: false });
    assert forall|i: int| 0 <= i < 16 && i % 4 != 3 implies a[i] == b[i] by {
    }
    assert forall|i: int| 0 <= i < 16 && i % 4 == 3 implies a[i] == tex_size - b[i] by {
    }
}

/// Every index of the quad's triangles names one of its four vertices.
pub proof fn lemma_indices_in_range()
    ensures
        quad_indices().len() == 6,
        forall|i: int| 0 <= i < quad_indices().len() ==> #[trigger] quad_indices()[i] < 4,
{
}

/// The quad covers clip space from corner to corner: its vertices, four
/// numbers each, are bottom left (-1, -1), top left (-1, 1), top right
/// (1, 1) and bottom right (1, -1); u is 0 on the left and `tex_size` on
/// the right; v is `tex_size` at the bottom and 0 at the top when
/// `flipped`, the other way round when not.
pub proof fn lemma_quad_corners(q: Quad)
    ensures
        ({
            let v = quad_vertices(q);
            let s = q.tex_size;
            &&& v.len() == 16
            &&& v[0] == -1 && v[1] == -1 && v[4] == -1 && v[5] == 1
            &&& v[8] == 1 && v[9] == 1 && v[12] == 1 && v[13] == -1
            &&& v[2] == 0 && v[6] == 0 && v[10] == s && v[14] == s
            &&& v[3] == (if q.flipped { s } else { 0 })
            &&& v[15] == v[3]
            &&& v[7] == (if q.flipped { 0 } else { s })
            &&& v[11] == v[7]
        }),
{
}

/// The triangles are (bottom left, top left, top right) and (top right,
/// bottom right, bottom left): together they cover the quad.
pub proof fn lemma_quad_triangles()
    ensures
        quad_indices() == seq![0u32, 1u32, 2u32, 2u32, 3u32, 0u32],
{
}

/// A frame in the window is a clear, a draw of the quad and a swap, in
/// that order.
pub proof fn lemma_frame_is_clear_draw_swap()
    ensures
        frame_commands().len() == 3,
        frame_commands()[0] == RenderCommand::Clear,
        frame_commands()[1] == RenderCommand::DrawQuad,
        frame_commands()[2] == RenderCommand::SwapBuffers,
{
}

} // verus!
