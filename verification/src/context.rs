//! The graphics-context capability the painter draws through.
//!
//! The context is the one boundary interface of this crate: an object
//! exposing the GPU operations the painter needs. Implementations live
//! outside the verified code (a real OpenGL binding in the surrounding
//! application, a recording double in the tests); each implementation
//! is responsible for meeting the contracts stated here. The ghost
//! [`GraphicsContext::trace`] records every operation issued through
//! the context, newest last, so that the painter's own contracts can
//! pin down exactly which GPU calls it makes.

use vstd::prelude::*;

verus! {

/// The two programmable pipeline stages a shader object can belong to.
#[derive(Clone, Copy, Debug, PartialEq, Eq, Structural)]
pub enum ShaderStage {
    Vertex,
    Fragment,
}

/// One operation issued through the graphics context, as the ghost
/// trace records it. Operations that hand a GPU handle back carry the
/// handle the context returned.
pub enum GlCall {
    /// A program object was created.
    CreateProgram { program: u32 },
    /// A shader object of the given stage was created.
    CreateShader { stage: ShaderStage, shader: u32 },
    /// Source text was attached to a shader object.
    ShaderSource { shader: u32, source: Seq<char> },
    /// A shader object was compiled.
    CompileShader { shader: u32 },
    /// The compile status of a shader object was queried.
    CompileStatus { shader: u32, ok: bool },
    /// A shader's compile log was fetched and handed to the
    /// embedder's diagnostic sink.
    ReportCompileFailure { shader: u32 },
    /// A shader object was deleted.
    DeleteShader { shader: u32 },
    /// A shader object was attached to a program object.
    AttachShader { program: u32, shader: u32 },
    /// A program object was linked.
    LinkProgram { program: u32 },
    /// A program object was made current.
    UseProgram { program: u32 },
    /// A vertex-array object was created.
    GenVertexArray { vao: u32 },
    /// A vertex-array object was bound (0 clears the binding).
    BindVertexArray { vao: u32 },
    /// A buffer object was created.
    GenBuffer { vbo: u32 },
    /// A buffer object was bound to the array-buffer target.
    BindArrayBuffer { vbo: u32 },
    /// The given bytes were uploaded to the bound array buffer, for
    /// static drawing.
    ArrayBufferData { data: Seq<u8> },
    /// A vertex attribute was configured to read that many
    /// single-precision float components per vertex from the bound
    /// buffer, at the given stride and starting offset.
    VertexAttribPointer { index: u32, size: u32, stride: u32, offset: u32 },
    /// A vertex attribute was enabled.
    EnableVertexAttribArray { index: u32 },
    /// A triangle-list draw over the given vertex range was issued.
    DrawTriangles { first: i32, count: i32 },
    /// A program object was deleted.
    DeleteProgram { program: u32 },
    /// A vertex-array object was deleted.
    DeleteVertexArray { vao: u32 },
}

/// The capability object through which every GPU operation goes.
///
/// Binding operations mutate ambient, context-global state (the current
/// program, the current vertex array); the trace records them in the
/// order they were issued. An implementation must return from every
/// operation; what a returned handle is worth is its own affair — the
/// painter states what it does for every possible answer.
pub trait GraphicsContext: Sized {
    /// The operations issued through this context so far, newest last.
    /// The default leaves the trace unspecified; nothing is ever proved
    /// from it beyond what the method contracts below state.
    open spec fn trace(&self) -> Seq<GlCall> {
        arbitrary()
    }

    /// Creates an empty program object.
    fn create_program(&mut self) -> (program: u32)
        ensures
            final(self).trace() == old(self).trace().push((GlCall::CreateProgram { program })),
    ;

    /// Creates an empty shader object for the given pipeline stage.
    fn create_shader(&mut self, stage: ShaderStage) -> (shader: u32)
        ensures
            final(self).trace() == old(self).trace().push((GlCall::CreateShader { stage, shader })),
    ;

    /// Replaces the source text of a shader object.
    fn shader_source(&mut self, shader: u32, source: &str)
        ensures
            final(self).trace() == old(self).trace().push(
                (GlCall::ShaderSource { shader, source: source@ }),
            ),
    ;

    /// Compiles a shader object.
    fn compile_shader(&mut self, shader: u32)
        ensures
            final(self).trace() == old(self).trace().push((GlCall::CompileShader { shader })),
    ;

    /// Queries whether the last compilation of the shader object
    /// succeeded.
    fn compile_succeeded(&mut self, shader: u32) -> (ok: bool)
        ensures
            final(self).trace() == old(self).trace().push((GlCall::CompileStatus { shader, ok })),
    ;

    /// Fetches the shader's compile log and reports it to the
    /// embedder's diagnostic sink; the error value itself carries no
    /// diagnostic text.
    fn report_compile_failure(&mut self, shader: u32)
        ensures
            final(self).trace() == old(self).trace().push(
                (GlCall::ReportCompileFailure { shader }),
            ),
    ;

    /// Deletes a shader object.
    fn delete_shader(&mut self, shader: u32)
        ensures
            final(self).trace() == old(self).trace().push((GlCall::DeleteShader { shader })),
    ;

    /// Attaches a shader object to a program object.
    fn attach_shader(&mut self, program: u32, shader: u32)
        ensures
            final(self).trace() == old(self).trace().push(
                (GlCall::AttachShader { program, shader }),
            ),
    ;

    /// Links a program object from its attached shaders.
    fn link_program(&mut self, program: u32)
        ensures
            final(self).trace() == old(self).trace().push((GlCall::LinkProgram { program })),
    ;

    /// Makes a program object the current one.
    fn use_program(&mut self, program: u32)
        ensures
            final(self).trace() == old(self).trace().push((GlCall::UseProgram { program })),
    ;

    /// Creates a vertex-array object.
    fn gen_vertex_array(&mut self) -> (vao: u32)
        ensures
            final(self).trace() == old(self).trace().push((GlCall::GenVertexArray { vao })),
    ;

    /// Binds a vertex-array object; binding 0 clears the ambient
    /// binding.
    fn bind_vertex_array(&mut self, vao: u32)
        ensures
            final(self).trace() == old(self).trace().push((GlCall::BindVertexArray { vao })),
    ;

    /// Creates a buffer object.
    fn gen_buffer(&mut self) -> (vbo: u32)
        ensures
            final(self).trace() == old(self).trace().push((GlCall::GenBuffer { vbo })),
    ;

    /// Binds a buffer object to the array-buffer target.
    fn bind_array_buffer(&mut self, vbo: u32)
        ensures
            final(self).trace() == old(self).trace().push((GlCall::BindArrayBuffer { vbo })),
    ;

    /// Uploads the given bytes to the bound array buffer, for static
    /// drawing.
    fn array_buffer_data(&mut self, data: &[u8])
        ensures
            final(self).trace() == old(self).trace().push(
                (GlCall::ArrayBufferData { data: data@ }),
            ),
    ;

    /// Configures a vertex attribute as that many single-precision,
    /// non-normalized float components per vertex, read from the bound
    /// buffer at the given stride and starting offset.
    fn vertex_attrib_pointer(&mut self, index: u32, size: u32, stride: u32, offset: u32)
        ensures
            final(self).trace() == old(self).trace().push(
                (GlCall::VertexAttribPointer { index, size, stride, offset }),
            ),
    ;

    /// Enables a vertex attribute.
    fn enable_vertex_attrib_array(&mut self, index: u32)
        ensures
            final(self).trace() == old(self).trace().push(
                (GlCall::EnableVertexAttribArray { index }),
            ),
    ;

    /// Issues a triangle-list draw over the given vertex range.
    fn draw_triangles(&mut self, first: i32, count: i32)
        ensures
            final(self).trace() == old(self).trace().push((GlCall::DrawTriangles { first, count })),
    ;

    /// Deletes a program object.
    fn delete_program(&mut self, program: u32)
        ensures
            final(self).trace() == old(self).trace().push((GlCall::DeleteProgram { program })),
    ;

    /// Deletes a vertex-array object.
    fn delete_vertex_array(&mut self, vao: u32)
        ensures
            final(self).trace() == old(self).trace().push((GlCall::DeleteVertexArray { vao })),
    ;
}

} // verus!
