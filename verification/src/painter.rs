//! The painter: builds the shader program and the quad geometry at
//! construction, draws the full-screen quad on demand, and releases the
//! GPU objects it owns exactly once at teardown.

use vstd::prelude::*;

use crate::context::{GlCall, GraphicsContext, ShaderStage};
use crate::errors::Error;
use crate::geometry;

verus! {

/// Source text of the vertex stage: passes each quad corner through to
/// clip space unchanged.
pub open spec fn vertex_shader_source() -> Seq<char> {
    "#version 330 core\nlayout(location = 0) in vec3 position;\nvoid main() {\n    gl_Position = vec4(position, 1);\n}\n"@
}

/// The vertex-stage source as the context receives it.
pub fn vertex_shader_text() -> (r: &'static str)
    ensures
        r@ == vertex_shader_source(),
{
    "#version 330 core\nlayout(location = 0) in vec3 position;\nvoid main() {\n    gl_Position = vec4(position, 1);\n}\n"
}

/// Source text of the fragment stage: fills every covered pixel.
pub open spec fn fragment_shader_source() -> Seq<char> {
    "#version 330 core\nout vec4 color;\nvoid main() {\n    color = vec4(1, 1, 1, 1);\n}\n"@
}

/// The fragment-stage source as the context receives it.
pub fn fragment_shader_text() -> (r: &'static str)
    ensures
        r@ == fragment_shader_source(),
{
    "#version 330 core\nout vec4 color;\nvoid main() {\n    color = vec4(1, 1, 1, 1);\n}\n"
}

/// The calls a successful shader build issues: create, source, compile,
/// and a status query answering success.
pub open spec fn shader_ok_calls(stage: ShaderStage, source: Seq<char>, shader: u32) -> Seq<
    GlCall,
> {
    seq![
        (GlCall::CreateShader { stage, shader }),
        (GlCall::ShaderSource { shader, source }),
        (GlCall::CompileShader { shader }),
        (GlCall::CompileStatus { shader, ok: true }),
    ]
}

/// The calls a failed shader build issues. When the context hands back
/// the null handle nothing else is attempted; otherwise the source is
/// compiled, the failure is reported to the diagnostic sink, and the
/// failed shader object is deleted before the error propagates.
pub open spec fn shader_failed_calls(stage: ShaderStage, source: Seq<char>, shader: u32) -> Seq<
    GlCall,
> {
    if shader == 0 {
        seq![(GlCall::CreateShader { stage, shader: 0u32 })]
    } else {
        seq![
            (GlCall::CreateShader { stage, shader }),
            (GlCall::ShaderSource { shader, source }),
            (GlCall::CompileShader { shader }),
            (GlCall::CompileStatus { shader, ok: false }),
            (GlCall::ReportCompileFailure { shader }),
            (GlCall::DeleteShader { shader }),
        ]
    }
}

/// The calls that assemble the program once both shaders compiled:
/// attach both, link, and make the program current.
pub open spec fn link_calls(program: u32, v_shader: u32, f_shader: u32) -> Seq<GlCall> {
    seq![
        (GlCall::AttachShader { program, shader: v_shader }),
        (GlCall::AttachShader { program, shader: f_shader }),
        (GlCall::LinkProgram { program }),
        (GlCall::UseProgram { program }),
    ]
}

/// The calls that build the vertex state: a vertex-array object, a
/// buffer filled with the packed quad, attribute 0 configured as one
/// three-float position per vertex, and the vertex-array binding
/// cleared again.
pub open spec fn vao_setup_calls(vao: u32, vbo: u32) -> Seq<GlCall> {
    seq![
        (GlCall::GenVertexArray { vao }),
        (GlCall::BindVertexArray { vao }),
        (GlCall::GenBuffer { vbo }),
        (GlCall::BindArrayBuffer { vbo }),
        (GlCall::ArrayBufferData { data: geometry::quad_vertex_data() }),
        (GlCall::VertexAttribPointer { index: 0, size: 3, stride: geometry::VERTEX_STRIDE, offset: 0 }),
        (GlCall::EnableVertexAttribArray { index: 0 }),
        (GlCall::BindVertexArray { vao: 0 }),
    ]
}

/// Every call a successful construction issues, in order.
pub open spec fn construction_calls(
    program: u32,
    v_shader: u32,
    f_shader: u32,
    vao: u32,
    vbo: u32,
) -> Seq<GlCall> {
    seq![(GlCall::CreateProgram { program })]
        + shader_ok_calls(ShaderStage::Vertex, vertex_shader_source(), v_shader)
        + shader_ok_calls(ShaderStage::Fragment, fragment_shader_source(), f_shader)
        + link_calls(program, v_shader, f_shader) + vao_setup_calls(vao, vbo)
}

/// Every call a construction that fails on shader compilation issues:
/// the program object is created, then either the vertex shader fails
/// outright, or it compiles and the fragment shader fails.
pub open spec fn failed_construction_calls(
    program: u32,
    v_shader: u32,
    vertex_failed: bool,
    failed_shader: u32,
) -> Seq<GlCall> {
    if vertex_failed {
        seq![(GlCall::CreateProgram { program })]
            + shader_failed_calls(ShaderStage::Vertex, vertex_shader_source(), failed_shader)
    } else {
        seq![(GlCall::CreateProgram { program })]
            + shader_ok_calls(ShaderStage::Vertex, vertex_shader_source(), v_shader)
            + shader_failed_calls(ShaderStage::Fragment, fragment_shader_source(), failed_shader)
    }
}

/// Holds when `post` extends `pre` with exactly the calls of a
/// successful construction that produced the given program and
/// vertex-array handles, for some non-null shader handles and some
/// buffer handle the context chose.
pub open spec fn construction_appended(
    pre: Seq<GlCall>,
    post: Seq<GlCall>,
    program: u32,
    vao: u32,
) -> bool {
    exists|v_shader: u32, f_shader: u32, vbo: u32|
        {
            &&& v_shader != 0
            &&& f_shader != 0
            &&& post == pre + construction_calls(program, v_shader, f_shader, vao, vbo)
        }
}

/// Holds when `post` extends `pre` with exactly the calls of a
/// construction that failed on shader compilation.
pub open spec fn failed_construction_appended(pre: Seq<GlCall>, post: Seq<GlCall>) -> bool {
    exists|program: u32, v_shader: u32, vertex_failed: bool, failed: u32|
        post == pre + failed_construction_calls(program, v_shader, vertex_failed, failed)
}

/// The calls one draw issues: select the program, bind the quad, draw
/// its six vertices as a triangle list, clear the binding again.
pub open spec fn draw_calls(program: u32, vao: u32) -> Seq<GlCall> {
    seq![
        (GlCall::UseProgram { program }),
        (GlCall::BindVertexArray { vao }),
        (GlCall::DrawTriangles { first: 0, count: 6 }),
        (GlCall::BindVertexArray { vao: 0 }),
    ]
}

/// The calls teardown issues: delete the program object and the
/// vertex-array object, once each.
pub open spec fn teardown_calls(program: u32, vao: u32) -> Seq<GlCall> {
    seq![(GlCall::DeleteProgram { program }), (GlCall::DeleteVertexArray { vao })]
}

/// The trace after `n` draws with the given handles, starting from `t`.
pub open spec fn trace_after_draws(t: Seq<GlCall>, program: u32, vao: u32, n: nat) -> Seq<GlCall>
    decreases n,
{
    if n == 0 {
        t
    } else {
        trace_after_draws(t, program, vao, (n - 1) as nat) + draw_calls(program, vao)
    }
}

/// One draw issues exactly four calls: select the program, bind the
/// quad, one triangle-list draw of the six quad vertices starting at
/// offset 0, and clearing the vertex-array binding.
pub proof fn lemma_draw_calls_shape(program: u32, vao: u32)
    ensures
        draw_calls(program, vao).len() == 4,
        draw_calls(program, vao)[0] == (GlCall::UseProgram { program }),
        draw_calls(program, vao)[1] == (GlCall::BindVertexArray { vao }),
        draw_calls(program, vao)[2] == (GlCall::DrawTriangles { first: 0, count: 6 }),
        draw_calls(program, vao)[3] == (GlCall::BindVertexArray { vao: 0 }),
{
}

/// The `i`-th four-call group that the draws after `t` appended.
pub open spec fn nth_draw_group(t: Seq<GlCall>, program: u32, vao: u32, n: nat, i: int) -> Seq<
    GlCall,
> {
    trace_after_draws(t, program, vao, n).subrange(t.len() + 4 * i, t.len() + 4 * i + 4)
}

/// Drawing is idempotent: with no intervening state change, `n` draws
/// append `n` identical four-call groups to the trace, each group the
/// same single six-vertex triangle-list draw.
pub proof fn lemma_draw_idempotent(t: Seq<GlCall>, program: u32, vao: u32, n: nat)
    ensures
        trace_after_draws(t, program, vao, n).len() == t.len() + 4 * n,
        forall|i: int|
            0 <= i < n ==> #[trigger] nth_draw_group(t, program, vao, n, i) == draw_calls(
                program,
                vao,
            ),
    decreases n,
{
    if n > 0 {
        let full = trace_after_draws(t, program, vao, n);
        let prev = trace_after_draws(t, program, vao, (n - 1) as nat);
        lemma_draw_idempotent(t, program, vao, (n - 1) as nat);
        assert forall|i: int| 0 <= i < n implies #[trigger] nth_draw_group(
            t,
            program,
            vao,
            n,
            i,
        ) == draw_calls(program, vao) by {
            if i < n - 1 {
                assert(nth_draw_group(t, program, vao, (n - 1) as nat, i) == draw_calls(
                    program,
                    vao,
                ));
                assert(full.subrange(t.len() + 4 * i, t.len() + 4 * i + 4) =~= prev.subrange(
                    t.len() + 4 * i,
                    t.len() + 4 * i + 4,
                ));
            } else {
                assert(full.subrange(t.len() + 4 * i, t.len() + 4 * i + 4) =~= draw_calls(
                    program,
                    vao,
                ));
            }
        }
    }
}

/// Teardown issues exactly one deletion of the program object and
/// exactly one deletion of the vertex-array object, and nothing else.
pub proof fn lemma_teardown_releases_each_once(program: u32, vao: u32)
    ensures
        teardown_calls(program, vao).len() == 2,
        teardown_calls(program, vao)[0] == (GlCall::DeleteProgram { program }),
        teardown_calls(program, vao)[1] == (GlCall::DeleteVertexArray { vao }),
{
}

/// A construction that fails on shader compilation never links the
/// program: its trace holds no link call. And when a shader object was
/// created for the failing source, the last call deletes that object
/// again, so no failed shader object outlives the error.
pub proof fn lemma_failed_construction_never_links(
    program: u32,
    v_shader: u32,
    vertex_failed: bool,
    failed: u32,
)
    ensures
        forall|i: int|
            0 <= i < failed_construction_calls(program, v_shader, vertex_failed, failed).len()
                ==> !(#[trigger] failed_construction_calls(
                program,
                v_shader,
                vertex_failed,
                failed,
            )[i] is LinkProgram),
        failed != 0 ==> failed_construction_calls(program, v_shader, vertex_failed, failed).last()
            == (GlCall::DeleteShader { shader: failed }),
{
    let calls = failed_construction_calls(program, v_shader, vertex_failed, failed);
    assert forall|i: int| 0 <= i < calls.len() implies !(#[trigger] failed_construction_calls(
        program,
        v_shader,
        vertex_failed,
        failed,
    )[i] is LinkProgram) by {
        assert(calls[i] == failed_construction_calls(program, v_shader, vertex_failed, failed)[i]);
    }
}

/// A successful construction issues exactly 21 calls: it links the
/// program exactly once, makes it current, uploads exactly the packed
/// quad bytes, and its last call clears the vertex-array binding.
pub proof fn lemma_construction_trace(
    program: u32,
    v_shader: u32,
    f_shader: u32,
    vao: u32,
    vbo: u32,
)
    ensures
        construction_calls(program, v_shader, f_shader, vao, vbo).len() == 21,
        construction_calls(program, v_shader, f_shader, vao, vbo)[11] == (GlCall::LinkProgram {
            program,
        }),
        forall|i: int|
            0 <= i < 21 && i != 11 ==> !(#[trigger] construction_calls(
                program,
                v_shader,
                f_shader,
                vao,
                vbo,
            )[i] is LinkProgram),
        construction_calls(program, v_shader, f_shader, vao, vbo)[12] == (GlCall::UseProgram {
            program,
        }),
        construction_calls(program, v_shader, f_shader, vao, vbo)[17] == (GlCall::ArrayBufferData {
            data: geometry::quad_vertex_data(),
        }),
        construction_calls(program, v_shader, f_shader, vao, vbo).last()
            == (GlCall::BindVertexArray { vao: 0 }),
{
}

/// Creates and compiles one shader object of the given stage from the
/// given source. On any failure the error is [`Error::CompileShader`];
/// a shader object that was created but failed to compile is deleted
/// again before the error propagates.
fn load_shader<C: GraphicsContext>(gl: &mut C, stage: ShaderStage, source: &str) -> (r: Result<
    u32,
    Error,
>)
    ensures
        match r {
            Ok(shader) => {
                &&& shader != 0
                &&& final(gl).trace() == old(gl).trace() + shader_ok_calls(
                    stage,
                    source@,
                    shader,
                )
            },
            Err(e) => {
                &&& e is CompileShader
                &&& exists|shader: u32|
                    final(gl).trace() == old(gl).trace() + shader_failed_calls(
                        stage,
                        source@,
                        shader,
                    )
            },
        },
{
    let shader = gl.create_shader(stage);
    if shader == 0 {
        proof {
            assert(gl.trace() =~= old(gl).trace() + shader_failed_calls(stage, source@, 0u32));
        }
        return Err(Error::CompileShader);
    }
    gl.shader_source(shader, source);
    gl.compile_shader(shader);
    let compiled = gl.compile_succeeded(shader);
    if !compiled {
        gl.report_compile_failure(shader);
        gl.delete_shader(shader);
        proof {
            assert(gl.trace() =~= old(gl).trace() + shader_failed_calls(stage, source@, shader));
        }
        return Err(Error::CompileShader);
    }
    proof {
        assert(gl.trace() =~= old(gl).trace() + shader_ok_calls(stage, source@, shader));
    }
    Ok(shader)
}

/// Allocates the vertex-array and buffer objects, uploads the packed
/// quad, configures attribute 0, and clears the vertex-array binding
/// again.
fn create_vao<C: GraphicsContext>(gl: &mut C) -> (vao: u32)
    ensures
        exists|vbo: u32| final(gl).trace() == old(gl).trace() + vao_setup_calls(vao, vbo),
{
    let vao = gl.gen_vertex_array();
    gl.bind_vertex_array(vao);
    let vbo = gl.gen_buffer();
    gl.bind_array_buffer(vbo);
    let data = geometry::quad_vertex_data_bytes();
    gl.array_buffer_data(data.as_slice());
    gl.vertex_attrib_pointer(0, 3, geometry::VERTEX_STRIDE, 0);
    gl.enable_vertex_attrib_array(0);
    gl.bind_vertex_array(0);
    proof {
        assert(gl.trace() =~= old(gl).trace() + vao_setup_calls(vao, vbo));
    }
    vao
}

/// Owns the linked shader program and the vertex-array object for the
/// full-screen quad. Both handles stay fixed from construction to
/// teardown; consuming the painter at teardown is the only way to
/// release them, so they are released at most once.
pub struct Painter {
    program: u32,
    vao: u32,
}

impl Painter {
    /// The program handle this painter owns.
    pub closed spec fn program_id(self) -> u32 {
        self.program
    }

    /// The vertex-array handle this painter owns.
    pub closed spec fn vao_id(self) -> u32 {
        self.vao
    }

    /// Builds the shader program and the quad geometry against the
    /// given context.
    ///
    /// On success the context saw exactly the construction sequence:
    /// program created, both embedded shaders compiled with success
    /// status, both attached, program linked and made current, vertex
    /// state built, vertex-array binding cleared. On failure the error
    /// is [`Error::CompileShader`], no link was issued, and a shader
    /// object that failed to compile was deleted again; the abandoned
    /// program object is left to the context's own teardown.
    pub fn new<C: GraphicsContext>(gl: &mut C) -> (r: Result<Painter, Error>)
        ensures
            match r {
                Ok(p) => construction_appended(
                    old(gl).trace(),
                    final(gl).trace(),
                    p.program_id(),
                    p.vao_id(),
                ),
                Err(e) => {
                    &&& e is CompileShader
                    &&& failed_construction_appended(old(gl).trace(), final(gl).trace())
                },
            },
    {
        let program = gl.create_program();
        let ghost after_program = gl.trace();
        let v_shader = match load_shader(gl, ShaderStage::Vertex, vertex_shader_text()) {
            Ok(shader) => shader,
            Err(e) => {
                proof {
                    let failed = choose|shader: u32|
                        gl.trace() == after_program + shader_failed_calls(
                            ShaderStage::Vertex,
                            vertex_shader_source(),
                            shader,
                        );
                    assert(gl.trace() =~= old(gl).trace() + failed_construction_calls(
                        program,
                        0u32,
                        true,
                        failed,
                    ));
                    assert(failed_construction_appended(old(gl).trace(), gl.trace()));
                }
                return Err(e);
            },
        };
        let ghost after_vertex = gl.trace();
        let f_shader = match load_shader(gl, ShaderStage::Fragment, fragment_shader_text()) {
            Ok(shader) => shader,
            Err(e) => {
                proof {
                    let failed = choose|shader: u32|
                        gl.trace() == after_vertex + shader_failed_calls(
                            ShaderStage::Fragment,
                            fragment_shader_source(),
                            shader,
                        );
                    assert(gl.trace() =~= old(gl).trace() + failed_construction_calls(
                        program,
                        v_shader,
                        false,
                        failed,
                    ));
                    assert(failed_construction_appended(old(gl).trace(), gl.trace()));
                }
                return Err(e);
            },
        };
        gl.attach_shader(program, v_shader);
        gl.attach_shader(program, f_shader);
        gl.link_program(program);
        gl.use_program(program);
        let ghost before_vao = gl.trace();
        let vao = create_vao(gl);
        let p = Painter { program, vao };
        proof {
            let vbo = choose|vbo: u32| gl.trace() == before_vao + vao_setup_calls(vao, vbo);
            assert(gl.trace() =~= old(gl).trace() + construction_calls(
                p.program_id(),
                v_shader,
                f_shader,
                p.vao_id(),
                vbo,
            ));
            assert(construction_appended(
                old(gl).trace(),
                gl.trace(),
                p.program_id(),
                p.vao_id(),
            ));
        }
        Ok(p)
    }

    /// Executes the full-screen drawing: makes the owned program
    /// current, binds the owned vertex array, draws the six quad
    /// vertices as a triangle list, and clears the vertex-array
    /// binding again.
    pub fn draw<C: GraphicsContext>(&self, gl: &mut C)
        ensures
            final(gl).trace() == old(gl).trace() + draw_calls(self.program_id(), self.vao_id()),
    {
        gl.use_program(self.program);
        gl.bind_vertex_array(self.vao);
        gl.draw_triangles(0, 6);
        gl.bind_vertex_array(0);
        proof {
            assert(gl.trace() =~= old(gl).trace() + draw_calls(self.program_id(), self.vao_id()));
        }
    }

    /// Releases the GPU objects this painter owns: the program object
    /// and the vertex-array object, once each. Consuming the painter
    /// makes a second release of the same handles impossible. The
    /// buffer object behind the vertex array is left to the context's
    /// own teardown.
    pub fn teardown<C: GraphicsContext>(self, gl: &mut C)
        ensures
            final(gl).trace() == old(gl).trace() + teardown_calls(
                self.program_id(),
                self.vao_id(),
            ),
    {
        gl.delete_program(self.program);
        gl.delete_vertex_array(self.vao);
        proof {
            assert(gl.trace() =~= old(gl).trace() + teardown_calls(
                self.program_id(),
                self.vao_id(),
            ));
        }
    }

    /// The program handle, for callers outside the verified code.
    pub fn program_handle(&self) -> (r: u32)
        ensures
            r == self.program_id(),
    {
        self.program
    }

    /// The vertex-array handle, for callers outside the verified code.
    pub fn vao_handle(&self) -> (r: u32)
        ensures
            r == self.vao_id(),
    {
        self.vao
    }
}

} // verus!
