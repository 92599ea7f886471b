use verso_painter::context::{GraphicsContext, ShaderStage};
use verso_painter::errors::Error;
use verso_painter::geometry::quad_vertex_data_bytes;
use verso_painter::painter::{fragment_shader_text, vertex_shader_text, Painter};

/// One recorded context operation, mirroring what the painter's ghost
/// trace describes.
#[derive(Debug, Clone, PartialEq)]
enum Call {
    CreateProgram(u32),
    CreateShader(ShaderStage, u32),
    ShaderSource(u32, String),
    CompileShader(u32),
    CompileStatus(u32, bool),
    ReportCompileFailure(u32),
    DeleteShader(u32),
    AttachShader(u32, u32),
    LinkProgram(u32),
    UseProgram(u32),
    GenVertexArray(u32),
    BindVertexArray(u32),
    GenBuffer(u32),
    BindArrayBuffer(u32),
    ArrayBufferData(Vec<u8>),
    VertexAttribPointer(u32, u32, u32, u32),
    EnableVertexAttribArray(u32),
    DrawTriangles(i32, i32),
    DeleteProgram(u32),
    DeleteVertexArray(u32),
}

/// A recording double for the graphics context: hands out handles
/// counting up from 1 and can be told to fail a shader stage.
struct MockGl {
    calls: Vec<Call>,
    next_handle: u32,
    zero_handle_stage: Option<ShaderStage>,
    fail_stage: Option<ShaderStage>,
    vertex_shader: u32,
    fragment_shader: u32,
}

impl MockGl {
    fn new() -> MockGl {
        MockGl {
            calls: Vec::new(),
            next_handle: 1,
            zero_handle_stage: None,
            fail_stage: None,
            vertex_shader: 0,
            fragment_shader: 0,
        }
    }

    fn next(&mut self) -> u32 {
        let handle = self.next_handle;
        self.next_handle += 1;
        handle
    }
}

impl GraphicsContext for MockGl {
    fn create_program(&mut self) -> u32 {
        let handle = self.next();
        self.calls.push(Call::CreateProgram(handle));
        handle
    }

    fn create_shader(&mut self, stage: ShaderStage) -> u32 {
        let handle = if self.zero_handle_stage == Some(stage) { 0 } else { self.next() };
        match stage {
            ShaderStage::Vertex => self.vertex_shader = handle,
            ShaderStage::Fragment => self.fragment_shader = handle,
        }
        self.calls.push(Call::CreateShader(stage, handle));
        handle
    }

    fn shader_source(&mut self, shader: u32, source: &str) {
        self.calls.push(Call::ShaderSource(shader, source.to_string()));
    }

    fn compile_shader(&mut self, shader: u32) {
        self.calls.push(Call::CompileShader(shader));
    }

    fn compile_succeeded(&mut self, shader: u32) -> bool {
        let stage = if shader == self.vertex_shader {
            ShaderStage::Vertex
        } else {
            ShaderStage::Fragment
        };
        let ok = self.fail_stage != Some(stage);
        self.calls.push(Call::CompileStatus(shader, ok));
        ok
    }

    fn report_compile_failure(&mut self, shader: u32) {
        self.calls.push(Call::ReportCompileFailure(shader));
    }

    fn delete_shader(&mut self, shader: u32) {
        self.calls.push(Call::DeleteShader(shader));
    }

    fn attach_shader(&mut self, program: u32, shader: u32) {
        self.calls.push(Call::AttachShader(program, shader));
    }

    fn link_program(&mut self, program: u32) {
        self.calls.push(Call::LinkProgram(program));
    }

    fn use_program(&mut self, program: u32) {
        self.calls.push(Call::UseProgram(program));
    }

    fn gen_vertex_array(&mut self) -> u32 {
        let handle = self.next();
        self.calls.push(Call::GenVertexArray(handle));
        handle
    }

    fn bind_vertex_array(&mut self, vao: u32) {
        self.calls.push(Call::BindVertexArray(vao));
    }

    fn gen_buffer(&mut self) -> u32 {
        let handle = self.next();
        self.calls.push(Call::GenBuffer(handle));
        handle
    }

    fn bind_array_buffer(&mut self, vbo: u32) {
        self.calls.push(Call::BindArrayBuffer(vbo));
    }

    fn array_buffer_data(&mut self, data: &[u8]) {
        self.calls.push(Call::ArrayBufferData(data.to_vec()));
    }

    fn vertex_attrib_pointer(&mut self, index: u32, size: u32, stride: u32, offset: u32) {
        self.calls.push(Call::VertexAttribPointer(index, size, stride, offset));
    }

    fn enable_vertex_attrib_array(&mut self, index: u32) {
        self.calls.push(Call::EnableVertexAttribArray(index));
    }

    fn draw_triangles(&mut self, first: i32, count: i32) {
        self.calls.push(Call::DrawTriangles(first, count));
    }

    fn delete_program(&mut self, program: u32) {
        self.calls.push(Call::DeleteProgram(program));
    }

    fn delete_vertex_array(&mut self, vao: u32) {
        self.calls.push(Call::DeleteVertexArray(vao));
    }
}

fn expected_construction_calls() -> Vec<Call> {
    vec![
        Call::CreateProgram(1),
        Call::CreateShader(ShaderStage::Vertex, 2),
        Call::ShaderSource(2, vertex_shader_text().to_string()),
        Call::CompileShader(2),
        Call::CompileStatus(2, true),
        Call::CreateShader(ShaderStage::Fragment, 3),
        Call::ShaderSource(3, fragment_shader_text().to_string()),
        Call::CompileShader(3),
        Call::CompileStatus(3, true),
        Call::AttachShader(1, 2),
        Call::AttachShader(1, 3),
        Call::LinkProgram(1),
        Call::UseProgram(1),
        Call::GenVertexArray(4),
        Call::BindVertexArray(4),
        Call::GenBuffer(5),
        Call::BindArrayBuffer(5),
        Call::ArrayBufferData(quad_vertex_data_bytes()),
        Call::VertexAttribPointer(0, 3, 12, 0),
        Call::EnableVertexAttribArray(0),
        Call::BindVertexArray(0),
    ]
}

#[test]
fn construction_issues_exact_call_sequence() {
    let mut gl = MockGl::new();
    let painter = Painter::new(&mut gl).expect("construction with good shaders must succeed");
    assert_eq!(gl.calls, expected_construction_calls());
    assert_ne!(painter.program_handle(), 0);
    assert_ne!(painter.vao_handle(), 0);
    assert_eq!(painter.program_handle(), 1);
    assert_eq!(painter.vao_handle(), 4);
}

#[test]
fn end_to_end_construct_draw_teardown() {
    let mut gl = MockGl::new();
    let painter = Painter::new(&mut gl).expect("construction with good shaders must succeed");
    let before_draw = gl.calls.len();
    painter.draw(&mut gl);
    assert_eq!(
        gl.calls[before_draw..],
        [
            Call::UseProgram(1),
            Call::BindVertexArray(4),
            Call::DrawTriangles(0, 6),
            Call::BindVertexArray(0),
        ]
    );
    let before_teardown = gl.calls.len();
    painter.teardown(&mut gl);
    assert_eq!(
        gl.calls[before_teardown..],
        [Call::DeleteProgram(1), Call::DeleteVertexArray(4)]
    );
    assert_eq!(gl.calls.len(), before_teardown + 2);
}

#[test]
fn draw_is_idempotent() {
    let mut gl = MockGl::new();
    let painter = Painter::new(&mut gl).expect("construction with good shaders must succeed");
    let base = gl.calls.len();
    painter.draw(&mut gl);
    painter.draw(&mut gl);
    painter.draw(&mut gl);
    assert_eq!(gl.calls.len(), base + 12);
    let first = gl.calls[base..base + 4].to_vec();
    assert_eq!(gl.calls[base + 4..base + 8], first[..]);
    assert_eq!(gl.calls[base + 8..base + 12], first[..]);
    assert_eq!(first[2], Call::DrawTriangles(0, 6));
    assert_eq!(first[3], Call::BindVertexArray(0));
}

#[test]
fn teardown_releases_each_object_once() {
    let mut gl = MockGl::new();
    let painter = Painter::new(&mut gl).expect("construction with good shaders must succeed");
    let program = painter.program_handle();
    let vao = painter.vao_handle();
    let before = gl.calls.len();
    painter.teardown(&mut gl);
    let deletes_program = gl
        .calls
        .iter()
        .filter(|c| matches!(c, Call::DeleteProgram(p) if *p == program))
        .count();
    let deletes_vao = gl
        .calls
        .iter()
        .filter(|c| matches!(c, Call::DeleteVertexArray(v) if *v == vao))
        .count();
    assert_eq!(deletes_program, 1);
    assert_eq!(deletes_vao, 1);
    assert_eq!(gl.calls.len(), before + 2);
}

#[test]
fn failed_fragment_compile_returns_error_and_cleans_up() {
    let mut gl = MockGl::new();
    gl.fail_stage = Some(ShaderStage::Fragment);
    let result = Painter::new(&mut gl);
    assert!(matches!(result, Err(Error::CompileShader)));
    assert!(!gl.calls.iter().any(|c| matches!(c, Call::LinkProgram(_))));
    let fragment = gl.fragment_shader;
    assert_ne!(fragment, 0);
    assert!(gl.calls.contains(&Call::ReportCompileFailure(fragment)));
    assert_eq!(gl.calls.last(), Some(&Call::DeleteShader(fragment)));
}

#[test]
fn failed_vertex_compile_returns_error_and_cleans_up() {
    let mut gl = MockGl::new();
    gl.fail_stage = Some(ShaderStage::Vertex);
    let result = Painter::new(&mut gl);
    assert!(matches!(result, Err(Error::CompileShader)));
    assert_eq!(
        gl.calls,
        vec![
            Call::CreateProgram(1),
            Call::CreateShader(ShaderStage::Vertex, 2),
            Call::ShaderSource(2, vertex_shader_text().to_string()),
            Call::CompileShader(2),
            Call::CompileStatus(2, false),
            Call::ReportCompileFailure(2),
            Call::DeleteShader(2),
        ]
    );
}

#[test]
fn zero_shader_handle_returns_error_without_compiling() {
    let mut gl = MockGl::new();
    gl.zero_handle_stage = Some(ShaderStage::Vertex);
    let result = Painter::new(&mut gl);
    assert!(matches!(result, Err(Error::CompileShader)));
    assert_eq!(
        gl.calls,
        vec![Call::CreateProgram(1), Call::CreateShader(ShaderStage::Vertex, 0)]
    );
}

#[test]
fn uploaded_buffer_is_the_packed_quad() {
    let mut gl = MockGl::new();
    Painter::new(&mut gl).expect("construction with good shaders must succeed");
    let uploaded = gl
        .calls
        .iter()
        .find_map(|c| match c {
            Call::ArrayBufferData(data) => Some(data.clone()),
            _ => None,
        })
        .expect("construction must upload the vertex buffer");
    assert_eq!(uploaded, quad_vertex_data_bytes());
    assert_eq!(uploaded.len(), 72);
}

#[test]
fn shader_sources_reach_the_context_unchanged() {
    let mut gl = MockGl::new();
    Painter::new(&mut gl).expect("construction with good shaders must succeed");
    let sources: Vec<String> = gl
        .calls
        .iter()
        .filter_map(|c| match c {
            Call::ShaderSource(_, source) => Some(source.clone()),
            _ => None,
        })
        .collect();
    assert_eq!(
        sources,
        vec![vertex_shader_text().to_string(), fragment_shader_text().to_string()]
    );
    assert!(sources[0].contains("gl_Position"));
}

#[test]
fn error_taxonomy_wraps_windowing_failures() {
    let wrapped = Error::EventLoopError(winit::error::EventLoopError::RecreationAttempt);
    assert!(matches!(wrapped, Error::EventLoopError(_)));
    let own = Error::CompileShader;
    assert!(matches!(own, Error::CompileShader));
}
