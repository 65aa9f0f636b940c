//! The vocabulary of backend calls.

use vstd::prelude::*;

verus! {

/// Binding point of a buffer object.
#[derive(Debug, Clone, Copy, PartialEq, Eq, Structural)]
pub enum BufferTarget {
    /// Source of vertex attributes.
    Array,
    /// Source of element indices.
    ElementArray,
}

/// How the content of a buffer is going to be used.
#[derive(Debug, Clone, Copy, PartialEq, Eq, Structural)]
pub enum BufferUsage {
    /// Uploaded once, drawn from many times.
    StaticDraw,
}

/// How a draw call assembles primitives from indices.
#[derive(Debug, Clone, Copy, PartialEq, Eq, Structural)]
pub enum DrawMode {
    /// Every three indices make one triangle.
    Triangles,
}

/// Stage of a shader program.
#[derive(Debug, Clone, Copy, PartialEq, Eq, Structural)]
pub enum ShaderStage {
    Vertex,
    Fragment,
}

/// A sampling parameter of a texture.
#[derive(Debug, Clone, Copy, PartialEq, Eq, Structural)]
pub enum TextureParameter {
    MinFilter,
    MagFilter,
    WrapS,
    WrapT,
}

/// The value of a sampling parameter.
#[derive(Debug, Clone, Copy, PartialEq, Eq, Structural)]
pub enum TextureSetting {
    Linear,
    ClampToEdge,
}

/// A line for the diagnostic log.
#[derive(Debug, PartialEq, Eq)]
pub enum Diagnostic {
    /// The compiler's log for a stage that failed to compile.
    CompileLog { text: String },
    /// A uniform name that the program does not know.
    UniformNotFound { name: String },
}

/// Mathematical value of a [`Diagnostic`].
pub enum DiagnosticView {
    CompileLog { text: Seq<char> },
    UniformNotFound { name: Seq<char> },
}

impl View for Diagnostic {
    type V = DiagnosticView;

    open spec fn view(&self) -> DiagnosticView {
        match *self {
            Diagnostic::CompileLog { text } => DiagnosticView::CompileLog { text: text@ },
            Diagnostic::UniformNotFound { name } => DiagnosticView::UniformNotFound { name: name@ },
        }
    }
}

/// One call into the graphics backend, or one line for the diagnostic log.
///
/// Floating-point arguments are carried as their IEEE-754 binary32 bit
/// patterns; matrices are column-major.
#[allow(inconsistent_fields)]
#[derive(Debug, PartialEq, Eq)]
pub enum Command {
    BindBuffer { target: BufferTarget, buffer: u32 },
    /// Upload `words` as the whole content of the buffer bound to `target`.
    BufferData { target: BufferTarget, words: Vec<u32>, usage: BufferUsage },
    DeleteBuffer { buffer: u32 },
    BindVertexArray { array: u32 },
    DeleteVertexArray { array: u32 },
    EnableVertexAttribArray { index: u32 },
    VertexAttribPointer {
        index: u32,
        size: u32,
        type_code: u32,
        normalized: bool,
        stride: u32,
        offset: u32,
    },
    ShaderSource { shader: u32, source: String },
    CompileShader { shader: u32 },
    DeleteShader { shader: u32 },
    AttachShader { program: u32, shader: u32 },
    LinkProgram { program: u32 },
    ValidateProgram { program: u32 },
    UseProgram { program: u32 },
    DeleteProgram { program: u32 },
    Uniform1i { location: i32, v0: i32 },
    Uniform1f { location: i32, v0: u32 },
    Uniform2f { location: i32, v0: u32, v1: u32 },
    Uniform3f { location: i32, v0: u32, v1: u32, v2: u32 },
    Uniform4f { location: i32, v0: u32, v1: u32, v2: u32, v3: u32 },
    UniformMatrix3fv { location: i32, matrix: [u32; 9] },
    UniformMatrix4fv { location: i32, matrix: [u32; 16] },
    ClearColor { red: u32, green: u32, blue: u32, alpha: u32 },
    Clear { mask: u32 },
    /// Draw the first `count` indices of the bound index buffer; `type_code`
    /// is the backend's code for the kind of the indices.
    DrawElements { mode: DrawMode, count: u32, type_code: u32 },
    /// Select the texture unit with the code `unit`.
    ActiveTexture { unit: u32 },
    BindTexture { texture: u32 },
    TexParameter { parameter: TextureParameter, setting: TextureSetting },
    /// Upload `pixels`, rows of 8-bit RGBA texels, as the image of the bound texture.
    TexImage2D { width: u32, height: u32, pixels: Vec<u8> },
    DeleteTexture { texture: u32 },
    Log { line: Diagnostic },
}

/// Mathematical value of a [`Command`].
#[allow(inconsistent_fields)]
pub enum CommandView {
    BindBuffer { target: BufferTarget, buffer: u32 },
    BufferData { target: BufferTarget, words: Seq<u32>, usage: BufferUsage },
    DeleteBuffer { buffer: u32 },
    BindVertexArray { array: u32 },
    DeleteVertexArray { array: u32 },
    EnableVertexAttribArray { index: u32 },
    VertexAttribPointer {
        index: u32,
        size: u32,
        type_code: u32,
        normalized: bool,
        stride: u32,
        offset: u32,
    },
    ShaderSource { shader: u32, source: Seq<char> },
    CompileShader { shader: u32 },
    DeleteShader { shader: u32 },
    AttachShader { program: u32, shader: u32 },
    LinkProgram { program: u32 },
    ValidateProgram { program: u32 },
    UseProgram { program: u32 },
    DeleteProgram { program: u32 },
    Uniform1i { location: i32, v0: i32 },
    Uniform1f { location: i32, v0: u32 },
    Uniform2f { location: i32, v0: u32, v1: u32 },
    Uniform3f { location: i32, v0: u32, v1: u32, v2: u32 },
    Uniform4f { location: i32, v0: u32, v1: u32, v2: u32, v3: u32 },
    UniformMatrix3fv { location: i32, matrix: Seq<u32> },
    UniformMatrix4fv { location: i32, matrix: Seq<u32> },
    ClearColor { red: u32, green: u32, blue: u32, alpha: u32 },
    Clear { mask: u32 },
    DrawElements { mode: DrawMode, count: u32, type_code: u32 },
    ActiveTexture { unit: u32 },
    BindTexture { texture: u32 },
    TexParameter { parameter: TextureParameter, setting: TextureSetting },
    TexImage2D { width: u32, height: u32, pixels: Seq<u8> },
    DeleteTexture { texture: u32 },
    Log { line: DiagnosticView },
}

impl View for Command {
    type V = CommandView;

    open spec fn view(&self) -> CommandView {
        match *self {
            Command::BindBuffer { target, buffer } => CommandView::BindBuffer { target, buffer },
            Command::BufferData { target, words, usage } => CommandView::BufferData {
                target,
                words: words@,
                usage,
            },
            Command::DeleteBuffer { buffer } => CommandView::DeleteBuffer { buffer },
            Command::BindVertexArray { array } => CommandView::BindVertexArray { array },
            Command::DeleteVertexArray { array } => CommandView::DeleteVertexArray { array },
            Command::EnableVertexAttribArray { index } => CommandView::EnableVertexAttribArray {
                index,
            },
            Command::VertexAttribPointer { index, size, type_code, normalized, stride, offset } =>
                CommandView::VertexAttribPointer {
                    index,
                    size,
                    type_code,
                    normalized,
                    stride,
                    offset,
                },
            Command::ShaderSource { shader, source } => CommandView::ShaderSource {
                shader,
                source: source@,
            },
            Command::CompileShader { shader } => CommandView::CompileShader { shader },
            Command::DeleteShader { shader } => CommandView::DeleteShader { shader },
            Command::AttachShader { program, shader } => CommandView::AttachShader {
                program,
                shader,
            },
            Command::LinkProgram { program } => CommandView::LinkProgram { program },
            Command::ValidateProgram { program } => CommandView::ValidateProgram { program },
            Command::UseProgram { program } => CommandView::UseProgram { program },
            Command::DeleteProgram { program } => CommandView::DeleteProgram { program },
            Command::Uniform1i { location, v0 } => CommandView::Uniform1i { location, v0 },
            Command::Uniform1f { location, v0 } => CommandView::Uniform1f { location, v0 },
            Command::Uniform2f { location, v0, v1 } => CommandView::Uniform2f { location, v0, v1 },
            Command::Uniform3f { location, v0, v1, v2 } => CommandView::Uniform3f {
                location,
                v0,
                v1,
                v2,
            },
            Command::Uniform4f { location, v0, v1, v2, v3 } => CommandView::Uniform4f {
                location,
                v0,
                v1,
                v2,
                v3,
            },
            Command::UniformMatrix3fv { location, matrix } => CommandView::UniformMatrix3fv {
                location,
                matrix: matrix@,
            },
            Command::UniformMatrix4fv { location, matrix } => CommandView::UniformMatrix4fv {
                location,
                matrix: matrix@,
            },
            Command::ClearColor { red, green, blue, alpha } => CommandView::ClearColor {
                red,
                green,
                blue,
                alpha,
            },
            Command::Clear { mask } => CommandView::Clear { mask },
            Command::DrawElements { mode, count, type_code } => CommandView::DrawElements {
                mode,
                count,
                type_code,
            },
            Command::ActiveTexture { unit } => CommandView::ActiveTexture { unit },
            Command::BindTexture { texture } => CommandView::BindTexture { texture },
            Command::TexParameter { parameter, setting } => CommandView::TexParameter {
                parameter,
                setting,
            },
            Command::TexImage2D { width, height, pixels } => CommandView::TexImage2D {
                width,
                height,
                pixels: pixels@,
            },
            Command::DeleteTexture { texture } => CommandView::DeleteTexture { texture },
            Command::Log { line } => CommandView::Log { line: line@ },
        }
    }
}

impl Command {
    /// Whether the command is a call into the backend. Every call is made
    /// under the validation protocol; a line for the log is no call.
    pub open spec fn spec_is_call(&self) -> bool {
        !(self is Log)
    }

    /// Whether the command is a call into the backend.
    #[verifier::when_used_as_spec(spec_is_call)]
    pub fn is_call(&self) -> (call: bool)
        ensures
            call == self.spec_is_call(),
    {
        match self {
            Command::Log { .. } => false,
            _ => true,
        }
    }
}

/// The mathematical values of a list of commands, in order.
pub open spec fn trace(commands: Seq<Command>) -> Seq<CommandView> {
    Seq::new(commands.len(), |i: int| commands[i]@)
}

} // verus!
