//! A verified layer between an application and an immediate-mode 3D graphics
//! backend.
//!
//! The library owns the bookkeeping of GPU-resident objects (vertex buffers,
//! index buffers, vertex arrays, shader programs, textures) and decides which
//! backend calls are issued, with which arguments and in which order. It never
//! talks to the driver itself: every operation returns the [`Command`]s to
//! carry out, and where the driver has to answer before the next decision can
//! be taken, the [`Query`] to put to it. A thin host replays the commands on
//! the thread that holds the graphics context and hands the answers back.
//!
//! - [`buffer`], [`vertex_array`], [`texture`]: GPU objects and the layout of
//!   vertex data.
//! - [`shader`], [`program`]: shader programs, from their build to the
//!   uniforms of a material.
//! - [`renderer`]: clearing the frame and drawing.
//! - [`validation`]: the protocol that pins a backend error on the call that
//!   caused it.
//! - [`command`], [`protocol`]: the vocabulary shared with the host.
//! - [`viewer`]: the decisions of an interactive mesh viewer built on the
//!   layer.

mod backend;
pub mod buffer;
pub mod command;
pub mod program;
pub mod protocol;
pub mod renderer;
pub mod shader;
pub mod texture;
pub mod validation;
pub mod vertex_array;
pub mod viewer;

pub use buffer::{
    BufferElementType, IndexBuffer, VertexBuffer, VertexBufferElement, VertexBufferLayout,
};
pub use command::{
    BufferTarget, BufferUsage, Command, CommandView, Diagnostic, DiagnosticView, DrawMode,
    ShaderStage, TextureParameter, TextureSetting,
};
pub use program::{BuildPhase, BuildState, ShaderBuilder, ShaderProgramSource};
pub use protocol::{Fault, Next, NextView, Query, QueryView, Reply, Step, StepView};
pub use renderer::Renderer;
pub use shader::{Material, Shader, ShaderView, Uniform};
pub use texture::Texture;
pub use validation::{
    check_error, clear_error, CheckAction, CheckEvent, CheckPhase, Validation, Validator,
};
pub use vertex_array::VertexArray;
pub use viewer::{
    mesh_layout, Cursor, Key, Reaction, ScanKind, StlContext, StlContextView, Turn, WindowInput,
    WindowState,
};
