//! Clearing the frame and drawing indexed geometry.

use vstd::prelude::*;

use crate::backend;
use crate::buffer::{BufferElementType, IndexBuffer};
use crate::command::{trace, BufferTarget, Command, CommandView, DrawMode};
use crate::protocol::{Next, NextView, Step, StepView};
use crate::shader::{Material, ShaderView, Uniform};
use crate::vertex_array::VertexArray;

verus! {

/// Bit pattern of `0.0`: the red, green and blue of the background.
pub const BACKGROUND_RGB: u32 = 0;

/// Bit pattern of `1.0`: the alpha of the background.
pub const BACKGROUND_ALPHA: u32 = 0x3F80_0000;

/// Mask of the buffers that a clear resets: colour and depth.
pub const CLEAR_MASK: u32 = 0x4100;

/// What clearing the frame takes: the background colour is set, then the
/// colour and depth buffers are reset.
pub open spec fn clear_commands() -> Seq<CommandView> {
    seq![
        CommandView::ClearColor {
            red: BACKGROUND_RGB,
            green: BACKGROUND_RGB,
            blue: BACKGROUND_RGB,
            alpha: BACKGROUND_ALPHA,
        },
        CommandView::Clear { mask: CLEAR_MASK },
    ]
}

/// The one draw call of a draw: `count` 32-bit unsigned indices, taken as a
/// triangle list.
pub open spec fn draw_call(count: u32) -> CommandView {
    CommandView::DrawElements {
        mode: DrawMode::Triangles,
        count,
        type_code: BufferElementType::UnsignedInt.spec_code(),
    }
}

/// The step that a draw takes, given the step that binding its material
/// takes. Once the material binds, the vertex array and the index buffer
/// are made current and one indexed triangle-list draw of `count` indices
/// is issued; until then the draw is the material's question.
pub open spec fn draw_step(material: StepView, array: u32, indices: u32, count: u32) -> StepView {
    match material.next {
        NextView::Done => StepView {
            commands: material.commands + seq![
                CommandView::BindVertexArray { array },
                CommandView::BindBuffer { target: BufferTarget::ElementArray, buffer: indices },
                draw_call(count),
            ],
            next: NextView::Done,
        },
        _ => material,
    }
}

/// Writing uniforms draws nothing.
proof fn lemma_writes_draw_nothing(shader: ShaderView, uniforms: Seq<Uniform>, n: int, i: int)
    requires
        0 <= i < shader.writes(uniforms, n).len(),
    ensures
        !(shader.writes(uniforms, n)[i] is DrawElements),
    decreases n,
{
    if n > 0 {
        let head = shader.writes(uniforms, n - 1);
        if i < head.len() {
            lemma_writes_draw_nothing(shader, uniforms, n - 1, i);
        }
    }
}

/// A draw that goes through issues exactly one draw call: its last command,
/// which draws `count` indices. A draw that has to ask first issues nothing.
pub proof fn lemma_draw_issues_one_draw(
    shader: ShaderView,
    uniforms: Seq<Uniform>,
    array: u32,
    indices: u32,
    count: u32,
)
    ensures
        ({
            let step = draw_step(shader.bind_material(uniforms), array, indices, count);
            let last = step.commands.len() - 1;
            if shader.first_unresolved(uniforms, 0) is None {
                &&& step.next == NextView::Done
                &&& step.commands[last] == draw_call(count)
                &&& forall|i: int| 0 <= i < last ==> !(#[trigger] step.commands[i] is DrawElements)
            } else {
                &&& step.next is Ask
                &&& step.commands.len() == 0
            }
        }),
{
    let bound = shader.bind_material(uniforms);
    let step = draw_step(bound, array, indices, count);
    if shader.first_unresolved(uniforms, 0) is None {
        let writes = shader.writes(uniforms, uniforms.len() as int);
        assert forall|i: int| 0 <= i < step.commands.len() - 1 implies !(
        #[trigger] step.commands[i] is DrawElements) by {
            if 1 <= i < 1 + writes.len() {
                lemma_writes_draw_nothing(shader, uniforms, uniforms.len() as int, i - 1);
                assert(step.commands[i] == writes[i - 1]);
            }
        }
    }
}

/// Issues the calls of a frame. It keeps no state between calls.
#[derive(Debug, Clone, Copy, PartialEq, Eq, Structural)]
pub struct Renderer {}

impl Renderer {
    pub fn new() -> (renderer: Self)
        ensures
            renderer == (Renderer {  }),
    {
        Renderer {  }
    }

    /// Resets the colour and depth buffers to the background colour.
    pub fn clear(&self) -> (commands: Vec<Command>)
        ensures
            trace(commands@) == clear_commands(),
    {
        let mask = backend::color_buffer_bit() | backend::depth_buffer_bit();
        assert(0x4000u32 | 0x100u32 == 0x4100u32) by (bit_vector);
        let mut commands: Vec<Command> = Vec::new();
        commands.push(
            Command::ClearColor {
                red: BACKGROUND_RGB,
                green: BACKGROUND_RGB,
                blue: BACKGROUND_RGB,
                alpha: BACKGROUND_ALPHA,
            },
        );
        commands.push(Command::Clear { mask });
        assert(trace(commands@) =~= clear_commands());
        commands
    }

    /// Draws the triangles of `ib` from the vertices of `va` with
    /// `material`: binds the material, the vertex array and the index
    /// buffer, then issues one indexed draw of all indices of `ib`.
    pub fn draw(&self, va: &VertexArray, ib: &IndexBuffer, material: &Material) -> (step: Step)
        ensures
            step@ == draw_step(
                material.shader@.bind_material(material.uniforms@),
                va.id(),
                ib.id(),
                ib.count(),
            ),
    {
        let bound = material.bind();
        match bound.next {
            Next::Done => {
                let mut commands = bound.commands;
                commands.push(va.bind());
                commands.push(ib.bind());
                commands.push(
                    Command::DrawElements {
                        mode: DrawMode::Triangles,
                        count: ib.count(),
                        type_code: BufferElementType::UnsignedInt.code(),
                    },
                );
                let step = Step { commands, next: Next::Done };
                assert(step@.commands =~= bound@.commands + seq![
                    CommandView::BindVertexArray { array: va.id() },
                    CommandView::BindBuffer {
                        target: BufferTarget::ElementArray,
                        buffer: ib.id(),
                    },
                    draw_call(ib.count()),
                ]);
                step
            },
            _ => bound,
        }
    }
}

} // verus!
