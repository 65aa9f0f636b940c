//! Questions to the graphics backend, its answers, and the shape of one step
//! of an operation that needs them.

use vstd::prelude::*;

use crate::command::{trace, Command, CommandView, ShaderStage};

verus! {

/// A backend call whose result decides what happens next.
#[derive(Debug, PartialEq, Eq)]
pub enum Query {
    /// Create a program object; answered by [`Reply::Handle`].
    CreateProgram,
    /// Create a shader object for `stage`; answered by [`Reply::Handle`].
    CreateShader { stage: ShaderStage },
    /// Compile status of `shader`; answered by [`Reply::Status`].
    CompileStatus { shader: u32 },
    /// The compiler's log for `shader`; answered by [`Reply::Text`].
    InfoLog { shader: u32 },
    /// Link status of `program`; answered by [`Reply::Status`].
    LinkStatus { program: u32 },
    /// Location of the uniform `name` in `program`; the answer goes to
    /// [`Shader::cache_location`](crate::shader::Shader::cache_location).
    UniformLocation { program: u32, name: String },
}

/// Mathematical value of a [`Query`].
pub enum QueryView {
    CreateProgram,
    CreateShader { stage: ShaderStage },
    CompileStatus { shader: u32 },
    InfoLog { shader: u32 },
    LinkStatus { program: u32 },
    UniformLocation { program: u32, name: Seq<char> },
}

impl View for Query {
    type V = QueryView;

    open spec fn view(&self) -> QueryView {
        match *self {
            Query::CreateProgram => QueryView::CreateProgram,
            Query::CreateShader { stage } => QueryView::CreateShader { stage },
            Query::CompileStatus { shader } => QueryView::CompileStatus { shader },
            Query::InfoLog { shader } => QueryView::InfoLog { shader },
            Query::LinkStatus { program } => QueryView::LinkStatus { program },
            Query::UniformLocation { program, name } => QueryView::UniformLocation {
                program,
                name: name@,
            },
        }
    }
}

/// The backend's answer to a [`Query`].
#[derive(Debug, PartialEq, Eq)]
pub enum Reply {
    /// The handle of a freshly created object.
    Handle(u32),
    /// An integer status.
    Status(i32),
    /// A text.
    Text(String),
}

/// Why an operation has to stop the process.
#[derive(Debug, Clone, Copy, PartialEq, Eq, Structural)]
pub enum Fault {
    /// The stages of a program do not link.
    LinkFailed,
    /// An answer arrived that the pending question does not call for.
    UnexpectedReply,
}

/// What follows once the commands of a step have been carried out.
#[derive(Debug, PartialEq, Eq)]
pub enum Next {
    /// Put this question to the backend and come back with the answer.
    Ask(Query),
    /// The operation is complete.
    Done,
    /// The operation cannot go on; the process must stop.
    Abort(Fault),
}

/// Mathematical value of a [`Next`].
pub enum NextView {
    Ask(QueryView),
    Done,
    Abort(Fault),
}

impl View for Next {
    type V = NextView;

    open spec fn view(&self) -> NextView {
        match *self {
            Next::Ask(query) => NextView::Ask(query@),
            Next::Done => NextView::Done,
            Next::Abort(fault) => NextView::Abort(fault),
        }
    }
}

/// One step of an operation: the commands to carry out now, in order, and
/// what follows them.
#[derive(Debug, PartialEq, Eq)]
pub struct Step {
    pub commands: Vec<Command>,
    pub next: Next,
}

/// Mathematical value of a [`Step`].
pub struct StepView {
    pub commands: Seq<CommandView>,
    pub next: NextView,
}

impl View for Step {
    type V = StepView;

    open spec fn view(&self) -> StepView {
        StepView { commands: trace(self.commands@), next: self.next@ }
    }
}

} // verus!
