//! Building a shader program: two stages are compiled, then linked.
//!
//! The backend has to answer six times on the way (three handles, two compile
//! states, one link state), so the build is a state machine: each answer
//! moves it one phase on and yields the commands to issue and the next
//! question.

use vstd::prelude::*;

use crate::backend;
use crate::command::{trace, Command, CommandView, Diagnostic, DiagnosticView, ShaderStage};
use crate::shader::{Shader, ShaderView};
use crate::protocol::{Fault, Next, NextView, Query, QueryView, Reply, Step, StepView};

verus! {

/// The source texts of the two stages of a program.
#[derive(Debug, PartialEq, Eq)]
pub struct ShaderProgramSource {
    pub vertex: String,
    pub fragment: String,
}

/// Where a build stands: which answer it waits for.
#[derive(Debug, Clone, Copy, PartialEq, Eq, Structural)]
pub enum BuildPhase {
    /// Waiting for the handle of the program object.
    AwaitProgram,
    /// Waiting for the handle of the shader object of a stage.
    AwaitShader(ShaderStage),
    /// Waiting for the compile status of a stage.
    AwaitCompile(ShaderStage),
    /// Waiting for the compiler's log of a stage that failed.
    AwaitLog(ShaderStage),
    /// Waiting for the link status.
    AwaitLink,
    /// The program is linked and in use.
    Linked,
    /// The build was given up.
    Failed,
}

/// The handle that stands for a stage that did not compile.
pub const NO_SHADER: u32 = 0;

/// The compile status of a stage that compiled: the backend's "true".
pub const COMPILED: i32 = 1;

/// The link status of a program that did not link: the backend's "false".
pub const NOT_LINKED: i32 = 0;

/// Mathematical value of a [`ShaderBuilder`].
pub struct BuildState {
    pub phase: BuildPhase,
    pub vertex: Seq<char>,
    pub fragment: Seq<char>,
    /// Handle of the program object, once known.
    pub program: u32,
    /// Handle of the shader object that is being compiled.
    pub pending: u32,
    /// Handle of the vertex stage, or [`NO_SHADER`], once decided.
    pub vertex_shader: u32,
    /// Handle of the fragment stage, or [`NO_SHADER`], once decided.
    pub fragment_shader: u32,
}

impl BuildState {
    /// The state of a build that has just begun.
    pub open spec fn initial(vertex: Seq<char>, fragment: Seq<char>) -> BuildState {
        BuildState {
            phase: BuildPhase::AwaitProgram,
            vertex,
            fragment,
            program: 0,
            pending: 0,
            vertex_shader: NO_SHADER,
            fragment_shader: NO_SHADER,
        }
    }

    /// The source text of `stage`.
    pub open spec fn source(self, stage: ShaderStage) -> Seq<char> {
        match stage {
            ShaderStage::Vertex => self.vertex,
            ShaderStage::Fragment => self.fragment,
        }
    }

    /// The same build in another phase.
    pub open spec fn at(self, phase: BuildPhase) -> BuildState {
        BuildState { phase, ..self }
    }

    /// Attaching both stages to the program, linking and validating it.
    pub open spec fn link_commands(self, fragment_shader: u32) -> Seq<CommandView> {
        seq![
            CommandView::AttachShader { program: self.program, shader: self.vertex_shader },
            CommandView::AttachShader { program: self.program, shader: fragment_shader },
            CommandView::LinkProgram { program: self.program },
            CommandView::ValidateProgram { program: self.program },
        ]
    }

    /// What a linked program still takes: both stage objects are deleted and
    /// the program is made current.
    pub open spec fn finish_commands(self) -> Seq<CommandView> {
        seq![
            CommandView::DeleteShader { shader: self.vertex_shader },
            CommandView::DeleteShader { shader: self.fragment_shader },
            CommandView::UseProgram { program: self.program },
        ]
    }

    /// The build once `stage` is settled with `handle` (the stage's shader
    /// object, or [`NO_SHADER`]), after the commands in `settled`: the
    /// vertex stage is followed by the fragment stage, the fragment stage by
    /// the link.
    pub open spec fn stage_settled(
        self,
        stage: ShaderStage,
        handle: u32,
        settled: Seq<CommandView>,
    ) -> (BuildState, StepView) {
        match stage {
            ShaderStage::Vertex => (
                BuildState {
                    phase: BuildPhase::AwaitShader(ShaderStage::Fragment),
                    vertex_shader: handle,
                    ..self
                },
                StepView {
                    commands: settled,
                    next: NextView::Ask(QueryView::CreateShader { stage: ShaderStage::Fragment }),
                },
            ),
            ShaderStage::Fragment => (
                BuildState { phase: BuildPhase::AwaitLink, fragment_shader: handle, ..self },
                StepView {
                    commands: settled + self.link_commands(handle),
                    next: NextView::Ask(QueryView::LinkStatus { program: self.program }),
                },
            ),
        }
    }

    /// The build's reaction to an answer: the state it moves to and the step
    /// it takes.
    ///
    /// A stage that fails to compile does not stop the build: its log is
    /// fetched and reported, its shader object is deleted, and
    /// [`NO_SHADER`] stands for it from there on. A program that fails to
    /// link stops the build for good, as does an answer of the wrong kind.
    pub open spec fn step(self, reply: Reply) -> (BuildState, StepView) {
        match (self.phase, reply) {
            (BuildPhase::AwaitProgram, Reply::Handle(program)) => (
                BuildState {
                    phase: BuildPhase::AwaitShader(ShaderStage::Vertex),
                    program,
                    ..self
                },
                StepView {
                    commands: Seq::empty(),
                    next: NextView::Ask(QueryView::CreateShader { stage: ShaderStage::Vertex }),
                },
            ),
            (BuildPhase::AwaitShader(stage), Reply::Handle(shader)) => (
                BuildState { phase: BuildPhase::AwaitCompile(stage), pending: shader, ..self },
                StepView {
                    commands: seq![
                        CommandView::ShaderSource { shader, source: self.source(stage) },
                        CommandView::CompileShader { shader },
                    ],
                    next: NextView::Ask(QueryView::CompileStatus { shader }),
                },
            ),
            (BuildPhase::AwaitCompile(stage), Reply::Status(status)) => if status == COMPILED {
                self.stage_settled(stage, self.pending, Seq::empty())
            } else {
                (
                    self.at(BuildPhase::AwaitLog(stage)),
                    StepView {
                        commands: Seq::empty(),
                        next: NextView::Ask(QueryView::InfoLog { shader: self.pending }),
                    },
                )
            },
            (BuildPhase::AwaitLog(stage), Reply::Text(log)) => self.stage_settled(
                stage,
                NO_SHADER,
                seq![
                    CommandView::Log { line: DiagnosticView::CompileLog { text: log@ } },
                    CommandView::DeleteShader { shader: self.pending },
                ],
            ),
            (BuildPhase::AwaitLink, Reply::Status(status)) => if status != NOT_LINKED {
                (
                    self.at(BuildPhase::Linked),
                    StepView { commands: self.finish_commands(), next: NextView::Done },
                )
            } else {
                (
                    self.at(BuildPhase::Failed),
                    StepView {
                        commands: Seq::empty(),
                        next: NextView::Abort(Fault::LinkFailed),
                    },
                )
            },
            _ => (
                self.at(BuildPhase::Failed),
                StepView { commands: Seq::empty(), next: NextView::Abort(Fault::UnexpectedReply) },
            ),
        }
    }
}

/// The build after the answers `replies`, taken in order: the state it is
/// in, and all commands it has issued on the way.
pub open spec fn run(state: BuildState, replies: Seq<Reply>) -> (BuildState, Seq<CommandView>)
    decreases replies.len(),
{
    if replies.len() == 0 {
        (state, Seq::empty())
    } else {
        let (before, issued) = run(state, replies.drop_last());
        let (after, step) = before.step(replies.last());
        (after, issued + step.commands)
    }
}

/// A build whose stages both compile and whose program links issues, over
/// its six answers, the sources and compiles of the two stages, the
/// attaches, the link and the validation, then deletes the stage objects and
/// makes the program current. It ends linked.
pub proof fn lemma_clean_build(
    vertex: Seq<char>,
    fragment: Seq<char>,
    program: u32,
    vertex_shader: u32,
    fragment_shader: u32,
    link_status: i32,
)
    requires
        link_status != NOT_LINKED,
    ensures
        ({
            let replies = seq![
                Reply::Handle(program),
                Reply::Handle(vertex_shader),
                Reply::Status(COMPILED),
                Reply::Handle(fragment_shader),
                Reply::Status(COMPILED),
                Reply::Status(link_status),
            ];
            let (end, issued) = run(BuildState::initial(vertex, fragment), replies);
            &&& end.phase == BuildPhase::Linked
            &&& end.program == program
            &&& issued == seq![
                CommandView::ShaderSource { shader: vertex_shader, source: vertex },
                CommandView::CompileShader { shader: vertex_shader },
                CommandView::ShaderSource { shader: fragment_shader, source: fragment },
                CommandView::CompileShader { shader: fragment_shader },
                CommandView::AttachShader { program, shader: vertex_shader },
                CommandView::AttachShader { program, shader: fragment_shader },
                CommandView::LinkProgram { program },
                CommandView::ValidateProgram { program },
                CommandView::DeleteShader { shader: vertex_shader },
                CommandView::DeleteShader { shader: fragment_shader },
                CommandView::UseProgram { program },
            ]
        }),
{
    let replies = seq![
        Reply::Handle(program),
        Reply::Handle(vertex_shader),
        Reply::Status(COMPILED),
        Reply::Handle(fragment_shader),
        Reply::Status(COMPILED),
        Reply::Status(link_status),
    ];
    let r5 = replies.drop_last();
    let r4 = r5.drop_last();
    let r3 = r4.drop_last();
    let r2 = r3.drop_last();
    let r1 = r2.drop_last();
    let r0 = r1.drop_last();
    let start = BuildState::initial(vertex, fragment);
    assert(r0.len() == 0);
    assert(run(start, r0) == (start, Seq::<CommandView>::empty()));
    let (s1, c1) = run(start, r1);
    assert(r1.last() == Reply::Handle(program));
    let (s2, c2) = run(start, r2);
    assert(r2.last() == Reply::Handle(vertex_shader));
    let (s3, c3) = run(start, r3);
    assert(r3.last() == Reply::Status(COMPILED));
    let (s4, c4) = run(start, r4);
    assert(r4.last() == Reply::Handle(fragment_shader));
    let (s5, c5) = run(start, r5);
    assert(r5.last() == Reply::Status(COMPILED));
    let (s6, c6) = run(start, replies);
    assert(replies.last() == Reply::Status(link_status));
    assert(c6 =~= seq![
        CommandView::ShaderSource { shader: vertex_shader, source: vertex },
        CommandView::CompileShader { shader: vertex_shader },
        CommandView::ShaderSource { shader: fragment_shader, source: fragment },
        CommandView::CompileShader { shader: fragment_shader },
        CommandView::AttachShader { program, shader: vertex_shader },
        CommandView::AttachShader { program, shader: fragment_shader },
        CommandView::LinkProgram { program },
        CommandView::ValidateProgram { program },
        CommandView::DeleteShader { shader: vertex_shader },
        CommandView::DeleteShader { shader: fragment_shader },
        CommandView::UseProgram { program },
    ]);
}

/// A stage that fails to compile does not stop the build. Whatever status
/// other than "compiled" the backend reports, the build asks for the log;
/// with the log it reports it, deletes the stage's shader object and goes
/// on with [`NO_SHADER`] in the stage's place.
pub proof fn lemma_compile_failure_goes_on(
    state: BuildState,
    stage: ShaderStage,
    status: i32,
    log: String,
)
    requires
        state.phase == BuildPhase::AwaitCompile(stage),
        status != COMPILED,
    ensures
        ({
            let (waiting, asked) = state.step(Reply::Status(status));
            let (settled, reported) = waiting.step(Reply::Text(log));
            &&& asked == (StepView {
                commands: Seq::empty(),
                next: NextView::Ask(QueryView::InfoLog { shader: state.pending }),
            })
            &&& reported.next is Ask
            &&& reported.commands.subrange(0, 2) == seq![
                CommandView::Log { line: DiagnosticView::CompileLog { text: log@ } },
                CommandView::DeleteShader { shader: state.pending },
            ]
            &&& match stage {
                ShaderStage::Vertex => settled.vertex_shader == NO_SHADER,
                ShaderStage::Fragment => settled.fragment_shader == NO_SHADER,
            }
        }),
{
    let (waiting, asked) = state.step(Reply::Status(status));
    let (settled, reported) = waiting.step(Reply::Text(log));
    assert(reported.commands.subrange(0, 2) =~= seq![
        CommandView::Log { line: DiagnosticView::CompileLog { text: log@ } },
        CommandView::DeleteShader { shader: state.pending },
    ]);
}

/// The build stops the process for a link failure exactly when the link
/// status that the backend reports is "false".
pub proof fn lemma_link_failure_stops(state: BuildState, reply: Reply)
    ensures
        state.step(reply).1.next == NextView::Abort(Fault::LinkFailed) <==> state.phase
            == BuildPhase::AwaitLink && reply == Reply::Status(NOT_LINKED),
{
}

/// A shader program under construction.
pub struct ShaderBuilder {
    phase: BuildPhase,
    source: ShaderProgramSource,
    program: u32,
    pending: u32,
    vertex_shader: u32,
    fragment_shader: u32,
}

impl View for ShaderBuilder {
    type V = BuildState;

    closed spec fn view(&self) -> BuildState {
        BuildState {
            phase: self.phase,
            vertex: self.source.vertex@,
            fragment: self.source.fragment@,
            program: self.program,
            pending: self.pending,
            vertex_shader: self.vertex_shader,
            fragment_shader: self.fragment_shader,
        }
    }
}

impl ShaderBuilder {
    /// Begins the build of a program from `source`. The first step asks for
    /// the program object.
    pub(crate) fn begin(source: ShaderProgramSource) -> (begun: (ShaderBuilder, Step))
        ensures
            begun.0@ == BuildState::initial(source.vertex@, source.fragment@),
            begun.1@ == (StepView {
                commands: Seq::empty(),
                next: NextView::Ask(QueryView::CreateProgram),
            }),
    {
        let builder = ShaderBuilder {
            phase: BuildPhase::AwaitProgram,
            source,
            program: 0,
            pending: 0,
            vertex_shader: NO_SHADER,
            fragment_shader: NO_SHADER,
        };
        let step = Step { commands: Vec::new(), next: Next::Ask(Query::CreateProgram) };
        assert(step@.commands =~= Seq::empty());
        (builder, step)
    }

    /// The phase the build is in.
    pub fn phase(&self) -> (phase: BuildPhase)
        ensures
            phase == self@.phase,
    {
        self.phase
    }

    /// The program that the build ended in, if it ended in one.
    pub fn finish(self) -> (shader: Option<Shader>)
        ensures
            shader is Some <==> self@.phase == BuildPhase::Linked,
            shader matches Some(s) ==> s@ == (ShaderView { id: self@.program, cache: Map::empty() }),
    {
        match self.phase {
            BuildPhase::Linked => Some(Shader::linked(self.program)),
            _ => None,
        }
    }

    /// Compiles one stage: hands `shader` the stage's source text and has it
    /// compiled, then asks how that went.
    fn compile_shader(&mut self, stage: ShaderStage, shader: u32) -> (step: Step)
        requires
            old(self)@.phase == BuildPhase::AwaitShader(stage),
        ensures
            (final(self)@, step@) == old(self)@.step(Reply::Handle(shader)),
    {
        let source = match stage {
            ShaderStage::Vertex => self.source.vertex.clone(),
            ShaderStage::Fragment => self.source.fragment.clone(),
        };
        let mut commands: Vec<Command> = Vec::new();
        commands.push(Command::ShaderSource { shader, source });
        commands.push(Command::CompileShader { shader });
        self.phase = BuildPhase::AwaitCompile(stage);
        self.pending = shader;
        let step = Step { commands, next: Next::Ask(Query::CompileStatus { shader }) };
        assert(step@.commands =~= old(self)@.step(Reply::Handle(shader)).1.commands);
        step
    }

    /// Moves on from a settled stage: to the fragment stage after the vertex
    /// stage, and after the fragment stage to the link, for which both
    /// stages are attached and the program is linked and validated.
    fn settle_stage(&mut self, stage: ShaderStage, handle: u32, settled: Vec<Command>) -> (step:
        Step)
        ensures
            (final(self)@, step@) == old(self)@.stage_settled(stage, handle, trace(settled@)),
    {
        let mut commands = settled;
        match stage {
            ShaderStage::Vertex => {
                self.vertex_shader = handle;
                self.phase = BuildPhase::AwaitShader(ShaderStage::Fragment);
                let step = Step {
                    commands,
                    next: Next::Ask(Query::CreateShader { stage: ShaderStage::Fragment }),
                };
                assert(step@.commands =~= trace(settled@));
                step
            },
            ShaderStage::Fragment => {
                let program = self.program;
                commands.push(Command::AttachShader { program, shader: self.vertex_shader });
                commands.push(Command::AttachShader { program, shader: handle });
                commands.push(Command::LinkProgram { program });
                commands.push(Command::ValidateProgram { program });
                self.fragment_shader = handle;
                self.phase = BuildPhase::AwaitLink;
                let step = Step { commands, next: Next::Ask(Query::LinkStatus { program }) };
                assert(step@.commands =~= trace(settled@) + old(self)@.link_commands(handle));
                step
            },
        }
    }

    /// Gives the build up.
    fn fail(&mut self, fault: Fault) -> (step: Step)
        ensures
            final(self)@ == old(self)@.at(BuildPhase::Failed),
            step@ == (StepView { commands: Seq::empty(), next: NextView::Abort(fault) }),
    {
        self.phase = BuildPhase::Failed;
        let step = Step { commands: Vec::new(), next: Next::Abort(fault) };
        assert(step@.commands =~= Seq::empty());
        step
    }

    /// Takes the backend's answer to the pending question and moves the
    /// build on.
    pub fn step(&mut self, reply: Reply) -> (step: Step)
        ensures
            (final(self)@, step@) == old(self)@.step(reply),
    {
        match (self.phase, reply) {
            (BuildPhase::AwaitProgram, Reply::Handle(program)) => {
                self.program = program;
                self.phase = BuildPhase::AwaitShader(ShaderStage::Vertex);
                let step = Step {
                    commands: Vec::new(),
                    next: Next::Ask(Query::CreateShader { stage: ShaderStage::Vertex }),
                };
                assert(step@.commands =~= Seq::empty());
                step
            },
            (BuildPhase::AwaitShader(stage), Reply::Handle(shader)) => self.compile_shader(
                stage,
                shader,
            ),
            (BuildPhase::AwaitCompile(stage), Reply::Status(status)) => {
                if status == backend::true_code() as i32 {
                    let handle = self.pending;
                    let settled: Vec<Command> = Vec::new();
                    assert(trace(settled@) =~= Seq::empty());
                    self.settle_stage(stage, handle, settled)
                } else {
                    self.phase = BuildPhase::AwaitLog(stage);
                    let step = Step {
                        commands: Vec::new(),
                        next: Next::Ask(Query::InfoLog { shader: self.pending }),
                    };
                    assert(step@.commands =~= Seq::empty());
                    step
                }
            },
            (BuildPhase::AwaitLog(stage), Reply::Text(log)) => {
                let mut settled: Vec<Command> = Vec::new();
                settled.push(Command::Log { line: Diagnostic::CompileLog { text: log } });
                settled.push(Command::DeleteShader { shader: self.pending });
                assert(trace(settled@) =~= seq![
                    CommandView::Log { line: DiagnosticView::CompileLog { text: log@ } },
                    CommandView::DeleteShader { shader: self.pending },
                ]);
                self.settle_stage(stage, NO_SHADER, settled)
            },
            (BuildPhase::AwaitLink, Reply::Status(status)) => {
                if status != backend::false_code() as i32 {
                    let mut commands: Vec<Command> = Vec::new();
                    commands.push(Command::DeleteShader { shader: self.vertex_shader });
                    commands.push(Command::DeleteShader { shader: self.fragment_shader });
                    commands.push(Command::UseProgram { program: self.program });
                    self.phase = BuildPhase::Linked;
                    let step = Step { commands, next: Next::Done };
                    assert(step@.commands =~= old(self)@.finish_commands());
                    step
                } else {
                    self.fail(Fault::LinkFailed)
                }
            },
            _ => self.fail(Fault::UnexpectedReply),
        }
    }
}

} // verus!
