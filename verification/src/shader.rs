//! Shader programs, their uniforms, and materials.

use vstd::hash_map::StringHashMap;
use vstd::prelude::*;
use vstd::string::StringExecFns;

use crate::command::{trace, Command, CommandView, Diagnostic, DiagnosticView};
use crate::program::{BuildState, ShaderBuilder, ShaderProgramSource};
use crate::protocol::{Next, NextView, Query, QueryView, Step, StepView};

verus! {

/// A named input value of a shader program.
///
/// Floating-point components are given as their IEEE-754 binary32 bit
/// patterns, matrices in column-major order.
#[allow(inconsistent_fields)]
#[derive(Debug, Clone, Copy, PartialEq, Eq)]
pub enum Uniform<'a> {
    OneInteger { name: &'a str, v0: i32 },
    OneFloat { name: &'a str, v0: u32 },
    TwoFloat { name: &'a str, v0: u32, v1: u32 },
    ThreeFloat { name: &'a str, v0: u32, v1: u32, v2: u32 },
    FourFloat { name: &'a str, v0: u32, v1: u32, v2: u32, v3: u32 },
    MatrixThreeFv { name: &'a str, matrix: &'a [u32; 9] },
    MatrixFourFv { name: &'a str, matrix: &'a [u32; 16] },
}

/// The location that the backend reports for a name it does not know.
pub const NOT_FOUND: i32 = -1;

impl<'a> Uniform<'a> {
    /// The uniform's name.
    pub open spec fn spec_name(&self) -> &'a str {
        match *self {
            Uniform::OneInteger { name, .. } => name,
            Uniform::OneFloat { name, .. } => name,
            Uniform::TwoFloat { name, .. } => name,
            Uniform::ThreeFloat { name, .. } => name,
            Uniform::FourFloat { name, .. } => name,
            Uniform::MatrixThreeFv { name, .. } => name,
            Uniform::MatrixFourFv { name, .. } => name,
        }
    }

    /// The upload call that matches the uniform's tag, aimed at `location`.
    pub open spec fn upload(&self, location: i32) -> CommandView {
        match *self {
            Uniform::OneInteger { v0, .. } => CommandView::Uniform1i { location, v0 },
            Uniform::OneFloat { v0, .. } => CommandView::Uniform1f { location, v0 },
            Uniform::TwoFloat { v0, v1, .. } => CommandView::Uniform2f { location, v0, v1 },
            Uniform::ThreeFloat { v0, v1, v2, .. } => CommandView::Uniform3f {
                location,
                v0,
                v1,
                v2,
            },
            Uniform::FourFloat { v0, v1, v2, v3, .. } => CommandView::Uniform4f {
                location,
                v0,
                v1,
                v2,
                v3,
            },
            Uniform::MatrixThreeFv { matrix, .. } => CommandView::UniformMatrix3fv {
                location,
                matrix: matrix@,
            },
            Uniform::MatrixFourFv { matrix, .. } => CommandView::UniformMatrix4fv {
                location,
                matrix: matrix@,
            },
        }
    }

    /// What writing the uniform to `location` takes: the upload call, preceded
    /// by a log line when the location is [`NOT_FOUND`].
    pub open spec fn write(&self, location: i32) -> Seq<CommandView> {
        if location == NOT_FOUND {
            seq![
                CommandView::Log {
                    line: DiagnosticView::UniformNotFound { name: self.spec_name()@ },
                },
                self.upload(location),
            ]
        } else {
            seq![self.upload(location)]
        }
    }

    /// The uniform's name.
    #[verifier::when_used_as_spec(spec_name)]
    pub fn name(&self) -> (name: &'a str)
        ensures
            name == self.spec_name(),
    {
        match *self {
            Uniform::OneInteger { name, .. } => name,
            Uniform::OneFloat { name, .. } => name,
            Uniform::TwoFloat { name, .. } => name,
            Uniform::ThreeFloat { name, .. } => name,
            Uniform::FourFloat { name, .. } => name,
            Uniform::MatrixThreeFv { name, .. } => name,
            Uniform::MatrixFourFv { name, .. } => name,
        }
    }
}

/// A linked shader program together with the uniform locations resolved so far.
pub struct Shader {
    id: u32,
    uniform_cache: StringHashMap<i32>,
}

/// Mathematical value of a [`Shader`].
pub struct ShaderView {
    /// Handle of the program object.
    pub id: u32,
    /// The resolved locations, by uniform name.
    pub cache: Map<Seq<char>, i32>,
}

impl ShaderView {
    /// The step that setting `uniform` takes: with the name resolved, the
    /// write to its location; else the question for the location.
    pub open spec fn set_uniform(self, uniform: Uniform) -> StepView {
        let name = uniform.spec_name()@;
        if self.cache.contains_key(name) {
            StepView { commands: uniform.write(self.cache[name]), next: NextView::Done }
        } else {
            StepView {
                commands: Seq::empty(),
                next: NextView::Ask(QueryView::UniformLocation { program: self.id, name }),
            }
        }
    }

    /// The program after the backend has answered `location` for `name`: a
    /// name that is resolved already keeps its location.
    pub open spec fn cache_location(self, name: Seq<char>, location: i32) -> ShaderView {
        if self.cache.contains_key(name) {
            self
        } else {
            ShaderView { id: self.id, cache: self.cache.insert(name, location) }
        }
    }
}

/// The program after the backend's answers `answers`, names with their
/// locations, have been recorded in order.
pub open spec fn after_answers(shader: ShaderView, answers: Seq<(Seq<char>, i32)>) -> ShaderView
    decreases answers.len(),
{
    if answers.len() == 0 {
        shader
    } else {
        after_answers(shader, answers.drop_last()).cache_location(
            answers.last().0,
            answers.last().1,
        )
    }
}

/// A name that is resolved keeps its location whatever the backend answers
/// later, for this name or for others: looking it up again gives the same
/// location.
pub proof fn lemma_location_is_stable(
    shader: ShaderView,
    name: Seq<char>,
    answers: Seq<(Seq<char>, i32)>,
)
    requires
        shader.cache.contains_key(name),
    ensures
        after_answers(shader, answers).id == shader.id,
        after_answers(shader, answers).cache.contains_key(name),
        after_answers(shader, answers).cache[name] == shader.cache[name],
    decreases answers.len(),
{
    if answers.len() > 0 {
        lemma_location_is_stable(shader, name, answers.drop_last());
    }
}

/// The location of a name is asked for at most once: after the first
/// answer, whatever else is answered later, setting a uniform of that name
/// is a write to the location of the first answer and never a question.
pub proof fn lemma_location_asked_once(
    shader: ShaderView,
    uniform: Uniform,
    location: i32,
    answers: Seq<(Seq<char>, i32)>,
)
    requires
        !shader.cache.contains_key(uniform.spec_name()@),
    ensures
        shader.set_uniform(uniform).next == (NextView::Ask(
            QueryView::UniformLocation { program: shader.id, name: uniform.spec_name()@ },
        )),
        after_answers(
            shader.cache_location(uniform.spec_name()@, location),
            answers,
        ).set_uniform(uniform) == (StepView {
            commands: uniform.write(location),
            next: NextView::Done,
        }),
{
    lemma_location_is_stable(
        shader.cache_location(uniform.spec_name()@, location),
        uniform.spec_name()@,
        answers,
    );
}

impl View for Shader {
    type V = ShaderView;

    closed spec fn view(&self) -> ShaderView {
        ShaderView { id: self.id, cache: self.uniform_cache@ }
    }
}

impl Shader {
    /// Begins the build of a program from the source texts of its two
    /// stages. The build ends in a `Shader` once the backend has answered
    /// every question of the [`ShaderBuilder`].
    pub fn new(source: ShaderProgramSource) -> (begun: (ShaderBuilder, Step))
        ensures
            begun.0@ == BuildState::initial(source.vertex@, source.fragment@),
            begun.1@ == (StepView {
                commands: Seq::empty(),
                next: NextView::Ask(QueryView::CreateProgram),
            }),
    {
        ShaderBuilder::begin(source)
    }

    /// The linked program `id`, with no uniform location resolved yet.
    pub(crate) fn linked(id: u32) -> (shader: Shader)
        ensures
            shader@ == (ShaderView { id, cache: Map::empty() }),
    {
        Shader { id, uniform_cache: StringHashMap::new() }
    }

    /// Handle of the program object.
    pub fn id(&self) -> (id: u32)
        ensures
            id == self@.id,
    {
        self.id
    }

    /// Makes the program the current one.
    pub fn bind(&self) -> (command: Command)
        ensures
            command@ == (CommandView::UseProgram { program: self@.id }),
    {
        Command::UseProgram { program: self.id }
    }

    /// Leaves no program current.
    pub fn unbind(&self) -> (command: Command)
        ensures
            command@ == (CommandView::UseProgram { program: 0 }),
    {
        Command::UseProgram { program: 0 }
    }

    /// Gives the program up: the program object is deleted.
    pub fn delete(self) -> (command: Command)
        ensures
            command@ == (CommandView::DeleteProgram { program: self@.id }),
    {
        Command::DeleteProgram { program: self.id }
    }

    /// The cached location of `name`, if the name has been resolved.
    pub fn uniform_location(&self, name: &str) -> (location: Option<i32>)
        ensures
            location == if self@.cache.contains_key(name@) {
                Some(self@.cache[name@])
            } else {
                None
            },
    {
        match self.uniform_cache.get(name) {
            Some(location) => Some(*location),
            None => None,
        }
    }

    /// Records the backend's answer `location` for the uniform `name`. The
    /// first answer for a name stays for the program's lifetime.
    pub fn cache_location(&mut self, name: &str, location: i32)
        ensures
            final(self)@ == old(self)@.cache_location(name@, location),
    {
        if !self.uniform_cache.contains_key(name) {
            self.uniform_cache.insert(String::from_str(name), location);
        }
    }

    /// Sets `uniform` on this program: dispatches on the uniform's tag to the
    /// matching upload call, aimed at the cached location of its name. While
    /// the name is unresolved the step asks for its location instead and
    /// issues nothing.
    pub fn set_uniform(&self, uniform: &Uniform) -> (step: Step)
        ensures
            step@ == self@.set_uniform(*uniform),
    {
        let name = uniform.name();
        match self.uniform_location(name) {
            None => {
                let step = Step {
                    commands: Vec::new(),
                    next: Next::Ask(
                        Query::UniformLocation { program: self.id, name: String::from_str(name) },
                    ),
                };
                assert(step@.commands =~= Seq::empty());
                step
            },
            Some(location) => {
                let mut commands: Vec<Command> = Vec::new();
                write_uniform(&mut commands, uniform, location);
                let step = Step { commands, next: Next::Done };
                assert(step@.commands =~= uniform.write(location));
                step
            },
        }
    }
}

/// Appends to `commands` what writing `uniform` to `location` takes.
pub(crate) fn write_uniform(commands: &mut Vec<Command>, uniform: &Uniform, location: i32)
    ensures
        trace(final(commands)@) == trace(old(commands)@) + uniform.write(location),
{
    if location == NOT_FOUND {
        commands.push(
            Command::Log {
                line: Diagnostic::UniformNotFound { name: String::from_str(uniform.name()) },
            },
        );
    }
    let upload = match *uniform {
        Uniform::OneInteger { v0, .. } => Command::Uniform1i { location, v0 },
        Uniform::OneFloat { v0, .. } => Command::Uniform1f { location, v0 },
        Uniform::TwoFloat { v0, v1, .. } => Command::Uniform2f { location, v0, v1 },
        Uniform::ThreeFloat { v0, v1, v2, .. } => Command::Uniform3f { location, v0, v1, v2 },
        Uniform::FourFloat { v0, v1, v2, v3, .. } => Command::Uniform4f {
            location,
            v0,
            v1,
            v2,
            v3,
        },
        Uniform::MatrixThreeFv { matrix, .. } => Command::UniformMatrix3fv {
            location,
            matrix: *matrix,
        },
        Uniform::MatrixFourFv { matrix, .. } => Command::UniformMatrix4fv {
            location,
            matrix: *matrix,
        },
    };
    commands.push(upload);
    assert(trace(commands@) =~= trace(old(commands)@) + uniform.write(location));
}

impl ShaderView {
    /// Every one of `uniforms` has its name resolved.
    pub open spec fn resolves(self, uniforms: Seq<Uniform>) -> bool {
        forall|i: int| 0 <= i < uniforms.len() ==> self.cache.contains_key(
            #[trigger] uniforms[i].spec_name()@,
        )
    }

    /// The first of `uniforms`, from position `start` on, whose name is not
    /// resolved.
    pub open spec fn first_unresolved(self, uniforms: Seq<Uniform>, start: int) -> Option<
        Seq<char>,
    >
        decreases uniforms.len() - start,
    {
        if start < 0 || start >= uniforms.len() {
            None
        } else if !self.cache.contains_key(uniforms[start].spec_name()@) {
            Some(uniforms[start].spec_name()@)
        } else {
            self.first_unresolved(uniforms, start + 1)
        }
    }

    /// The writes of the first `n` of `uniforms`, each to the cached
    /// location of its name, in list order.
    pub open spec fn writes(self, uniforms: Seq<Uniform>, n: int) -> Seq<CommandView>
        decreases n,
    {
        if n <= 0 {
            Seq::empty()
        } else {
            self.writes(uniforms, n - 1) + uniforms[n - 1].write(
                self.cache[uniforms[n - 1].spec_name()@],
            )
        }
    }

    /// What binding a material of this program with `uniforms` takes: the
    /// program is made current, then every uniform is written, in list
    /// order.
    pub open spec fn material_commands(self, uniforms: Seq<Uniform>) -> Seq<CommandView> {
        seq![CommandView::UseProgram { program: self.id }] + self.writes(
            uniforms,
            uniforms.len() as int,
        )
    }

    /// The step that binding a material of this program with `uniforms`
    /// takes. While a name is unresolved, the step asks for the location of
    /// the first such name and issues nothing.
    pub open spec fn bind_material(self, uniforms: Seq<Uniform>) -> StepView {
        match self.first_unresolved(uniforms, 0) {
            Some(name) => StepView {
                commands: Seq::empty(),
                next: NextView::Ask(QueryView::UniformLocation { program: self.id, name }),
            },
            None => StepView { commands: self.material_commands(uniforms), next: NextView::Done },
        }
    }
}

/// What [`ShaderView::first_unresolved`] finds from position `start` on: no
/// name exactly when every uniform from there on is resolved, and else the
/// name of the uniform at the least position that is not.
pub proof fn lemma_first_unresolved(shader: ShaderView, uniforms: Seq<Uniform>, start: int)
    requires
        0 <= start <= uniforms.len(),
    ensures
        match shader.first_unresolved(uniforms, start) {
            None => forall|i: int|
                start <= i < uniforms.len() ==> shader.cache.contains_key(
                    #[trigger] uniforms[i].spec_name()@,
                ),
            Some(name) => exists|i: int|
                {
                    &&& start <= i < uniforms.len()
                    &&& name == #[trigger] uniforms[i].spec_name()@
                    &&& !shader.cache.contains_key(name)
                    &&& forall|k: int|
                        start <= k < i ==> shader.cache.contains_key(
                            #[trigger] uniforms[k].spec_name()@,
                        )
                },
        },
        start == 0 ==> (shader.first_unresolved(uniforms, 0) is None <==> shader.resolves(uniforms)),
    decreases uniforms.len() - start,
{
    if start < uniforms.len() {
        if shader.cache.contains_key(uniforms[start].spec_name()@) {
            lemma_first_unresolved(shader, uniforms, start + 1);
        }
    }
}

/// Binding a material asks for the location of a name at most once: after
/// the answer, whatever else is answered later, it never asks for that name
/// again.
pub proof fn lemma_material_asks_once(
    shader: ShaderView,
    uniforms: Seq<Uniform>,
    name: Seq<char>,
    location: i32,
    answers: Seq<(Seq<char>, i32)>,
)
    ensures
        after_answers(shader.cache_location(name, location), answers).first_unresolved(uniforms, 0)
            != Some(name),
{
    let later = after_answers(shader.cache_location(name, location), answers);
    lemma_location_is_stable(shader.cache_location(name, location), name, answers);
    lemma_first_unresolved(later, uniforms, 0);
}

/// A shader program paired with the uniform values to apply before a draw.
/// The material owns neither.
pub struct Material<'a> {
    pub shader: &'a Shader,
    pub uniforms: &'a [Uniform<'a>],
}

impl<'a> Material<'a> {
    /// Pairs `shader` with `uniforms`.
    pub fn new(shader: &'a Shader, uniforms: &'a [Uniform<'a>]) -> (material: Self)
        ensures
            material.shader == shader,
            material.uniforms == uniforms,
    {
        Material { shader, uniforms }
    }

    /// Binds the material: makes its program current and applies its
    /// uniforms in list order.
    pub fn bind(&self) -> (step: Step)
        ensures
            step@ == self.shader@.bind_material(self.uniforms@),
    {
        let shader = self.shader;
        let uniforms = self.uniforms;
        let mut i: usize = 0;
        while i < uniforms.len()
            invariant
                shader == self.shader,
                uniforms == self.uniforms,
                0 <= i <= uniforms@.len(),
                shader@.first_unresolved(uniforms@, 0) == shader@.first_unresolved(
                    uniforms@,
                    i as int,
                ),
                forall|k: int|
                    0 <= k < i ==> shader@.cache.contains_key(
                        #[trigger] uniforms@[k].spec_name()@,
                    ),
            decreases uniforms@.len() - i,
        {
            let name = uniforms[i].name();
            if shader.uniform_location(name).is_none() {
                let step = Step {
                    commands: Vec::new(),
                    next: Next::Ask(
                        Query::UniformLocation {
                            program: shader.id(),
                            name: String::from_str(name),
                        },
                    ),
                };
                assert(step@.commands =~= Seq::empty());
                assert(shader@.first_unresolved(uniforms@, i as int) == Some(name@));
                return step;
            }
            i += 1;
        }
        let mut commands: Vec<Command> = Vec::new();
        commands.push(shader.bind());
        let mut j: usize = 0;
        while j < uniforms.len()
            invariant
                0 <= j <= uniforms@.len(),
                forall|k: int|
                    0 <= k < uniforms@.len() ==> shader@.cache.contains_key(
                        #[trigger] uniforms@[k].spec_name()@,
                    ),
                trace(commands@) == seq![CommandView::UseProgram { program: shader@.id }]
                    + shader@.writes(uniforms@, j as int),
            decreases uniforms@.len() - j,
        {
            let uniform = uniforms[j];
            let location = match shader.uniform_location(uniform.name()) {
                Some(location) => location,
                None => NOT_FOUND,
            };
            write_uniform(&mut commands, &uniform, location);
            assert(trace(commands@) =~= seq![CommandView::UseProgram { program: shader@.id }]
                + shader@.writes(uniforms@, j as int + 1));
            j += 1;
        }
        Step { commands, next: Next::Done }
    }
}

} // verus!
