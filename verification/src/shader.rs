//! The shader facade: building a program from two sources, making it the
//! active program, and writing its uniforms.

use crate::compile::{
    lemma_compilation_step, Compilation, CompilationUnit, CompilationView, UnitView,
};
use crate::driver::{Command, CommandView, Progress, Reply, ReplyView, Stage, Value, ValueView};
use crate::program::{lemma_linking_step, Linking, LinkingView, Program};
use crate::text::{file_contents, file_contents_of};
use vstd::multiset::Multiset;
use vstd::prelude::*;

verus! {

/// Mathematical form of a [`Build`]: which part of the pipeline is under
/// way, and what is kept for the parts to come.
pub enum BuildView {
    /// The vertex stage is being compiled.
    Vertex { unit: CompilationView, fragment_source: Seq<char> },
    /// The vertex stage has compiled; the fragment stage is being compiled.
    Fragment { vertex: UnitView, unit: CompilationView },
    /// The fragment stage did not compile; waiting for the vertex unit to be
    /// deleted.
    ReleaseVertex { vertex: UnitView, message: Seq<char> },
    /// Both stages have compiled; the program is being linked.
    Link { link: LinkingView },
}

impl BuildView {
    /// A build from the two sources, before its first call.
    pub open spec fn start(vertex_source: Seq<char>, fragment_source: Seq<char>) -> BuildView {
        BuildView::Vertex {
            unit: CompilationView::start(Stage::Vertex, vertex_source),
            fragment_source,
        }
    }

    /// The call that the driver is to perform next.
    pub open spec fn pending(self) -> CommandView {
        match self {
            BuildView::Vertex { unit, .. } => unit.pending(),
            BuildView::Fragment { unit, .. } => unit.pending(),
            BuildView::ReleaseVertex { vertex, .. } => CommandView::DeleteShader {
                shader: vertex.handle,
            },
            BuildView::Link { link } => link.pending(),
        }
    }

    /// Where the build stands once `reply` has answered the pending call.
    /// The vertex stage comes first and its failure ends the build. The
    /// fragment stage follows; its failure ends the build once the vertex
    /// unit is deleted. The link consumes both units and its result is the
    /// result of the build. A reply of the wrong shape changes nothing.
    pub open spec fn next(self, reply: ReplyView) -> Progress<BuildView, Result<u32, Seq<char>>> {
        match self {
            BuildView::Vertex { unit, fragment_source } => match unit.next(reply) {
                Progress::Next(unit) => Progress::Next(BuildView::Vertex { unit, fragment_source }),
                Progress::Finished(Ok(vertex)) => Progress::Next(
                    BuildView::Fragment {
                        vertex,
                        unit: CompilationView::start(Stage::Fragment, fragment_source),
                    },
                ),
                Progress::Finished(Err(message)) => Progress::Finished(Err(message)),
            },
            BuildView::Fragment { vertex, unit } => match unit.next(reply) {
                Progress::Next(unit) => Progress::Next(BuildView::Fragment { vertex, unit }),
                Progress::Finished(Ok(fragment)) => Progress::Next(
                    BuildView::Link { link: LinkingView::start(vertex, fragment) },
                ),
                Progress::Finished(Err(message)) => Progress::Next(
                    BuildView::ReleaseVertex { vertex, message },
                ),
            },
            BuildView::ReleaseVertex { message, .. } => match reply.value {
                ValueView::Done => Progress::Finished(Err(message)),
                _ => Progress::Next(self),
            },
            BuildView::Link { link } => match link.next(reply) {
                Progress::Next(link) => Progress::Next(BuildView::Link { link }),
                Progress::Finished(outcome) => Progress::Finished(outcome),
            },
        }
    }

    /// The handles for which this build answers.
    pub open spec fn owned(self) -> Multiset<u32> {
        match self {
            BuildView::Vertex { unit, .. } => unit.owned(),
            BuildView::Fragment { vertex, unit } => unit.owned().insert(vertex.handle),
            BuildView::ReleaseVertex { vertex, .. } => Multiset::singleton(vertex.handle),
            BuildView::Link { link } => link.owned(),
        }
    }

    /// The greatest number of calls still to come: a stage whose status is
    /// not yet read may be followed by all that comes after it, a stage that
    /// has failed only by its own clean-up.
    pub open spec fn remaining(self) -> nat {
        match self {
            BuildView::Vertex { unit, .. } => if unit.undecided() {
                unit.remaining() + 11
            } else {
                unit.remaining()
            },
            BuildView::Fragment { unit, .. } => if unit.undecided() {
                unit.remaining() + 7
            } else {
                unit.remaining() + 1
            },
            BuildView::ReleaseVertex { .. } => 1,
            BuildView::Link { link } => link.remaining(),
        }
    }
}

/// The handles that the result of a build leaves in its owner's care: the
/// program of the shader, or nothing.
pub open spec fn outcome_owned(outcome: Result<u32, Seq<char>>) -> Multiset<u32> {
    match outcome {
        Ok(program) => Multiset::singleton(program),
        Err(_) => Multiset::empty(),
    }
}

/// Every accepted reply brings a build strictly closer to its end, and keeps
/// the books: what was owned before plus what the call created is what the
/// call deleted plus what is owned after.
pub proof fn lemma_build_step(build: BuildView, reply: ReplyView)
    requires
        build.pending().accepts(reply),
    ensures
        match build.next(reply) {
            Progress::Next(after) => {
                &&& after.remaining() < build.remaining()
                &&& build.owned().add(build.pending().creates(reply)) =~= build.pending().deletes().add(
                    after.owned(),
                )
            },
            Progress::Finished(outcome) => {
                build.owned().add(build.pending().creates(reply)) =~= build.pending().deletes().add(
                    outcome_owned(outcome),
                )
            },
        },
{
    match build {
        BuildView::Vertex { unit, .. } => {
            lemma_compilation_step(unit, reply);
        },
        BuildView::Fragment { unit, .. } => {
            lemma_compilation_step(unit, reply);
        },
        BuildView::ReleaseVertex { .. } => {},
        BuildView::Link { link } => {
            lemma_linking_step(link, reply);
        },
    }
}

/// A validated uniform location. It names a uniform of the shader that
/// looked it up and owns nothing.
#[derive(Clone, Copy, Debug, PartialEq, Eq, Structural)]
pub struct Uniform {
    id: i32,
}

impl View for Uniform {
    type V = i32;

    closed spec fn view(&self) -> i32 {
        self.id
    }
}

impl Uniform {
    #[verifier::type_invariant]
    spec fn found(self) -> bool {
        self.id != -1
    }

    /// The location in the program. It is never the driver's "not found".
    pub fn location(&self) -> (location: i32)
        ensures
            location == self@,
            location != -1,
    {
        proof {
            use_type_invariant(self);
        }
        self.id
    }
}

/// A linked shader program, the one lifetime anchor of the pipeline.
#[derive(Debug, PartialEq, Eq)]
pub struct Shader {
    program: Program,
}

impl View for Shader {
    type V = u32;

    closed spec fn view(&self) -> u32 {
        self.program@
    }
}

#[derive(Debug)]
enum Phase {
    Vertex { unit: Compilation, fragment_source: String },
    Fragment { vertex: CompilationUnit, unit: Compilation },
    ReleaseVertex { vertex: CompilationUnit, message: String },
    Link { link: Linking },
}

/// A shader being built. It always waits on exactly one driver call.
#[derive(Debug)]
pub struct Build {
    phase: Phase,
}

impl View for Build {
    type V = BuildView;

    closed spec fn view(&self) -> BuildView {
        match self.phase {
            Phase::Vertex { unit, fragment_source } => BuildView::Vertex {
                unit: unit@,
                fragment_source: fragment_source@,
            },
            Phase::Fragment { vertex, unit } => BuildView::Fragment { vertex: vertex@, unit: unit@ },
            Phase::ReleaseVertex { vertex, message } => BuildView::ReleaseVertex {
                vertex: vertex@,
                message: message@,
            },
            Phase::Link { link } => BuildView::Link { link: link@ },
        }
    }
}

impl Build {
    /// The call that the driver is to perform next.
    pub fn command(&self) -> (command: Command)
        ensures
            command@ == self@.pending(),
    {
        match &self.phase {
            Phase::Vertex { unit, .. } => unit.command(),
            Phase::Fragment { unit, .. } => unit.command(),
            Phase::ReleaseVertex { vertex, .. } => Command::DeleteShader { shader: vertex.handle() },
            Phase::Link { link } => link.command(),
        }
    }

    /// Takes the reply to the pending call and moves on. The reply must be
    /// one that the call accepts; anything else is a bridge fault, on which
    /// the embedding program halts. The build ends with the shader or with
    /// the diagnostic of the first stage that failed; by then every handle
    /// but the shader's program has been deleted.
    pub fn advance(self, reply: Reply) -> (progress: Progress<Build, Result<Shader, String>>)
        requires
            self@.pending().accepts(reply@),
        ensures
            progress@ == self@.next(reply@),
    {
        match self.phase {
            Phase::Vertex { unit, fragment_source } => match unit.advance(reply) {
                Progress::Next(unit) => Progress::Next(
                    Build { phase: Phase::Vertex { unit, fragment_source } },
                ),
                Progress::Finished(Ok(vertex)) => Progress::Next(
                    Build {
                        phase: Phase::Fragment {
                            vertex,
                            unit: CompilationUnit::compile(Stage::Fragment, fragment_source.as_str()),
                        },
                    },
                ),
                Progress::Finished(Err(message)) => Progress::Finished(Err(message)),
            },
            Phase::Fragment { vertex, unit } => match unit.advance(reply) {
                Progress::Next(unit) => Progress::Next(
                    Build { phase: Phase::Fragment { vertex, unit } },
                ),
                Progress::Finished(Ok(fragment)) => Progress::Next(
                    Build { phase: Phase::Link { link: Program::link(vertex, fragment) } },
                ),
                Progress::Finished(Err(message)) => Progress::Next(
                    Build { phase: Phase::ReleaseVertex { vertex, message } },
                ),
            },
            Phase::ReleaseVertex { vertex, message } => match reply.value {
                Value::Done => Progress::Finished(Err(message)),
                _ => Progress::Next(Build { phase: Phase::ReleaseVertex { vertex, message } }),
            },
            Phase::Link { link } => match link.advance(reply) {
                Progress::Next(link) => Progress::Next(Build { phase: Phase::Link { link } }),
                Progress::Finished(Ok(program)) => Progress::Finished(Ok(Shader { program })),
                Progress::Finished(Err(message)) => Progress::Finished(Err(message)),
            },
        }
    }
}

/// The plain form of what reading a file gave: its bytes, or the reason
/// why it could not be read.
pub open spec fn read_view(read: Result<Vec<u8>, String>) -> Result<Seq<u8>, Seq<char>> {
    match read {
        Ok(bytes) => Ok(bytes@),
        Err(reason) => Err(reason@),
    }
}

/// What loading both source files yields: the build from their texts, or
/// the diagnostic of the first file that failed, the vertex file first.
pub open spec fn build_from_files(
    vertex_path: Seq<char>,
    vertex_file: Result<Seq<u8>, Seq<char>>,
    fragment_path: Seq<char>,
    fragment_file: Result<Seq<u8>, Seq<char>>,
) -> Result<BuildView, Seq<char>> {
    match file_contents_of(vertex_path, vertex_file) {
        Err(message) => Err(message),
        Ok(vertex_source) => match file_contents_of(fragment_path, fragment_file) {
            Err(message) => Err(message),
            Ok(fragment_source) => Ok(BuildView::start(vertex_source, fragment_source)),
        },
    }
}

impl Shader {
    /// Begins the build of a shader from the contents of two files, each
    /// given by its path and by what reading it gave. A file that could not
    /// be read or that is not UTF-8 ends the attempt with a diagnostic that
    /// names its path, before any driver call.
    pub fn new_from_files(
        vertex_path: &str,
        vertex_file: Result<Vec<u8>, String>,
        fragment_path: &str,
        fragment_file: Result<Vec<u8>, String>,
    ) -> (build: Result<Build, String>)
        ensures
            (match build {
                Ok(build) => Ok(build@),
                Err(message) => Err(message@),
            }) == build_from_files(
                vertex_path@,
                read_view(vertex_file),
                fragment_path@,
                read_view(fragment_file),
            ),
    {
        let vertex_source = match file_contents(vertex_path, vertex_file) {
            Ok(text) => text,
            Err(message) => {
                return Err(message);
            },
        };
        let fragment_source = match file_contents(fragment_path, fragment_file) {
            Ok(text) => text,
            Err(message) => {
                return Err(message);
            },
        };
        Ok(Shader::new_from_source(vertex_source.as_str(), fragment_source.as_str()))
    }

    /// Begins the build of a shader from the two sources.
    pub fn new_from_source(vertex_source: &str, fragment_source: &str) -> (build: Build)
        ensures
            build@ == BuildView::start(vertex_source@, fragment_source@),
    {
        Build {
            phase: Phase::Vertex {
                unit: CompilationUnit::compile(Stage::Vertex, vertex_source),
                fragment_source: fragment_source.to_owned(),
            },
        }
    }

    /// The call that makes this shader's program the active one. It is
    /// never the call that leaves no program active.
    pub fn bind(&self) -> (command: Command)
        ensures
            command@ == (CommandView::UseProgram { program: self@ }),
            self@ != 0,
    {
        Command::UseProgram { program: self.program.handle() }
    }

    /// The call that leaves no program active.
    pub fn unbind(&self) -> (command: Command)
        ensures
            command@ == (CommandView::UseProgram { program: 0 }),
    {
        Command::UseProgram { program: 0 }
    }

    /// The call that asks for the location of the uniform called `name`.
    pub fn uniform_location(&self, name: &str) -> (command: Command)
        ensures
            command@ == (CommandView::GetUniformLocation { program: self@, name: name@ }),
    {
        Command::GetUniformLocation { program: self.program.handle(), name: name.to_owned() }
    }

    /// Reads the driver's answer to a location query. The answer -1 says
    /// that the name is no active uniform, which is no error: the result is
    /// then `None`. Every other answer is the location.
    pub fn get_uniform(&self, location: i32) -> (uniform: Option<Uniform>)
        ensures
            location == -1 ==> uniform is None,
            location != -1 ==> (uniform matches Some(found) && found@ == location),
    {
        match location {
            -1 => None,
            id => Some(Uniform { id }),
        }
    }

    /// The call that writes the integer `value` to `uniform`.
    pub fn set_uniform_i32(&self, uniform: Uniform, value: i32) -> (command: Command)
        ensures
            command@ == (CommandView::Uniform1i { location: uniform@, value }),
    {
        Command::Uniform1i { location: uniform.location(), value }
    }

    /// The call that writes one float, given by its bits, to `uniform`.
    pub fn set_uniform_f32(&self, uniform: Uniform, bits: u32) -> (command: Command)
        ensures
            command@ == (CommandView::Uniform1f { location: uniform@, bits }),
    {
        Command::Uniform1f { location: uniform.location(), bits }
    }

    /// The call that writes a vector of three floats, given by their bits
    /// in the order x, y, z, to `uniform`.
    pub fn set_uniform_vec3f(&self, uniform: Uniform, vector: [u32; 3]) -> (command: Command)
        ensures
            command@ == (CommandView::Uniform3fv { location: uniform@, vector: vector@ }),
    {
        Command::Uniform3fv { location: uniform.location(), vector }
    }

    /// The call that writes a 4x4 matrix of floats, given by their bits in
    /// column-major order, to `uniform`. The matrix is not transposed.
    pub fn set_uniform_mat4(&self, uniform: Uniform, matrix: [u32; 16]) -> (command: Command)
        ensures
            command@ == (CommandView::UniformMatrix4fv { location: uniform@, matrix: matrix@ }),
    {
        Command::UniformMatrix4fv { location: uniform.location(), matrix }
    }

    /// The driver's handle of this shader's program. It is never zero:
    /// that is the handle of no program.
    pub fn handle(&self) -> (handle: u32)
        ensures
            handle == self@,
            handle != 0,
    {
        self.program.handle()
    }

    /// Gives the shader up: the call that deletes its program.
    pub fn release(self) -> (command: Command)
        ensures
            command@ == (CommandView::DeleteProgram { program: self@ }),
    {
        self.program.release()
    }
}

} // verus!
