//! One compilation unit: a shader object of one stage, from the request for
//! its handle to a compiled unit or a diagnostic.

use crate::driver::{Command, CommandView, Progress, Reply, ReplyView, Stage, Value, ValueView};
use crate::text::{compile_failure, compile_failure_text, decode};
use vstd::multiset::Multiset;
use vstd::prelude::*;
use vstd::utf8::decode_utf8;

verus! {

/// The driver call on which a compilation is waiting.
#[derive(Clone, Copy, Debug, PartialEq, Eq)]
pub enum UnitStep {
    /// Waiting for the handle of the new shader object.
    Create,
    /// Waiting for the source text to be uploaded.
    Upload { shader: u32 },
    /// Waiting for the compiler to run.
    Compile { shader: u32 },
    /// Waiting for the compile status.
    Status { shader: u32 },
    /// Compilation failed; waiting for the length of the log.
    LogLength { shader: u32 },
    /// Waiting for the log itself.
    Log { shader: u32, length: i32 },
    /// The diagnostic is made; waiting for the failed shader to be deleted.
    Discard { shader: u32 },
}

/// Mathematical form of a [`CompilationUnit`].
pub struct UnitView {
    pub stage: Stage,
    pub handle: u32,
}

/// Mathematical form of a [`Compilation`]. `message` is empty until the log
/// has been read.
pub struct CompilationView {
    pub stage: Stage,
    pub source: Seq<char>,
    pub step: UnitStep,
    pub message: Seq<char>,
}

impl CompilationView {
    /// A compilation of `source` for `stage`, before its first call.
    pub open spec fn start(stage: Stage, source: Seq<char>) -> CompilationView {
        CompilationView { stage, source, step: UnitStep::Create, message: Seq::empty() }
    }

    /// The call that the driver is to perform next.
    pub open spec fn pending(self) -> CommandView {
        match self.step {
            UnitStep::Create => CommandView::CreateShader { stage: self.stage },
            UnitStep::Upload { shader } => CommandView::ShaderSource {
                shader,
                source: self.source,
            },
            UnitStep::Compile { shader } => CommandView::CompileShader { shader },
            UnitStep::Status { shader } => CommandView::GetCompileStatus { shader },
            UnitStep::LogLength { shader } => CommandView::GetShaderLogLength { shader },
            UnitStep::Log { shader, length } => CommandView::GetShaderInfoLog {
                shader,
                capacity: length,
            },
            UnitStep::Discard { shader } => CommandView::DeleteShader { shader },
        }
    }

    /// This compilation waiting on `step` instead.
    pub open spec fn at(self, step: UnitStep) -> CompilationView {
        CompilationView { step, ..self }
    }

    /// Where the compilation stands once `reply` has answered the pending
    /// call. A nonzero status ends it with the unit; a zero status leads
    /// through the log to the deletion of the shader, and only then to the
    /// diagnostic. A reply of the wrong shape changes nothing.
    pub open spec fn next(self, reply: ReplyView) -> Progress<
        CompilationView,
        Result<UnitView, Seq<char>>,
    > {
        match (self.step, reply.value) {
            (UnitStep::Create, ValueView::Handle(shader)) => Progress::Next(
                self.at(UnitStep::Upload { shader }),
            ),
            (UnitStep::Upload { shader }, ValueView::Done) => Progress::Next(
                self.at(UnitStep::Compile { shader }),
            ),
            (UnitStep::Compile { shader }, ValueView::Done) => Progress::Next(
                self.at(UnitStep::Status { shader }),
            ),
            (UnitStep::Status { shader }, ValueView::Integer(status)) => if status != 0 {
                Progress::Finished(Ok(UnitView { stage: self.stage, handle: shader }))
            } else {
                Progress::Next(self.at(UnitStep::LogLength { shader }))
            },
            (UnitStep::LogLength { shader }, ValueView::Integer(length)) => Progress::Next(
                self.at(UnitStep::Log { shader, length }),
            ),
            (UnitStep::Log { shader, .. }, ValueView::Log(bytes)) => Progress::Next(
                CompilationView {
                    step: UnitStep::Discard { shader },
                    message: compile_failure_text(self.stage, decode_utf8(bytes)),
                    ..self
                },
            ),
            (UnitStep::Discard { .. }, ValueView::Done) => Progress::Finished(Err(self.message)),
            _ => Progress::Next(self),
        }
    }

    /// The handles for which this compilation answers: the shader object,
    /// from its creation on.
    pub open spec fn owned(self) -> Multiset<u32> {
        match self.step {
            UnitStep::Create => Multiset::empty(),
            UnitStep::Upload { shader }
            | UnitStep::Compile { shader }
            | UnitStep::Status { shader }
            | UnitStep::LogLength { shader }
            | UnitStep::Log { shader, .. }
            | UnitStep::Discard { shader } => Multiset::singleton(shader),
        }
    }

    /// Whether the compile status is still to be read.
    pub open spec fn undecided(self) -> bool {
        match self.step {
            UnitStep::Create
            | UnitStep::Upload { .. }
            | UnitStep::Compile { .. }
            | UnitStep::Status { .. } => true,
            _ => false,
        }
    }

    /// The greatest number of calls still to come.
    pub open spec fn remaining(self) -> nat {
        match self.step {
            UnitStep::Create => 7,
            UnitStep::Upload { .. } => 6,
            UnitStep::Compile { .. } => 5,
            UnitStep::Status { .. } => 4,
            UnitStep::LogLength { .. } => 3,
            UnitStep::Log { .. } => 2,
            UnitStep::Discard { .. } => 1,
        }
    }
}

/// The handles that the result of a compilation leaves in its owner's care.
pub open spec fn unit_outcome_owned(outcome: Result<UnitView, Seq<char>>) -> Multiset<u32> {
    match outcome {
        Ok(unit) => Multiset::singleton(unit.handle),
        Err(_) => Multiset::empty(),
    }
}

/// Every accepted reply brings a compilation strictly closer to its end, and
/// keeps the books: what was owned before plus what the call created is what
/// the call deleted plus what is owned after.
pub proof fn lemma_compilation_step(unit: CompilationView, reply: ReplyView)
    requires
        unit.pending().accepts(reply),
    ensures
        match unit.next(reply) {
            Progress::Next(after) => {
                &&& after.remaining() < unit.remaining()
                &&& after.stage == unit.stage
                &&& after.source == unit.source
                &&& unit.owned().add(unit.pending().creates(reply)) =~= unit.pending().deletes().add(
                    after.owned(),
                )
            },
            Progress::Finished(outcome) => {
                unit.owned().add(unit.pending().creates(reply)) =~= unit.pending().deletes().add(
                    unit_outcome_owned(outcome),
                )
            },
        },
{
}

/// A shader object of one stage that has compiled. It owns its handle until
/// it is released.
#[derive(Debug, PartialEq, Eq)]
pub struct CompilationUnit {
    stage: Stage,
    handle: u32,
}

impl View for CompilationUnit {
    type V = UnitView;

    closed spec fn view(&self) -> UnitView {
        UnitView { stage: self.stage, handle: self.handle }
    }
}

impl CompilationUnit {
    #[verifier::type_invariant]
    spec fn nonzero(self) -> bool {
        self.handle != 0
    }

    /// Begins the compilation of `source` for `stage`. Any text is taken,
    /// the empty one too: the driver decides what compiles.
    pub fn compile(stage: Stage, source: &str) -> (compilation: Compilation)
        ensures
            compilation@ == CompilationView::start(stage, source@),
    {
        Compilation { stage, source: source.to_owned(), step: UnitStep::Create, message: String::new() }
    }

    /// The stage that this unit was compiled for.
    pub fn stage(&self) -> (stage: Stage)
        ensures
            stage == self@.stage,
    {
        self.stage
    }

    /// The driver's handle of this unit. It is never zero: that is the
    /// handle of no object.
    pub fn handle(&self) -> (handle: u32)
        ensures
            handle == self@.handle,
            handle != 0,
    {
        proof {
            use_type_invariant(self);
        }
        self.handle
    }

    /// Gives the unit up: the call that deletes its shader object.
    pub fn release(self) -> (command: Command)
        ensures
            command@ == (CommandView::DeleteShader { shader: self@.handle }),
    {
        Command::DeleteShader { shader: self.handle }
    }
}

impl UnitStep {
    /// Whether the shader object of this step, if it has one, is a real
    /// object.
    pub open spec fn nonzero(self) -> bool {
        match self {
            UnitStep::Create => true,
            UnitStep::Upload { shader }
            | UnitStep::Compile { shader }
            | UnitStep::Status { shader }
            | UnitStep::LogLength { shader }
            | UnitStep::Log { shader, .. }
            | UnitStep::Discard { shader } => shader != 0,
        }
    }
}

/// A compilation under way. It always waits on exactly one driver call.
#[derive(Debug)]
pub struct Compilation {
    stage: Stage,
    source: String,
    step: UnitStep,
    message: String,
}

impl View for Compilation {
    type V = CompilationView;

    closed spec fn view(&self) -> CompilationView {
        CompilationView {
            stage: self.stage,
            source: self.source@,
            step: self.step,
            message: self.message@,
        }
    }
}

impl Compilation {
    #[verifier::type_invariant]
    spec fn nonzero(self) -> bool {
        self.step.nonzero()
    }

    /// The call that the driver is to perform next.
    pub fn command(&self) -> (command: Command)
        ensures
            command@ == self@.pending(),
    {
        match self.step {
            UnitStep::Create => Command::CreateShader { stage: self.stage },
            UnitStep::Upload { shader } => Command::ShaderSource {
                shader,
                source: self.source.clone(),
            },
            UnitStep::Compile { shader } => Command::CompileShader { shader },
            UnitStep::Status { shader } => Command::GetCompileStatus { shader },
            UnitStep::LogLength { shader } => Command::GetShaderLogLength { shader },
            UnitStep::Log { shader, length } => Command::GetShaderInfoLog {
                shader,
                capacity: length,
            },
            UnitStep::Discard { shader } => Command::DeleteShader { shader },
        }
    }

    /// Takes the reply to the pending call and moves on. The reply must be
    /// one that the call accepts; anything else is a bridge fault, on which
    /// the embedding program halts.
    pub fn advance(self, reply: Reply) -> (progress: Progress<
        Compilation,
        Result<CompilationUnit, String>,
    >)
        requires
            self@.pending().accepts(reply@),
        ensures
            progress@ == self@.next(reply@),
    {
        proof {
            use_type_invariant(&self);
        }
        let Compilation { stage, source, step, message } = self;
        match (step, reply.value) {
            (UnitStep::Create, Value::Handle(shader)) => Progress::Next(
                Compilation { stage, source, step: UnitStep::Upload { shader }, message },
            ),
            (UnitStep::Upload { shader }, Value::Done) => Progress::Next(
                Compilation { stage, source, step: UnitStep::Compile { shader }, message },
            ),
            (UnitStep::Compile { shader }, Value::Done) => Progress::Next(
                Compilation { stage, source, step: UnitStep::Status { shader }, message },
            ),
            (UnitStep::Status { shader }, Value::Integer(status)) => {
                if compilation_succeeded(status) {
                    Progress::Finished(Ok(CompilationUnit { stage, handle: shader }))
                } else {
                    Progress::Next(
                        Compilation { stage, source, step: UnitStep::LogLength { shader }, message },
                    )
                }
            },
            (UnitStep::LogLength { shader }, Value::Integer(length)) => Progress::Next(
                Compilation { stage, source, step: UnitStep::Log { shader, length }, message },
            ),
            (UnitStep::Log { shader, length }, Value::Log(bytes)) => match decode(&bytes) {
                Some(log) => Progress::Next(
                    Compilation {
                        stage,
                        source,
                        step: UnitStep::Discard { shader },
                        message: compile_failure(stage, log.as_str()),
                    },
                ),
                None => Progress::Next(
                    Compilation { stage, source, step: UnitStep::Log { shader, length }, message },
                ),
            },
            (UnitStep::Discard { .. }, Value::Done) => Progress::Finished(Err(message)),
            (step, _) => Progress::Next(Compilation { stage, source, step, message }),
        }
    }
}

/// Reads a compile status: the driver answers zero for a failed compilation
/// and anything else for a successful one.
pub fn compilation_succeeded(status: i32) -> (ok: bool)
    ensures
        ok == (status != 0),
{
    status != 0
}

} // verus!
