//! The program object: two compiled units linked into one executable
//! program, or a diagnostic. Linking consumes both units whatever the
//! outcome.

use crate::compile::{CompilationUnit, UnitView};
use crate::driver::{Command, CommandView, Progress, Reply, ReplyView, Value, ValueView};
use crate::text::{decode, link_failure, link_failure_text};
use vstd::multiset::Multiset;
use vstd::prelude::*;
use vstd::utf8::decode_utf8;

verus! {

/// The driver call on which a link is waiting. In the two release steps
/// `linked` holds the program where the link succeeded.
#[derive(Clone, Copy, Debug, PartialEq, Eq)]
pub enum LinkStep {
    /// Waiting for the handle of the new program object.
    Create,
    /// Waiting for the vertex unit to be attached.
    AttachVertex { program: u32 },
    /// Waiting for the fragment unit to be attached.
    AttachFragment { program: u32 },
    /// Waiting for the linker to run.
    Link { program: u32 },
    /// Waiting for the link status.
    Status { program: u32 },
    /// Linking failed; waiting for the length of the log.
    LogLength { program: u32 },
    /// Waiting for the log itself.
    Log { program: u32, length: i32 },
    /// The diagnostic is made; waiting for the failed program to be deleted.
    Discard { program: u32 },
    /// Waiting for the fragment unit to be deleted.
    ReleaseFragment { linked: Option<u32> },
    /// Waiting for the vertex unit to be deleted.
    ReleaseVertex { linked: Option<u32> },
}

/// Mathematical form of a [`Linking`]. `message` is empty until the log has
/// been read.
pub struct LinkingView {
    pub vertex: UnitView,
    pub fragment: UnitView,
    pub step: LinkStep,
    pub message: Seq<char>,
}

/// The handle that a release step still answers for, if any.
pub open spec fn linked_owned(linked: Option<u32>) -> Multiset<u32> {
    match linked {
        Some(program) => Multiset::singleton(program),
        None => Multiset::empty(),
    }
}

impl LinkingView {
    /// A link of `vertex` and `fragment`, before its first call.
    pub open spec fn start(vertex: UnitView, fragment: UnitView) -> LinkingView {
        LinkingView { vertex, fragment, step: LinkStep::Create, message: Seq::empty() }
    }

    /// The call that the driver is to perform next.
    pub open spec fn pending(self) -> CommandView {
        match self.step {
            LinkStep::Create => CommandView::CreateProgram,
            LinkStep::AttachVertex { program } => CommandView::AttachShader {
                program,
                shader: self.vertex.handle,
            },
            LinkStep::AttachFragment { program } => CommandView::AttachShader {
                program,
                shader: self.fragment.handle,
            },
            LinkStep::Link { program } => CommandView::LinkProgram { program },
            LinkStep::Status { program } => CommandView::GetLinkStatus { program },
            LinkStep::LogLength { program } => CommandView::GetProgramLogLength { program },
            LinkStep::Log { program, length } => CommandView::GetProgramInfoLog {
                program,
                capacity: length,
            },
            LinkStep::Discard { program } => CommandView::DeleteProgram { program },
            LinkStep::ReleaseFragment { .. } => CommandView::DeleteShader {
                shader: self.fragment.handle,
            },
            LinkStep::ReleaseVertex { .. } => CommandView::DeleteShader {
                shader: self.vertex.handle,
            },
        }
    }

    /// This link waiting on `step` instead.
    pub open spec fn at(self, step: LinkStep) -> LinkingView {
        LinkingView { step, ..self }
    }

    /// Where the link stands once `reply` has answered the pending call. A
    /// nonzero status keeps the program; a zero status leads through the log
    /// to the deletion of the program. Either way the fragment unit and then
    /// the vertex unit are deleted before the result is handed out. A reply
    /// of the wrong shape changes nothing.
    pub open spec fn next(self, reply: ReplyView) -> Progress<LinkingView, Result<u32, Seq<char>>> {
        match (self.step, reply.value) {
            (LinkStep::Create, ValueView::Handle(program)) => Progress::Next(
                self.at(LinkStep::AttachVertex { program }),
            ),
            (LinkStep::AttachVertex { program }, ValueView::Done) => Progress::Next(
                self.at(LinkStep::AttachFragment { program }),
            ),
            (LinkStep::AttachFragment { program }, ValueView::Done) => Progress::Next(
                self.at(LinkStep::Link { program }),
            ),
            (LinkStep::Link { program }, ValueView::Done) => Progress::Next(
                self.at(LinkStep::Status { program }),
            ),
            (LinkStep::Status { program }, ValueView::Integer(status)) => if status != 0 {
                Progress::Next(self.at(LinkStep::ReleaseFragment { linked: Some(program) }))
            } else {
                Progress::Next(self.at(LinkStep::LogLength { program }))
            },
            (LinkStep::LogLength { program }, ValueView::Integer(length)) => Progress::Next(
                self.at(LinkStep::Log { program, length }),
            ),
            (LinkStep::Log { program, .. }, ValueView::Log(bytes)) => Progress::Next(
                LinkingView {
                    step: LinkStep::Discard { program },
                    message: link_failure_text(decode_utf8(bytes)),
                    ..self
                },
            ),
            (LinkStep::Discard { .. }, ValueView::Done) => Progress::Next(
                self.at(LinkStep::ReleaseFragment { linked: None }),
            ),
            (LinkStep::ReleaseFragment { linked }, ValueView::Done) => Progress::Next(
                self.at(LinkStep::ReleaseVertex { linked }),
            ),
            (LinkStep::ReleaseVertex { linked }, ValueView::Done) => Progress::Finished(
                match linked {
                    Some(program) => Ok(program),
                    None => Err(self.message),
                },
            ),
            _ => Progress::Next(self),
        }
    }

    /// The handles for which this link answers: both units until each is
    /// deleted, and the program from its creation until it is deleted or
    /// handed out.
    pub open spec fn owned(self) -> Multiset<u32> {
        let units = Multiset::singleton(self.vertex.handle).insert(self.fragment.handle);
        match self.step {
            LinkStep::Create => units,
            LinkStep::AttachVertex { program }
            | LinkStep::AttachFragment { program }
            | LinkStep::Link { program }
            | LinkStep::Status { program }
            | LinkStep::LogLength { program }
            | LinkStep::Log { program, .. }
            | LinkStep::Discard { program } => units.insert(program),
            LinkStep::ReleaseFragment { linked } => units.add(linked_owned(linked)),
            LinkStep::ReleaseVertex { linked } => Multiset::singleton(self.vertex.handle).add(
                linked_owned(linked),
            ),
        }
    }

    /// The greatest number of calls still to come.
    pub open spec fn remaining(self) -> nat {
        match self.step {
            LinkStep::Create => 10,
            LinkStep::AttachVertex { .. } => 9,
            LinkStep::AttachFragment { .. } => 8,
            LinkStep::Link { .. } => 7,
            LinkStep::Status { .. } => 6,
            LinkStep::LogLength { .. } => 5,
            LinkStep::Log { .. } => 4,
            LinkStep::Discard { .. } => 3,
            LinkStep::ReleaseFragment { .. } => 2,
            LinkStep::ReleaseVertex { .. } => 1,
        }
    }
}

/// The handles that the result of a link leaves in its owner's care.
pub open spec fn program_outcome_owned(outcome: Result<u32, Seq<char>>) -> Multiset<u32> {
    match outcome {
        Ok(program) => Multiset::singleton(program),
        Err(_) => Multiset::empty(),
    }
}

/// Every accepted reply brings a link strictly closer to its end, and keeps
/// the books: what was owned before plus what the call created is what the
/// call deleted plus what is owned after.
pub proof fn lemma_linking_step(link: LinkingView, reply: ReplyView)
    requires
        link.pending().accepts(reply),
    ensures
        match link.next(reply) {
            Progress::Next(after) => {
                &&& after.remaining() < link.remaining()
                &&& after.vertex == link.vertex
                &&& after.fragment == link.fragment
                &&& link.owned().add(link.pending().creates(reply)) =~= link.pending().deletes().add(
                    after.owned(),
                )
            },
            Progress::Finished(outcome) => {
                link.owned().add(link.pending().creates(reply)) =~= link.pending().deletes().add(
                    program_outcome_owned(outcome),
                )
            },
        },
{
}

/// A linked program. It owns its handle until it is released.
#[derive(Debug, PartialEq, Eq)]
pub struct Program {
    id: u32,
}

impl View for Program {
    type V = u32;

    closed spec fn view(&self) -> u32 {
        self.id
    }
}

impl Program {
    #[verifier::type_invariant]
    spec fn nonzero(self) -> bool {
        self.id != 0
    }

    /// Begins the link of two compiled units. Both are consumed: whatever
    /// the outcome, their shader objects are deleted before it is handed
    /// out.
    pub fn link(vertex: CompilationUnit, fragment: CompilationUnit) -> (linking: Linking)
        ensures
            linking@ == LinkingView::start(vertex@, fragment@),
    {
        Linking { vertex, fragment, step: LinkStep::Create, message: String::new() }
    }

    /// The driver's handle of this program. It is never zero: that is the
    /// handle of no program.
    pub fn handle(&self) -> (handle: u32)
        ensures
            handle == self@,
            handle != 0,
    {
        proof {
            use_type_invariant(self);
        }
        self.id
    }

    /// Gives the program up: the call that deletes its program object.
    pub fn release(self) -> (command: Command)
        ensures
            command@ == (CommandView::DeleteProgram { program: self@ }),
    {
        Command::DeleteProgram { program: self.id }
    }
}

impl LinkStep {
    /// Whether the program object of this step, if it has one, is a real
    /// object.
    pub open spec fn nonzero(self) -> bool {
        match self {
            LinkStep::Create => true,
            LinkStep::AttachVertex { program }
            | LinkStep::AttachFragment { program }
            | LinkStep::Link { program }
            | LinkStep::Status { program }
            | LinkStep::LogLength { program }
            | LinkStep::Log { program, .. }
            | LinkStep::Discard { program } => program != 0,
            LinkStep::ReleaseFragment { linked } | LinkStep::ReleaseVertex { linked } => linked
                != Some(0u32),
        }
    }
}

/// A link under way. It always waits on exactly one driver call.
#[derive(Debug)]
pub struct Linking {
    vertex: CompilationUnit,
    fragment: CompilationUnit,
    step: LinkStep,
    message: String,
}

impl View for Linking {
    type V = LinkingView;

    closed spec fn view(&self) -> LinkingView {
        LinkingView {
            vertex: self.vertex@,
            fragment: self.fragment@,
            step: self.step,
            message: self.message@,
        }
    }
}

impl Linking {
    #[verifier::type_invariant]
    spec fn nonzero(self) -> bool {
        self.step.nonzero()
    }

    /// The call that the driver is to perform next.
    pub fn command(&self) -> (command: Command)
        ensures
            command@ == self@.pending(),
    {
        match self.step {
            LinkStep::Create => Command::CreateProgram,
            LinkStep::AttachVertex { program } => Command::AttachShader {
                program,
                shader: self.vertex.handle(),
            },
            LinkStep::AttachFragment { program } => Command::AttachShader {
                program,
                shader: self.fragment.handle(),
            },
            LinkStep::Link { program } => Command::LinkProgram { program },
            LinkStep::Status { program } => Command::GetLinkStatus { program },
            LinkStep::LogLength { program } => Command::GetProgramLogLength { program },
            LinkStep::Log { program, length } => Command::GetProgramInfoLog {
                program,
                capacity: length,
            },
            LinkStep::Discard { program } => Command::DeleteProgram { program },
            LinkStep::ReleaseFragment { .. } => Command::DeleteShader {
                shader: self.fragment.handle(),
            },
            LinkStep::ReleaseVertex { .. } => Command::DeleteShader {
                shader: self.vertex.handle(),
            },
        }
    }

    /// Takes the reply to the pending call and moves on. The reply must be
    /// one that the call accepts; anything else is a bridge fault, on which
    /// the embedding program halts.
    pub fn advance(self, reply: Reply) -> (progress: Progress<Linking, Result<Program, String>>)
        requires
            self@.pending().accepts(reply@),
        ensures
            progress@ == self@.next(reply@),
    {
        proof {
            use_type_invariant(&self);
        }
        let Linking { vertex, fragment, step, message } = self;
        match (step, reply.value) {
            (LinkStep::Create, Value::Handle(program)) => Progress::Next(
                Linking { vertex, fragment, step: LinkStep::AttachVertex { program }, message },
            ),
            (LinkStep::AttachVertex { program }, Value::Done) => Progress::Next(
                Linking { vertex, fragment, step: LinkStep::AttachFragment { program }, message },
            ),
            (LinkStep::AttachFragment { program }, Value::Done) => Progress::Next(
                Linking { vertex, fragment, step: LinkStep::Link { program }, message },
            ),
            (LinkStep::Link { program }, Value::Done) => Progress::Next(
                Linking { vertex, fragment, step: LinkStep::Status { program }, message },
            ),
            (LinkStep::Status { program }, Value::Integer(status)) => {
                let step = if link_succeeded(status) {
                    LinkStep::ReleaseFragment { linked: Some(program) }
                } else {
                    LinkStep::LogLength { program }
                };
                Progress::Next(Linking { vertex, fragment, step, message })
            },
            (LinkStep::LogLength { program }, Value::Integer(length)) => Progress::Next(
                Linking { vertex, fragment, step: LinkStep::Log { program, length }, message },
            ),
            (LinkStep::Log { program, length }, Value::Log(bytes)) => match decode(&bytes) {
                Some(log) => Progress::Next(
                    Linking {
                        vertex,
                        fragment,
                        step: LinkStep::Discard { program },
                        message: link_failure(log.as_str()),
                    },
                ),
                None => Progress::Next(
                    Linking { vertex, fragment, step: LinkStep::Log { program, length }, message },
                ),
            },
            (LinkStep::Discard { .. }, Value::Done) => Progress::Next(
                Linking { vertex, fragment, step: LinkStep::ReleaseFragment { linked: None }, message },
            ),
            (LinkStep::ReleaseFragment { linked }, Value::Done) => Progress::Next(
                Linking { vertex, fragment, step: LinkStep::ReleaseVertex { linked }, message },
            ),
            (LinkStep::ReleaseVertex { linked }, Value::Done) => Progress::Finished(
                match linked {
                    Some(program) => Ok(Program { id: program }),
                    None => Err(message),
                },
            ),
            (step, _) => Progress::Next(Linking { vertex, fragment, step, message }),
        }
    }
}

/// Reads a link status: the driver answers zero for a failed link and
/// anything else for a successful one.
pub fn link_succeeded(status: i32) -> (ok: bool)
    ensures
        ok == (status != 0),
{
    status != 0
}

} // verus!
