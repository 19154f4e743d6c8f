//! The traffic between the pipeline and the graphics driver: the calls the
//! pipeline asks for, the answers it takes back, and the rule that tells an
//! acceptable answer from a bridge fault.

use crate::text::is_text;
use vstd::multiset::Multiset;
use vstd::prelude::*;
use vstd::utf8::valid_utf8;

verus! {

/// The two programmable stages of the pipeline.
#[derive(Clone, Copy, Debug, PartialEq, Eq, Structural)]
pub enum Stage {
    Vertex,
    Fragment,
}

/// Numeric shader type of the vertex stage, as the driver expects it.
pub open spec fn vertex_shader_type() -> u32 {
    0x8B31
}

/// Numeric shader type of the fragment stage, as the driver expects it.
pub open spec fn fragment_shader_type() -> u32 {
    0x8B30
}

/// Reads `gl::VERTEX_SHADER`. The bindings define it as the constant
/// `0x8B31`; that value is taken on trust.
#[verifier::external_body]
fn gl_vertex_shader() -> (code: u32)
    ensures
        code == vertex_shader_type(),
{
    gl::VERTEX_SHADER
}

/// Reads `gl::FRAGMENT_SHADER`. The bindings define it as the constant
/// `0x8B30`; that value is taken on trust.
#[verifier::external_body]
fn gl_fragment_shader() -> (code: u32)
    ensures
        code == fragment_shader_type(),
{
    gl::FRAGMENT_SHADER
}

impl Stage {
    /// The shader type that names this stage in a driver call.
    pub open spec fn spec_shader_type(self) -> u32 {
        match self {
            Stage::Vertex => vertex_shader_type(),
            Stage::Fragment => fragment_shader_type(),
        }
    }

    /// The shader type that names this stage in a driver call.
    pub fn shader_type(self) -> (code: u32)
        ensures
            code == self.spec_shader_type(),
    {
        match self {
            Stage::Vertex => gl_vertex_shader(),
            Stage::Fragment => gl_fragment_shader(),
        }
    }
}

/// The error code with which the driver says that no error is pending.
pub open spec fn no_error() -> u32 {
    0
}

/// Reads `gl::NO_ERROR`. The bindings define it as the constant `0`; that
/// value is taken on trust.
#[verifier::external_body]
fn gl_no_error() -> (code: u32)
    ensures
        code == no_error(),
{
    gl::NO_ERROR
}

/// One call into the driver. Numbers that stand for floating-point values
/// carry their IEEE-754 bit patterns.
#[derive(Clone, Debug, PartialEq, Eq)]
pub enum Command {
    /// Create a shader object for `stage`; answered by its handle.
    CreateShader { stage: Stage },
    /// Replace the source text of `shader`.
    ShaderSource { shader: u32, source: String },
    /// Compile the source held by `shader`.
    CompileShader { shader: u32 },
    /// Query whether the last compilation of `shader` succeeded; answered by
    /// an integer that is zero on failure.
    GetCompileStatus { shader: u32 },
    /// Query the length of the compilation log of `shader`, terminator
    /// included.
    GetShaderLogLength { shader: u32 },
    /// Fetch the compilation log of `shader` into a buffer of `capacity`
    /// bytes.
    GetShaderInfoLog { shader: u32, capacity: i32 },
    /// Delete `shader`.
    DeleteShader { shader: u32 },
    /// Create a program object; answered by its handle.
    CreateProgram,
    /// Attach `shader` to `program`.
    AttachShader { program: u32, shader: u32 },
    /// Link what is attached to `program`.
    LinkProgram { program: u32 },
    /// Query whether the last link of `program` succeeded; answered by an
    /// integer that is zero on failure.
    GetLinkStatus { program: u32 },
    /// Query the length of the link log of `program`, terminator included.
    GetProgramLogLength { program: u32 },
    /// Fetch the link log of `program` into a buffer of `capacity` bytes.
    GetProgramInfoLog { program: u32, capacity: i32 },
    /// Delete `program`.
    DeleteProgram { program: u32 },
    /// Make `program` the active program; handle zero stands for none.
    UseProgram { program: u32 },
    /// Look up the location of the uniform called `name` in `program`;
    /// answered by an integer that is -1 where there is no such uniform.
    GetUniformLocation { program: u32, name: String },
    /// Write an integer to `location` of the active program.
    Uniform1i { location: i32, value: i32 },
    /// Write one float, given by its bits, to `location`.
    Uniform1f { location: i32, bits: u32 },
    /// Write three contiguous floats, given by their bits, to `location`.
    Uniform3fv { location: i32, vector: [u32; 3] },
    /// Write a column-major 4x4 matrix of floats, given by their bits and
    /// not to be transposed, to `location`.
    UniformMatrix4fv { location: i32, matrix: [u32; 16] },
}

/// Mathematical form of a [`Command`].
pub enum CommandView {
    CreateShader { stage: Stage },
    ShaderSource { shader: u32, source: Seq<char> },
    CompileShader { shader: u32 },
    GetCompileStatus { shader: u32 },
    GetShaderLogLength { shader: u32 },
    GetShaderInfoLog { shader: u32, capacity: i32 },
    DeleteShader { shader: u32 },
    CreateProgram,
    AttachShader { program: u32, shader: u32 },
    LinkProgram { program: u32 },
    GetLinkStatus { program: u32 },
    GetProgramLogLength { program: u32 },
    GetProgramInfoLog { program: u32, capacity: i32 },
    DeleteProgram { program: u32 },
    UseProgram { program: u32 },
    GetUniformLocation { program: u32, name: Seq<char> },
    Uniform1i { location: i32, value: i32 },
    Uniform1f { location: i32, bits: u32 },
    Uniform3fv { location: i32, vector: Seq<u32> },
    UniformMatrix4fv { location: i32, matrix: Seq<u32> },
}

impl View for Command {
    type V = CommandView;

    open spec fn view(&self) -> CommandView {
        match *self {
            Command::CreateShader { stage } => CommandView::CreateShader { stage },
            Command::ShaderSource { shader, source } => CommandView::ShaderSource {
                shader,
                source: source@,
            },
            Command::CompileShader { shader } => CommandView::CompileShader { shader },
            Command::GetCompileStatus { shader } => CommandView::GetCompileStatus { shader },
            Command::GetShaderLogLength { shader } => CommandView::GetShaderLogLength { shader },
            Command::GetShaderInfoLog { shader, capacity } => CommandView::GetShaderInfoLog {
                shader,
                capacity,
            },
            Command::DeleteShader { shader } => CommandView::DeleteShader { shader },
            Command::CreateProgram => CommandView::CreateProgram,
            Command::AttachShader { program, shader } => CommandView::AttachShader {
                program,
                shader,
            },
            Command::LinkProgram { program } => CommandView::LinkProgram { program },
            Command::GetLinkStatus { program } => CommandView::GetLinkStatus { program },
            Command::GetProgramLogLength { program } => CommandView::GetProgramLogLength {
                program,
            },
            Command::GetProgramInfoLog { program, capacity } => CommandView::GetProgramInfoLog {
                program,
                capacity,
            },
            Command::DeleteProgram { program } => CommandView::DeleteProgram { program },
            Command::UseProgram { program } => CommandView::UseProgram { program },
            Command::GetUniformLocation { program, name } => CommandView::GetUniformLocation {
                program,
                name: name@,
            },
            Command::Uniform1i { location, value } => CommandView::Uniform1i { location, value },
            Command::Uniform1f { location, bits } => CommandView::Uniform1f { location, bits },
            Command::Uniform3fv { location, vector } => CommandView::Uniform3fv {
                location,
                vector: vector@,
            },
            Command::UniformMatrix4fv { location, matrix } => CommandView::UniformMatrix4fv {
                location,
                matrix: matrix@,
            },
        }
    }
}

/// What a driver call hands back.
#[derive(Clone, Debug, PartialEq, Eq)]
pub enum Value {
    /// The call returns nothing.
    Done,
    /// The handle of a newly created object.
    Handle(u32),
    /// An integer: a status, a length or a location.
    Integer(i32),
    /// The bytes of an information log.
    Log(Vec<u8>),
}

/// Mathematical form of a [`Value`].
pub enum ValueView {
    Done,
    Handle(u32),
    Integer(i32),
    Log(Seq<u8>),
}

impl View for Value {
    type V = ValueView;

    open spec fn view(&self) -> ValueView {
        match *self {
            Value::Done => ValueView::Done,
            Value::Handle(handle) => ValueView::Handle(handle),
            Value::Integer(number) => ValueView::Integer(number),
            Value::Log(bytes) => ValueView::Log(bytes@),
        }
    }
}

/// The answer to one [`Command`]: what the call handed back, and the error
/// code that the driver reported when asked right after the call.
#[derive(Clone, Debug, PartialEq, Eq)]
pub struct Reply {
    pub error: u32,
    pub value: Value,
}

/// Mathematical form of a [`Reply`].
pub struct ReplyView {
    pub error: u32,
    pub value: ValueView,
}

impl View for Reply {
    type V = ReplyView;

    open spec fn view(&self) -> ReplyView {
        ReplyView { error: self.error, value: self.value@ }
    }
}

impl CommandView {
    /// Whether `value` has the shape and the content that a sound driver
    /// hands back for this command: a nonzero handle for a creation, a
    /// positive length for a log, well-formed UTF-8 for the log itself.
    pub open spec fn admits(self, value: ValueView) -> bool {
        match self {
            CommandView::CreateShader { .. } | CommandView::CreateProgram => {
                value matches ValueView::Handle(handle) && handle != 0
            },
            CommandView::GetCompileStatus { .. }
            | CommandView::GetLinkStatus { .. }
            | CommandView::GetUniformLocation { .. } => value is Integer,
            CommandView::GetShaderLogLength { .. } | CommandView::GetProgramLogLength { .. } => {
                value matches ValueView::Integer(length) && length > 0
            },
            CommandView::GetShaderInfoLog { .. } | CommandView::GetProgramInfoLog { .. } => {
                value matches ValueView::Log(bytes) && valid_utf8(bytes)
            },
            _ => value is Done,
        }
    }

    /// The handles that come to life when `reply` answers this command.
    pub open spec fn creates(self, reply: ReplyView) -> Multiset<u32> {
        match (self, reply.value) {
            (CommandView::CreateShader { .. }, ValueView::Handle(handle)) => Multiset::singleton(
                handle,
            ),
            (CommandView::CreateProgram, ValueView::Handle(handle)) => Multiset::singleton(handle),
            _ => Multiset::empty(),
        }
    }

    /// The handles that this command gives back to the driver.
    pub open spec fn deletes(self) -> Multiset<u32> {
        match self {
            CommandView::DeleteShader { shader } => Multiset::singleton(shader),
            CommandView::DeleteProgram { program } => Multiset::singleton(program),
            _ => Multiset::empty(),
        }
    }

    /// Whether `reply` answers this command without a bridge fault: the
    /// driver reported no error, and the value is one that the command
    /// admits.
    pub open spec fn accepts(self, reply: ReplyView) -> bool {
        reply.error == no_error() && self.admits(reply.value)
    }
}

impl Command {
    /// Tells an acceptable answer from a bridge fault. The embedding program
    /// halts on `false`; the pipeline is advanced only with replies for which
    /// this is `true`.
    pub fn accepts(&self, reply: &Reply) -> (ok: bool)
        ensures
            ok == self@.accepts(reply@),
    {
        if reply.error != gl_no_error() {
            return false;
        }
        match self {
            Command::CreateShader { .. } | Command::CreateProgram => match &reply.value {
                Value::Handle(handle) => *handle != 0,
                _ => false,
            },
            Command::GetCompileStatus { .. }
            | Command::GetLinkStatus { .. }
            | Command::GetUniformLocation { .. } => match &reply.value {
                Value::Integer(_) => true,
                _ => false,
            },
            Command::GetShaderLogLength { .. } | Command::GetProgramLogLength { .. } => match
                &reply.value {
                Value::Integer(length) => *length > 0,
                _ => false,
            },
            Command::GetShaderInfoLog { .. } | Command::GetProgramInfoLog { .. } => match
                &reply.value {
                Value::Log(bytes) => is_text(bytes),
                _ => false,
            },
            _ => match &reply.value {
                Value::Done => true,
                _ => false,
            },
        }
    }
}

/// Where a multi-step operation stands after one more reply: still waiting
/// on the driver, or finished with its result.
#[derive(Debug)]
pub enum Progress<M, T> {
    Next(M),
    Finished(T),
}

impl<M: View, T: View> View for Progress<M, Result<T, String>> {
    type V = Progress<M::V, Result<T::V, Seq<char>>>;

    open spec fn view(&self) -> Self::V {
        match *self {
            Progress::Next(machine) => Progress::Next(machine@),
            Progress::Finished(Ok(made)) => Progress::Finished(Ok(made@)),
            Progress::Finished(Err(message)) => Progress::Finished(Err(message@)),
        }
    }
}

} // verus!
