//! The four ways in which a build can go, each with the exact calls that
//! the driver sees and the result that the caller gets.

use crate::driver::{CommandView, ReplyView, Stage};
use crate::session::{
    admitted, call_at, created, deleted, lemma_failed_build_leaks_nothing, result, Standing,
};
use crate::shader::BuildView;
use crate::stages::{
    handle_in, integer_in, lemma_fragment_attempted, lemma_fragment_failed,
    lemma_fragment_pending, lemma_link_attempted, lemma_link_failed, lemma_link_pending,
    lemma_link_succeeded, lemma_vertex_attempted, lemma_vertex_failed, lemma_vertex_pending,
    log_in, reports_failure,
};
use crate::text::{compile_failure_text, link_failure_text};
use vstd::prelude::*;

verus! {

/// Whether `call` is the call at `index` of `script`.
pub open spec fn follows(call: Option<CommandView>, script: Seq<CommandView>, index: nat) -> bool {
    index < script.len() && call == Some(script[index as int])
}

/// The calls that compile one stage, up to the query of its status:
/// `shader` is the handle that the driver gave.
pub open spec fn compile_script(stage: Stage, source: Seq<char>, shader: u32) -> Seq<CommandView> {
    seq![
        CommandView::CreateShader { stage },
        CommandView::ShaderSource { shader, source },
        CommandView::CompileShader { shader },
        CommandView::GetCompileStatus { shader },
    ]
}

/// The calls that follow a failed compilation: the log is measured and
/// read, and the shader object is deleted.
pub open spec fn compile_failure_script(shader: u32, length: i32) -> Seq<CommandView> {
    seq![
        CommandView::GetShaderLogLength { shader },
        CommandView::GetShaderInfoLog { shader, capacity: length },
        CommandView::DeleteShader { shader },
    ]
}

/// The calls that link a program, up to the query of its status: `program`
/// is the handle that the driver gave.
pub open spec fn link_script(program: u32, vertex: u32, fragment: u32) -> Seq<CommandView> {
    seq![
        CommandView::CreateProgram,
        CommandView::AttachShader { program, shader: vertex },
        CommandView::AttachShader { program, shader: fragment },
        CommandView::LinkProgram { program },
        CommandView::GetLinkStatus { program },
    ]
}

/// The calls that follow a failed link: the log is measured and read, and
/// the program object is deleted.
pub open spec fn link_failure_script(program: u32, length: i32) -> Seq<CommandView> {
    seq![
        CommandView::GetProgramLogLength { program },
        CommandView::GetProgramInfoLog { program, capacity: length },
        CommandView::DeleteProgram { program },
    ]
}

/// The calls that delete both units at the end of a link, the fragment unit
/// first.
pub open spec fn release_script(vertex: u32, fragment: u32) -> Seq<CommandView> {
    seq![
        CommandView::DeleteShader { shader: fragment },
        CommandView::DeleteShader { shader: vertex },
    ]
}

/// The calls of a build whose vertex stage does not compile, in order:
/// `shader` is the handle that the driver gave, `length` the length of its
/// log.
pub open spec fn vertex_failure_script(vertex_source: Seq<char>, shader: u32, length: i32) -> Seq<
    CommandView,
> {
    compile_script(Stage::Vertex, vertex_source, shader) + compile_failure_script(shader, length)
}

/// The calls of a build whose vertex stage compiles and whose fragment
/// stage does not, in order: `vertex` and `fragment` are the handles that
/// the driver gave, `length` the length of the fragment log.
pub open spec fn fragment_failure_script(
    vertex_source: Seq<char>,
    fragment_source: Seq<char>,
    vertex: u32,
    fragment: u32,
    length: i32,
) -> Seq<CommandView> {
    compile_script(Stage::Vertex, vertex_source, vertex) + compile_script(
        Stage::Fragment,
        fragment_source,
        fragment,
    ) + compile_failure_script(fragment, length) + seq![
        CommandView::DeleteShader { shader: vertex },
    ]
}

/// The calls of a build whose stages compile and whose program does not
/// link, in order: `vertex`, `fragment` and `program` are the handles that
/// the driver gave, `length` the length of the link log.
pub open spec fn unlinked_script(
    vertex_source: Seq<char>,
    fragment_source: Seq<char>,
    vertex: u32,
    fragment: u32,
    program: u32,
    length: i32,
) -> Seq<CommandView> {
    compile_script(Stage::Vertex, vertex_source, vertex) + compile_script(
        Stage::Fragment,
        fragment_source,
        fragment,
    ) + link_script(program, vertex, fragment) + link_failure_script(program, length)
        + release_script(vertex, fragment)
}

/// The calls of a build that succeeds, in order: `vertex`, `fragment` and
/// `program` are the handles that the driver gave.
pub open spec fn success_script(
    vertex_source: Seq<char>,
    fragment_source: Seq<char>,
    vertex: u32,
    fragment: u32,
    program: u32,
) -> Seq<CommandView> {
    compile_script(Stage::Vertex, vertex_source, vertex) + compile_script(
        Stage::Fragment,
        fragment_source,
        fragment,
    ) + link_script(program, vertex, fragment) + release_script(vertex, fragment)
}

/// A build ends in one of four ways and in no other: the vertex stage does
/// not compile, or the fragment stage does not, or the program does not
/// link, or the shader is made. The statuses that the driver reports decide
/// which, and with it the number of calls.
pub proof fn lemma_four_ways(
    vertex_source: Seq<char>,
    fragment_source: Seq<char>,
    replies: Seq<ReplyView>,
)
    requires
        admitted(BuildView::start(vertex_source, fragment_source), replies),
        result(BuildView::start(vertex_source, fragment_source), replies) is Finished,
    ensures
        ({
            ||| replies.len() == 7 && reports_failure(replies[3])
            ||| replies.len() == 12 && !reports_failure(replies[3]) && reports_failure(replies[7])
            ||| replies.len() == 18 && !reports_failure(replies[3]) && !reports_failure(replies[7])
                && reports_failure(replies[12])
            ||| replies.len() == 15 && !reports_failure(replies[3]) && !reports_failure(replies[7])
                && !reports_failure(replies[12])
        }),
{
    if replies.len() <= 3 {
        lemma_vertex_pending(vertex_source, fragment_source, replies);
    } else if reports_failure(replies[3]) {
        lemma_vertex_failed(vertex_source, fragment_source, replies);
    } else if replies.len() <= 7 {
        lemma_fragment_pending(vertex_source, fragment_source, replies);
    } else if reports_failure(replies[7]) {
        lemma_fragment_failed(vertex_source, fragment_source, replies);
    } else if replies.len() <= 12 {
        lemma_link_pending(vertex_source, fragment_source, replies);
    } else if reports_failure(replies[12]) {
        lemma_link_failed(vertex_source, fragment_source, replies);
    } else {
        lemma_link_succeeded(vertex_source, fragment_source, replies);
    }
}

/// A vertex source that does not compile ends the build. The fourth reply
/// of a session answers the status query of the vertex stage; where it
/// reports a failure, the session holds the seven calls of the vertex stage
/// and no other, so the fragment source never reaches the driver, and its
/// result is the vertex heading followed by the driver's log.
pub proof fn lemma_vertex_failure(
    vertex_source: Seq<char>,
    fragment_source: Seq<char>,
    replies: Seq<ReplyView>,
)
    requires
        admitted(BuildView::start(vertex_source, fragment_source), replies),
        replies.len() > 3,
        reports_failure(replies[3]),
    ensures
        ({
            let start = BuildView::start(vertex_source, fragment_source);
            let script = vertex_failure_script(
                vertex_source,
                handle_in(replies[0]),
                integer_in(replies[4]),
            );
            &&& replies.len() <= 7
            &&& forall|index: nat|
                index < replies.len() ==> follows(
                    #[trigger] call_at(start, replies, index),
                    script,
                    index,
                )
            &&& replies.len() < 7 ==> result(start, replies) is Next
            &&& replies.len() == 7 ==> result(start, replies) == Standing::Finished(
                Err(compile_failure_text(Stage::Vertex, log_in(replies[5]))),
            )
        }),
{
    lemma_vertex_attempted(vertex_source, fragment_source, replies);
    lemma_vertex_failed(vertex_source, fragment_source, replies);
}

/// A fragment source that does not compile ends the build. Where the vertex
/// stage compiles, the eighth reply of a session answers the status query
/// of the fragment stage; where it reports a failure, the session holds the
/// twelve calls of the script and no other: no program is ever created,
/// both shader objects are deleted, and the result is the fragment heading
/// followed by the driver's log.
pub proof fn lemma_fragment_failure(
    vertex_source: Seq<char>,
    fragment_source: Seq<char>,
    replies: Seq<ReplyView>,
)
    requires
        admitted(BuildView::start(vertex_source, fragment_source), replies),
        replies.len() > 7,
        !reports_failure(replies[3]),
        reports_failure(replies[7]),
    ensures
        ({
            let start = BuildView::start(vertex_source, fragment_source);
            let script = fragment_failure_script(
                vertex_source,
                fragment_source,
                handle_in(replies[0]),
                handle_in(replies[4]),
                integer_in(replies[8]),
            );
            &&& replies.len() <= 12
            &&& forall|index: nat|
                index < replies.len() ==> follows(
                    #[trigger] call_at(start, replies, index),
                    script,
                    index,
                )
            &&& replies.len() < 12 ==> result(start, replies) is Next
            &&& replies.len() == 12 ==> result(start, replies) == Standing::Finished(
                Err(compile_failure_text(Stage::Fragment, log_in(replies[9]))),
            )
        }),
{
    lemma_vertex_attempted(vertex_source, fragment_source, replies);
    lemma_fragment_attempted(vertex_source, fragment_source, replies);
    lemma_fragment_failed(vertex_source, fragment_source, replies);
}

/// Two sources that compile but do not link end the build with the link
/// diagnostic. Where both stages compile, the thirteenth reply of a session
/// answers the status query of the link; where it reports a failure, the
/// session holds the eighteen calls of the script and no other, its result
/// is the link heading followed by the driver's log, and by then every
/// handle that was created has been deleted.
pub proof fn lemma_link_failure(
    vertex_source: Seq<char>,
    fragment_source: Seq<char>,
    replies: Seq<ReplyView>,
)
    requires
        admitted(BuildView::start(vertex_source, fragment_source), replies),
        replies.len() > 12,
        !reports_failure(replies[3]),
        !reports_failure(replies[7]),
        reports_failure(replies[12]),
    ensures
        ({
            let start = BuildView::start(vertex_source, fragment_source);
            let script = unlinked_script(
                vertex_source,
                fragment_source,
                handle_in(replies[0]),
                handle_in(replies[4]),
                handle_in(replies[8]),
                integer_in(replies[13]),
            );
            &&& replies.len() <= 18
            &&& forall|index: nat|
                index < replies.len() ==> follows(
                    #[trigger] call_at(start, replies, index),
                    script,
                    index,
                )
            &&& replies.len() < 18 ==> result(start, replies) is Next
            &&& replies.len() == 18 ==> {
                &&& result(start, replies) == Standing::Finished(
                    Err(link_failure_text(log_in(replies[14]))),
                )
                &&& created(start, replies, 18) =~= deleted(start, replies, 18)
            }
        }),
{
    lemma_vertex_attempted(vertex_source, fragment_source, replies);
    lemma_fragment_attempted(vertex_source, fragment_source, replies);
    lemma_link_attempted(vertex_source, fragment_source, replies);
    lemma_link_failed(vertex_source, fragment_source, replies);
    if replies.len() == 18 {
        lemma_failed_build_leaks_nothing(vertex_source, fragment_source, replies);
    }
}

/// Two sources that compile and link give a shader. Where no status reports
/// a failure, the session holds the fifteen calls of the script and no
/// other, no log is ever read, and its result is the shader of the program
/// that the driver created, which is not the handle that stands for no
/// program.
pub proof fn lemma_success(
    vertex_source: Seq<char>,
    fragment_source: Seq<char>,
    replies: Seq<ReplyView>,
)
    requires
        admitted(BuildView::start(vertex_source, fragment_source), replies),
        replies.len() > 12,
        !reports_failure(replies[3]),
        !reports_failure(replies[7]),
        !reports_failure(replies[12]),
    ensures
        ({
            let start = BuildView::start(vertex_source, fragment_source);
            let script = success_script(
                vertex_source,
                fragment_source,
                handle_in(replies[0]),
                handle_in(replies[4]),
                handle_in(replies[8]),
            );
            &&& replies.len() <= 15
            &&& forall|index: nat|
                index < replies.len() ==> follows(
                    #[trigger] call_at(start, replies, index),
                    script,
                    index,
                )
            &&& replies.len() < 15 ==> result(start, replies) is Next
            &&& replies.len() == 15 ==> result(start, replies) == Standing::Finished(
                Ok(handle_in(replies[8])),
            )
            &&& handle_in(replies[8]) != 0
        }),
{
    lemma_vertex_attempted(vertex_source, fragment_source, replies);
    lemma_fragment_attempted(vertex_source, fragment_source, replies);
    lemma_link_attempted(vertex_source, fragment_source, replies);
    lemma_link_succeeded(vertex_source, fragment_source, replies);
}

} // verus!
