//! What each stage of a build adds to a session: its calls, and where the
//! build stands once the stage is through.

use crate::compile::{CompilationView, UnitStep, UnitView};
use crate::driver::{CommandView, ReplyView, Stage, ValueView};
use crate::program::{LinkStep, LinkingView};
use crate::session::{
    admitted, call_at, lemma_exchange, lemma_session_begins, result, state_after, Standing,
};
use crate::shader::BuildView;
use crate::text::{compile_failure_text, link_failure_text};
use vstd::prelude::*;
use vstd::utf8::decode_utf8;

verus! {

/// The handle that `reply` carries, where it carries one.
pub open spec fn handle_in(reply: ReplyView) -> u32 {
    match reply.value {
        ValueView::Handle(handle) => handle,
        _ => 0,
    }
}

/// The integer that `reply` carries, where it carries one.
pub open spec fn integer_in(reply: ReplyView) -> i32 {
    match reply.value {
        ValueView::Integer(number) => number,
        _ => 0,
    }
}

/// The text of the log that `reply` carries, where it carries one.
pub open spec fn log_in(reply: ReplyView) -> Seq<char> {
    match reply.value {
        ValueView::Log(bytes) => decode_utf8(bytes),
        _ => Seq::empty(),
    }
}

/// Whether `reply` carries the status of a failure.
pub open spec fn reports_failure(reply: ReplyView) -> bool {
    reply.value == ValueView::Integer(0)
}

/// The first four exchanges of every session, and where the build stands
/// before the status of the vertex stage is read.
pub(crate) proof fn lemma_vertex_attempted(
    vertex_source: Seq<char>,
    fragment_source: Seq<char>,
    replies: Seq<ReplyView>,
)
    requires
        admitted(BuildView::start(vertex_source, fragment_source), replies),
        replies.len() > 3,
    ensures
        ({
            let start = BuildView::start(vertex_source, fragment_source);
            let shader = handle_in(replies[0]);
            &&& call_at(start, replies, 0) == Some(
                CommandView::CreateShader { stage: Stage::Vertex },
            )
            &&& call_at(start, replies, 1) == Some(
                CommandView::ShaderSource { shader, source: vertex_source },
            )
            &&& call_at(start, replies, 2) == Some(CommandView::CompileShader { shader })
            &&& call_at(start, replies, 3) == Some(CommandView::GetCompileStatus { shader })
            &&& state_after(start, replies, 3) == Standing::Next(
                BuildView::Vertex {
                    unit: CompilationView::start(Stage::Vertex, vertex_source).at(
                        UnitStep::Status { shader },
                    ),
                    fragment_source,
                },
            )
        }),
{
    let start = BuildView::start(vertex_source, fragment_source);
    lemma_session_begins(start, replies);
    lemma_exchange(start, replies, 0);
    lemma_exchange(start, replies, 1);
    lemma_exchange(start, replies, 2);
    lemma_exchange(start, replies, 3);
}

/// What follows a vertex stage that did not compile.
pub(crate) proof fn lemma_vertex_failed(
    vertex_source: Seq<char>,
    fragment_source: Seq<char>,
    replies: Seq<ReplyView>,
)
    requires
        admitted(BuildView::start(vertex_source, fragment_source), replies),
        replies.len() > 3,
        reports_failure(replies[3]),
    ensures
        ({
            let start = BuildView::start(vertex_source, fragment_source);
            let shader = handle_in(replies[0]);
            &&& replies.len() <= 7
            &&& replies.len() > 4 ==> call_at(start, replies, 4) == Some(
                CommandView::GetShaderLogLength { shader },
            )
            &&& replies.len() > 5 ==> call_at(start, replies, 5) == Some(
                CommandView::GetShaderInfoLog { shader, capacity: integer_in(replies[4]) },
            )
            &&& replies.len() > 6 ==> call_at(start, replies, 6) == Some(
                CommandView::DeleteShader { shader },
            )
            &&& replies.len() < 7 ==> result(start, replies) is Next
            &&& replies.len() == 7 ==> result(start, replies) == Standing::Finished(
                Err(compile_failure_text(Stage::Vertex, log_in(replies[5]))),
            )
        }),
{
    let start = BuildView::start(vertex_source, fragment_source);
    lemma_vertex_attempted(vertex_source, fragment_source, replies);
    lemma_exchange(start, replies, 3);
    if replies.len() > 4 {
        lemma_exchange(start, replies, 4);
    }
    if replies.len() > 5 {
        lemma_exchange(start, replies, 5);
    }
    if replies.len() > 6 {
        lemma_exchange(start, replies, 6);
    }
    if replies.len() > 7 {
        lemma_exchange(start, replies, 7);
    }
}

/// The second four exchanges of a session whose vertex stage compiles, and
/// where the build stands before the status of the fragment stage is read.
pub(crate) proof fn lemma_fragment_attempted(
    vertex_source: Seq<char>,
    fragment_source: Seq<char>,
    replies: Seq<ReplyView>,
)
    requires
        admitted(BuildView::start(vertex_source, fragment_source), replies),
        replies.len() > 7,
        !reports_failure(replies[3]),
    ensures
        ({
            let start = BuildView::start(vertex_source, fragment_source);
            let vertex = handle_in(replies[0]);
            let shader = handle_in(replies[4]);
            &&& call_at(start, replies, 4) == Some(
                CommandView::CreateShader { stage: Stage::Fragment },
            )
            &&& call_at(start, replies, 5) == Some(
                CommandView::ShaderSource { shader, source: fragment_source },
            )
            &&& call_at(start, replies, 6) == Some(CommandView::CompileShader { shader })
            &&& call_at(start, replies, 7) == Some(CommandView::GetCompileStatus { shader })
            &&& state_after(start, replies, 7) == Standing::Next(
                BuildView::Fragment {
                    vertex: UnitView { stage: Stage::Vertex, handle: vertex },
                    unit: CompilationView::start(Stage::Fragment, fragment_source).at(
                        UnitStep::Status { shader },
                    ),
                },
            )
        }),
{
    let start = BuildView::start(vertex_source, fragment_source);
    lemma_vertex_attempted(vertex_source, fragment_source, replies);
    lemma_exchange(start, replies, 3);
    lemma_exchange(start, replies, 4);
    lemma_exchange(start, replies, 5);
    lemma_exchange(start, replies, 6);
    lemma_exchange(start, replies, 7);
}

/// What follows a fragment stage that did not compile.
pub(crate) proof fn lemma_fragment_failed(
    vertex_source: Seq<char>,
    fragment_source: Seq<char>,
    replies: Seq<ReplyView>,
)
    requires
        admitted(BuildView::start(vertex_source, fragment_source), replies),
        replies.len() > 7,
        !reports_failure(replies[3]),
        reports_failure(replies[7]),
    ensures
        ({
            let start = BuildView::start(vertex_source, fragment_source);
            let vertex = handle_in(replies[0]);
            let shader = handle_in(replies[4]);
            &&& replies.len() <= 12
            &&& replies.len() > 8 ==> call_at(start, replies, 8) == Some(
                CommandView::GetShaderLogLength { shader },
            )
            &&& replies.len() > 9 ==> call_at(start, replies, 9) == Some(
                CommandView::GetShaderInfoLog { shader, capacity: integer_in(replies[8]) },
            )
            &&& replies.len() > 10 ==> call_at(start, replies, 10) == Some(
                CommandView::DeleteShader { shader },
            )
            &&& replies.len() > 11 ==> call_at(start, replies, 11) == Some(
                CommandView::DeleteShader { shader: vertex },
            )
            &&& replies.len() < 12 ==> result(start, replies) is Next
            &&& replies.len() == 12 ==> result(start, replies) == Standing::Finished(
                Err(compile_failure_text(Stage::Fragment, log_in(replies[9]))),
            )
        }),
{
    let start = BuildView::start(vertex_source, fragment_source);
    lemma_fragment_attempted(vertex_source, fragment_source, replies);
    lemma_exchange(start, replies, 7);
    if replies.len() > 8 {
        lemma_exchange(start, replies, 8);
    }
    if replies.len() > 9 {
        lemma_exchange(start, replies, 9);
    }
    if replies.len() > 10 {
        lemma_exchange(start, replies, 10);
    }
    if replies.len() > 11 {
        lemma_exchange(start, replies, 11);
    }
    if replies.len() > 12 {
        lemma_exchange(start, replies, 12);
    }
}

/// The five exchanges of a link up to its status query, and where the build
/// stands before the status is read.
pub(crate) proof fn lemma_link_attempted(
    vertex_source: Seq<char>,
    fragment_source: Seq<char>,
    replies: Seq<ReplyView>,
)
    requires
        admitted(BuildView::start(vertex_source, fragment_source), replies),
        replies.len() > 12,
        !reports_failure(replies[3]),
        !reports_failure(replies[7]),
    ensures
        ({
            let start = BuildView::start(vertex_source, fragment_source);
            let vertex = handle_in(replies[0]);
            let fragment = handle_in(replies[4]);
            let program = handle_in(replies[8]);
            &&& program != 0
            &&& call_at(start, replies, 8) == Some(CommandView::CreateProgram)
            &&& call_at(start, replies, 9) == Some(
                CommandView::AttachShader { program, shader: vertex },
            )
            &&& call_at(start, replies, 10) == Some(
                CommandView::AttachShader { program, shader: fragment },
            )
            &&& call_at(start, replies, 11) == Some(CommandView::LinkProgram { program })
            &&& call_at(start, replies, 12) == Some(CommandView::GetLinkStatus { program })
            &&& state_after(start, replies, 12) == Standing::Next(
                BuildView::Link {
                    link: LinkingView::start(
                        UnitView { stage: Stage::Vertex, handle: vertex },
                        UnitView { stage: Stage::Fragment, handle: fragment },
                    ).at(LinkStep::Status { program }),
                },
            )
        }),
{
    let start = BuildView::start(vertex_source, fragment_source);
    lemma_fragment_attempted(vertex_source, fragment_source, replies);
    lemma_exchange(start, replies, 7);
    lemma_exchange(start, replies, 8);
    lemma_exchange(start, replies, 9);
    lemma_exchange(start, replies, 10);
    lemma_exchange(start, replies, 11);
    lemma_exchange(start, replies, 12);
}

/// What follows a link that failed.
pub(crate) proof fn lemma_link_failed(
    vertex_source: Seq<char>,
    fragment_source: Seq<char>,
    replies: Seq<ReplyView>,
)
    requires
        admitted(BuildView::start(vertex_source, fragment_source), replies),
        replies.len() > 12,
        !reports_failure(replies[3]),
        !reports_failure(replies[7]),
        reports_failure(replies[12]),
    ensures
        ({
            let start = BuildView::start(vertex_source, fragment_source);
            let vertex = handle_in(replies[0]);
            let fragment = handle_in(replies[4]);
            let program = handle_in(replies[8]);
            &&& replies.len() <= 18
            &&& replies.len() > 13 ==> call_at(start, replies, 13) == Some(
                CommandView::GetProgramLogLength { program },
            )
            &&& replies.len() > 14 ==> call_at(start, replies, 14) == Some(
                CommandView::GetProgramInfoLog { program, capacity: integer_in(replies[13]) },
            )
            &&& replies.len() > 15 ==> call_at(start, replies, 15) == Some(
                CommandView::DeleteProgram { program },
            )
            &&& replies.len() > 16 ==> call_at(start, replies, 16) == Some(
                CommandView::DeleteShader { shader: fragment },
            )
            &&& replies.len() > 17 ==> call_at(start, replies, 17) == Some(
                CommandView::DeleteShader { shader: vertex },
            )
            &&& replies.len() < 18 ==> result(start, replies) is Next
            &&& replies.len() == 18 ==> result(start, replies) == Standing::Finished(
                Err(link_failure_text(log_in(replies[14]))),
            )
        }),
{
    let start = BuildView::start(vertex_source, fragment_source);
    lemma_link_attempted(vertex_source, fragment_source, replies);
    lemma_exchange(start, replies, 12);
    if replies.len() > 13 {
        lemma_exchange(start, replies, 13);
    }
    if replies.len() > 14 {
        lemma_exchange(start, replies, 14);
    }
    if replies.len() > 15 {
        lemma_exchange(start, replies, 15);
    }
    if replies.len() > 16 {
        lemma_exchange(start, replies, 16);
    }
    if replies.len() > 17 {
        lemma_exchange(start, replies, 17);
    }
    if replies.len() > 18 {
        lemma_exchange(start, replies, 18);
    }
}

/// What follows a link that succeeded.
pub(crate) proof fn lemma_link_succeeded(
    vertex_source: Seq<char>,
    fragment_source: Seq<char>,
    replies: Seq<ReplyView>,
)
    requires
        admitted(BuildView::start(vertex_source, fragment_source), replies),
        replies.len() > 12,
        !reports_failure(replies[3]),
        !reports_failure(replies[7]),
        !reports_failure(replies[12]),
    ensures
        ({
            let start = BuildView::start(vertex_source, fragment_source);
            let vertex = handle_in(replies[0]);
            let fragment = handle_in(replies[4]);
            let program = handle_in(replies[8]);
            &&& replies.len() <= 15
            &&& replies.len() > 13 ==> call_at(start, replies, 13) == Some(
                CommandView::DeleteShader { shader: fragment },
            )
            &&& replies.len() > 14 ==> call_at(start, replies, 14) == Some(
                CommandView::DeleteShader { shader: vertex },
            )
            &&& replies.len() < 15 ==> result(start, replies) is Next
            &&& replies.len() == 15 ==> result(start, replies) == Standing::Finished(Ok(program))
        }),
{
    let start = BuildView::start(vertex_source, fragment_source);
    lemma_link_attempted(vertex_source, fragment_source, replies);
    lemma_exchange(start, replies, 12);
    if replies.len() > 13 {
        lemma_exchange(start, replies, 13);
    }
    if replies.len() > 14 {
        lemma_exchange(start, replies, 14);
    }
    if replies.len() > 15 {
        lemma_exchange(start, replies, 15);
    }
}

/// A session that stops before the status of the vertex stage is read has
/// not ended the build.
pub(crate) proof fn lemma_vertex_pending(
    vertex_source: Seq<char>,
    fragment_source: Seq<char>,
    replies: Seq<ReplyView>,
)
    requires
        admitted(BuildView::start(vertex_source, fragment_source), replies),
        replies.len() <= 3,
    ensures
        result(BuildView::start(vertex_source, fragment_source), replies) is Next,
{
    let start = BuildView::start(vertex_source, fragment_source);
    lemma_session_begins(start, replies);
    if replies.len() > 0 {
        lemma_exchange(start, replies, 0);
    }
    if replies.len() > 1 {
        lemma_exchange(start, replies, 1);
    }
    if replies.len() > 2 {
        lemma_exchange(start, replies, 2);
    }
}

/// A session that stops after the vertex stage has compiled and before the
/// status of the fragment stage is read has not ended the build.
pub(crate) proof fn lemma_fragment_pending(
    vertex_source: Seq<char>,
    fragment_source: Seq<char>,
    replies: Seq<ReplyView>,
)
    requires
        admitted(BuildView::start(vertex_source, fragment_source), replies),
        3 < replies.len() <= 7,
        !reports_failure(replies[3]),
    ensures
        result(BuildView::start(vertex_source, fragment_source), replies) is Next,
{
    let start = BuildView::start(vertex_source, fragment_source);
    lemma_vertex_attempted(vertex_source, fragment_source, replies);
    lemma_exchange(start, replies, 3);
    if replies.len() > 4 {
        lemma_exchange(start, replies, 4);
    }
    if replies.len() > 5 {
        lemma_exchange(start, replies, 5);
    }
    if replies.len() > 6 {
        lemma_exchange(start, replies, 6);
    }
}

/// A session that stops after both stages have compiled and before the
/// status of the link is read has not ended the build.
pub(crate) proof fn lemma_link_pending(
    vertex_source: Seq<char>,
    fragment_source: Seq<char>,
    replies: Seq<ReplyView>,
)
    requires
        admitted(BuildView::start(vertex_source, fragment_source), replies),
        7 < replies.len() <= 12,
        !reports_failure(replies[3]),
        !reports_failure(replies[7]),
    ensures
        result(BuildView::start(vertex_source, fragment_source), replies) is Next,
{
    let start = BuildView::start(vertex_source, fragment_source);
    lemma_fragment_attempted(vertex_source, fragment_source, replies);
    lemma_exchange(start, replies, 7);
    if replies.len() > 8 {
        lemma_exchange(start, replies, 8);
    }
    if replies.len() > 9 {
        lemma_exchange(start, replies, 9);
    }
    if replies.len() > 10 {
        lemma_exchange(start, replies, 10);
    }
    if replies.len() > 11 {
        lemma_exchange(start, replies, 11);
    }
}

} // verus!
