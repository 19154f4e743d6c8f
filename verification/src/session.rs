//! Whole sessions: a build together with every reply that the driver gave
//! it. The laws below hold of every session whose replies were accepted.

use crate::driver::{Command, CommandView, Progress, Reply, ReplyView};
use crate::shader::{lemma_build_step, outcome_owned, Build, BuildView, Shader};
use vstd::multiset::Multiset;
use vstd::prelude::*;

verus! {

/// Where a build stands: under way, or finished with a program handle or a
/// diagnostic.
pub type Standing = Progress<BuildView, Result<u32, Seq<char>>>;

/// Where the build that began at `start` stands after the first `count`
/// replies. Once finished it stays as it is.
#[verifier::opaque]
pub open spec fn state_after(start: BuildView, replies: Seq<ReplyView>, count: nat) -> Standing
    decreases count,
{
    if count == 0 {
        Progress::Next(start)
    } else {
        match state_after(start, replies, (count - 1) as nat) {
            Progress::Next(build) => build.next(replies[count - 1]),
            Progress::Finished(outcome) => Progress::Finished(outcome),
        }
    }
}

/// The call that the reply at `index` answers, if the build is still under
/// way there.
pub open spec fn call_at(start: BuildView, replies: Seq<ReplyView>, index: nat) -> Option<
    CommandView,
> {
    match state_after(start, replies, index) {
        Progress::Next(build) => Some(build.pending()),
        Progress::Finished(_) => None,
    }
}

/// Whether the reply at `index` is an accepted answer to the call pending
/// at its turn.
pub open spec fn admitted_at(start: BuildView, replies: Seq<ReplyView>, index: nat) -> bool {
    match call_at(start, replies, index) {
        Some(call) => call.accepts(replies[index as int]),
        None => false,
    }
}

/// Whether `replies` are a session of the build that began at `start`:
/// every reply is an accepted answer to the call pending at its turn, and
/// none comes after the end of the build.
pub open spec fn admitted(start: BuildView, replies: Seq<ReplyView>) -> bool {
    forall|index: nat| index < replies.len() ==> admitted_at(start, replies, index)
}

/// Where the build stands at the end of the session.
pub open spec fn result(start: BuildView, replies: Seq<ReplyView>) -> Standing {
    state_after(start, replies, replies.len())
}

/// The handles that have come to life within the first `count` exchanges.
pub open spec fn created(start: BuildView, replies: Seq<ReplyView>, count: nat) -> Multiset<u32>
    decreases count,
{
    if count == 0 {
        Multiset::empty()
    } else {
        let earlier = created(start, replies, (count - 1) as nat);
        match call_at(start, replies, (count - 1) as nat) {
            Some(call) => earlier.add(call.creates(replies[count - 1])),
            None => earlier,
        }
    }
}

/// The handles that have been given back within the first `count`
/// exchanges.
pub open spec fn deleted(start: BuildView, replies: Seq<ReplyView>, count: nat) -> Multiset<u32>
    decreases count,
{
    if count == 0 {
        Multiset::empty()
    } else {
        let earlier = deleted(start, replies, (count - 1) as nat);
        match call_at(start, replies, (count - 1) as nat) {
            Some(call) => earlier.add(call.deletes()),
            None => earlier,
        }
    }
}

/// The handles for which a build answers where it stands.
pub open spec fn standing_owned(standing: Standing) -> Multiset<u32> {
    match standing {
        Progress::Next(build) => build.owned(),
        Progress::Finished(outcome) => outcome_owned(outcome),
    }
}

/// The greatest number of calls still to come from where a build stands.
pub open spec fn standing_remaining(standing: Standing) -> nat {
    match standing {
        Progress::Next(build) => build.remaining(),
        Progress::Finished(_) => 0,
    }
}

/// At every point of a session the books balance: what the build owned at
/// the start plus every handle created since is every handle deleted since
/// plus what the build owns now. And the build has come closer to its end
/// by at least one call per reply.
pub proof fn lemma_books_balance(start: BuildView, replies: Seq<ReplyView>, count: nat)
    requires
        admitted(start, replies),
        count <= replies.len(),
    ensures
        start.owned().add(created(start, replies, count)) =~= deleted(start, replies, count).add(
            standing_owned(state_after(start, replies, count)),
        ),
        count + standing_remaining(state_after(start, replies, count)) <= start.remaining(),
    decreases count,
{
    reveal(state_after);
    if count > 0 {
        let index = (count - 1) as nat;
        lemma_books_balance(start, replies, index);
        assert(admitted_at(start, replies, index));
        let build = state_after(start, replies, index)->Next_0;
        let reply = replies[index as int];
        lemma_build_step(build, reply);
        let call = build.pending();
        let earlier = start.owned().add(created(start, replies, index));
        let settled = deleted(start, replies, index).add(build.owned());
        let entered = build.owned().add(call.creates(reply));
        let left = call.deletes().add(standing_owned(state_after(start, replies, count)));
        assert forall|handle: u32|
            start.owned().add(created(start, replies, count)).count(handle) == deleted(
                start,
                replies,
                count,
            ).add(standing_owned(state_after(start, replies, count))).count(handle) by {
            assert(earlier.count(handle) == settled.count(handle));
            assert(entered.count(handle) == left.count(handle));
        }
    }
}

/// A build ends after at most eighteen driver calls, whatever the driver
/// answers.
pub proof fn lemma_build_ends(
    vertex_source: Seq<char>,
    fragment_source: Seq<char>,
    replies: Seq<ReplyView>,
)
    requires
        admitted(BuildView::start(vertex_source, fragment_source), replies),
    ensures
        replies.len() <= 18,
{
    lemma_books_balance(BuildView::start(vertex_source, fragment_source), replies, replies.len());
}

/// A build that fails leaks nothing: when it ends with a diagnostic, every
/// handle that the driver created for it has been deleted.
pub proof fn lemma_failed_build_leaks_nothing(
    vertex_source: Seq<char>,
    fragment_source: Seq<char>,
    replies: Seq<ReplyView>,
)
    requires
        admitted(BuildView::start(vertex_source, fragment_source), replies),
        result(BuildView::start(vertex_source, fragment_source), replies) matches Progress::Finished(
            Err(_),
        ),
    ensures
        created(BuildView::start(vertex_source, fragment_source), replies, replies.len())
            =~= deleted(BuildView::start(vertex_source, fragment_source), replies, replies.len()),
{
    let start = BuildView::start(vertex_source, fragment_source);
    lemma_books_balance(start, replies, replies.len());
    let made = created(start, replies, replies.len());
    let gone = deleted(start, replies, replies.len());
    assert forall|handle: u32| made.count(handle) == gone.count(handle) by {
        assert(start.owned().add(made).count(handle) == gone.add(
            standing_owned(result(start, replies)),
        ).count(handle));
    }
}

/// The life of a shader is balanced: when a build ends with a shader, the
/// handles created for it are the handles deleted during the build together
/// with the one that releasing the shader deletes. Binding and unbinding
/// create and delete nothing.
pub proof fn lemma_shader_life_is_balanced(
    vertex_source: Seq<char>,
    fragment_source: Seq<char>,
    replies: Seq<ReplyView>,
    program: u32,
)
    requires
        admitted(BuildView::start(vertex_source, fragment_source), replies),
        result(BuildView::start(vertex_source, fragment_source), replies) matches Progress::Finished(
            Ok(handle),
        ) && handle == program,
    ensures
        ({
            let start = BuildView::start(vertex_source, fragment_source);
            let bind = CommandView::UseProgram { program };
            let unbind = CommandView::UseProgram { program: 0 };
            let release = CommandView::DeleteProgram { program };
            &&& created(start, replies, replies.len()) =~= deleted(
                start,
                replies,
                replies.len(),
            ).add(release.deletes())
            &&& bind.deletes() =~= Multiset::empty()
            &&& unbind.deletes() =~= Multiset::empty()
            &&& forall|reply: ReplyView| #[trigger] bind.creates(reply) =~= Multiset::empty()
            &&& forall|reply: ReplyView| #[trigger] unbind.creates(reply) =~= Multiset::empty()
        }),
{
    let start = BuildView::start(vertex_source, fragment_source);
    lemma_books_balance(start, replies, replies.len());
    let made = created(start, replies, replies.len());
    let gone = deleted(start, replies, replies.len());
    let release = CommandView::DeleteProgram { program };
    assert forall|handle: u32| made.count(handle) == gone.add(release.deletes()).count(handle) by {
        assert(start.owned().add(made).count(handle) == gone.add(
            standing_owned(result(start, replies)),
        ).count(handle));
    }
}

/// One exchange of a session: the build is under way, the reply is an
/// accepted answer to its pending call, and the build moves on by it.
pub proof fn lemma_exchange(start: BuildView, replies: Seq<ReplyView>, index: nat)
    requires
        admitted(start, replies),
        index < replies.len(),
    ensures
        state_after(start, replies, index) matches Progress::Next(build) && build.pending().accepts(
            replies[index as int],
        ) && state_after(start, replies, index + 1) == build.next(replies[index as int]),
{
    reveal(state_after);
    assert(admitted_at(start, replies, index));
}

/// Replies that come later have no bearing on where a build stood before
/// them.
pub proof fn lemma_prefix_decides(
    start: BuildView,
    replies: Seq<ReplyView>,
    longer: Seq<ReplyView>,
    count: nat,
)
    requires
        replies.is_prefix_of(longer),
        count <= replies.len(),
    ensures
        state_after(start, longer, count) == state_after(start, replies, count),
    decreases count,
{
    reveal(state_after);
    if count > 0 {
        lemma_prefix_decides(start, replies, longer, (count - 1) as nat);
    }
}

/// Before any reply a build stands where it began.
pub proof fn lemma_session_begins(start: BuildView, replies: Seq<ReplyView>)
    ensures
        state_after(start, replies, 0) == Standing::Next(start),
{
    reveal(state_after);
}

/// A session stays a session when one more accepted reply answers the call
/// on which the build waits at its end.
pub proof fn lemma_session_grows(start: BuildView, replies: Seq<ReplyView>, reply: ReplyView)
    requires
        admitted(start, replies),
        result(start, replies) matches Progress::Next(build) && build.pending().accepts(reply),
    ensures
        admitted(start, replies.push(reply)),
        result(start, replies.push(reply)) == result(start, replies)->Next_0.next(reply),
{
    reveal(state_after);
    let longer = replies.push(reply);
    assert(replies.is_prefix_of(longer));
    lemma_prefix_decides(start, replies, longer, replies.len());
    assert forall|index: nat| index < longer.len() implies admitted_at(start, longer, index) by {
        if index < replies.len() {
            lemma_prefix_decides(start, replies, longer, index);
            assert(admitted_at(start, replies, index));
        }
    }
}

/// The result of a finished build, in the form in which sessions speak of
/// it.
pub open spec fn finished(outcome: Result<Shader, String>) -> Standing {
    match outcome {
        Ok(shader) => Progress::Finished(Ok(shader@)),
        Err(message) => Progress::Finished(Err(message@)),
    }
}

impl Build {
    /// Drives the build to its end. `driver` performs one call and hands
    /// back its reply; it halts the program itself on a bridge fault, so
    /// every reply that it hands back is accepted. The calls that it sees
    /// and the replies that it gives form a session of this build, and the
    /// outcome is the result of that session: what holds of every session
    /// holds of this run.
    pub fn run<D: Fn(&Command) -> Reply>(self, driver: D) -> (outcome: Result<Shader, String>)
        requires
            forall|command: &Command| #[trigger] driver.requires((command,)),
            forall|command: &Command, reply: Reply| #[trigger]
                driver.ensures((command,), reply) ==> command@.accepts(reply@),
        ensures
            exists|replies: Seq<ReplyView>| #[trigger]
                admitted(self@, replies) && result(self@, replies) == finished(outcome),
    {
        let ghost start = self@;
        let ghost mut replies = Seq::<ReplyView>::empty();
        let mut build = self;
        proof {
            lemma_session_begins(start, replies);
        }
        loop
            invariant
                forall|command: &Command| #[trigger] driver.requires((command,)),
                forall|command: &Command, reply: Reply| #[trigger]
                    driver.ensures((command,), reply) ==> command@.accepts(reply@),
                start == self@,
                admitted(start, replies),
                result(start, replies) == Standing::Next(build@),
            decreases build@.remaining(),
        {
            let command = build.command();
            let reply = driver(&command);
            proof {
                lemma_session_grows(start, replies, reply@);
                lemma_build_step(build@, reply@);
                replies = replies.push(reply@);
            }
            match build.advance(reply) {
                Progress::Next(next) => {
                    build = next;
                },
                Progress::Finished(outcome) => {
                    assert(admitted(start, replies) && result(start, replies) == finished(outcome));
                    return outcome;
                },
            }
        }
    }
}

} // verus!
