//! What whole turns do.
//!
//! A turn goes back and forth between [`crate::turn::State::next`] and the outside. Here it is
//! run against any outside that answers each action properly, which shows what
//! the turn does from its beginning to its end.

use crate::backend::{Backend, Platform};
use crate::frame::{flow_of, FrameAction};
use crate::setup::SetupStep;
use crate::turn::{Action, Choice, Reply, Step};
use vstd::prelude::*;

verus! {

/// Whether `reply` is a proper answer to `action` on a platform.
pub open spec fn is_answer<B: Backend>(
    platform: Platform,
    action: Action<B>,
    reply: Reply<B>,
) -> bool {
    match action {
        Action::AskAppName(_, _) => reply is AppName,
        Action::Setup(_, SetupStep::HandOver) => {
            reply is Parts && reply->Parts_0.suits(platform)
        },
        Action::LoadRenderFlow(_) => reply is RenderFlow && flow_of(reply->RenderFlow_0) is Some,
        Action::Frame(_, FrameAction::Update) => reply is Frame && reply->Frame_0 is Updated,
        Action::Frame(_, FrameAction::AskShouldQuit) => {
            reply is Frame && reply->Frame_0 is ShouldQuit
        },
        Action::Frame(_, _) => reply is Frame && reply->Frame_0 is Done,
        Action::LookUpWindow => reply is WindowId,
        Action::ReceiveCloseSignal => reply is CloseSignal,
        Action::AskShouldQuit(_) => reply is ShouldQuit,
        Action::TranslateEvent => reply is Translated,
        Action::Query(_, query) => reply is Queried && query.accepts(reply->Queried_0),
        Action::Finish { .. } => false,
        _ => reply is Done,
    }
}

/// The outside: how each action turns out.
#[verifier::reject_recursive_types(B)]
pub struct Outside<B: Backend> {
    pub replies: spec_fn(Action<B>) -> Reply<B>,
}

impl<B: Backend> Outside<B> {
    /// How an action turns out.
    pub open spec fn reply(self, action: Action<B>) -> Reply<B> {
        (self.replies)(action)
    }

    /// Whether every action is answered properly.
    pub open spec fn is_proper(self, platform: Platform) -> bool {
        forall|action: Action<B>| #![trigger self.reply(action)]
            !(action is Finish) ==> is_answer(platform, action, self.reply(action))
    }
}

/// A part of a turn.
pub struct Run<B: Backend> {
    /// Where the part ends.
    pub step: Step<B>,
    /// The actions that were performed on the way.
    pub trace: Seq<Action<B>>,
    /// Whether the turn accepted every answer.
    pub accepted: bool,
}

/// The first `n` actions of a turn from `start` on.
pub open spec fn run<B: Backend>(
    start: Step<B>,
    outside: Outside<B>,
    choice: Choice<B>,
    n: nat,
) -> Run<B>
    decreases n,
{
    if n == 0 {
        Run { step: start, trace: Seq::empty(), accepted: true }
    } else {
        let before = run(start, outside, choice, (n - 1) as nat);
        let reply = outside.reply(before.step.action);
        Run {
            step: before.step.state.next(before.step.turn, reply, choice),
            trace: before.trace.push(before.step.action),
            accepted: before.accepted && before.step.turn.accepts(reply),
        }
    }
}

/// Whether a turn gets from `start` to `end` by performing exactly the actions of
/// `trace`, in order.
#[verifier::opaque]
pub open spec fn performs<B: Backend>(
    start: Step<B>,
    outside: Outside<B>,
    choice: Choice<B>,
    trace: Seq<Action<B>>,
    end: Step<B>,
) -> bool {
    run(start, outside, choice, trace.len()) == (Run { step: end, trace, accepted: true })
}

/// Nothing leads from a step to itself.
pub proof fn lemma_performs_nothing<B: Backend>(
    start: Step<B>,
    outside: Outside<B>,
    choice: Choice<B>,
)
    ensures
        performs(start, outside, choice, Seq::empty(), start),
{
    reveal(performs);
}

/// An accepted answer leads to the next step.
pub proof fn lemma_performs_one<B: Backend>(
    start: Step<B>,
    outside: Outside<B>,
    choice: Choice<B>,
)
    requires
        start.turn.accepts(outside.reply(start.action)),
    ensures
        performs(
            start,
            outside,
            choice,
            seq![start.action],
            start.state.next(start.turn, outside.reply(start.action), choice),
        ),
{
    reveal(performs);
    reveal_with_fuel(run, 2);
    assert(Seq::<Action<B>>::empty().push(start.action) =~= seq![start.action]);
}

/// A part of a turn goes on by an accepted answer.
pub proof fn lemma_performs_more<B: Backend>(
    start: Step<B>,
    outside: Outside<B>,
    choice: Choice<B>,
    trace: Seq<Action<B>>,
    end: Step<B>,
)
    requires
        performs(start, outside, choice, trace, end),
        end.turn.accepts(outside.reply(end.action)),
    ensures
        performs(
            start,
            outside,
            choice,
            trace.push(end.action),
            end.state.next(end.turn, outside.reply(end.action), choice),
        ),
{
    lemma_performs_one(end, outside, choice);
    let next = end.state.next(end.turn, outside.reply(end.action), choice);
    lemma_performs_both(start, outside, choice, trace, end, seq![end.action], next);
    assert(trace + seq![end.action] =~= trace.push(end.action));
}

/// Two parts of a turn make one.
pub proof fn lemma_performs_both<B: Backend>(
    start: Step<B>,
    outside: Outside<B>,
    choice: Choice<B>,
    first: Seq<Action<B>>,
    middle: Step<B>,
    second: Seq<Action<B>>,
    end: Step<B>,
)
    requires
        performs(start, outside, choice, first, middle),
        performs(middle, outside, choice, second, end),
    ensures
        performs(start, outside, choice, first + second, end),
{
    reveal(performs);
    lemma_run_on(start, outside, choice, first, middle, second.len());
}

/// Running on from where a part of a turn ended.
proof fn lemma_run_on<B: Backend>(
    start: Step<B>,
    outside: Outside<B>,
    choice: Choice<B>,
    first: Seq<Action<B>>,
    middle: Step<B>,
    n: nat,
)
    requires
        performs(start, outside, choice, first, middle),
    ensures
        ({
            let rest = run(middle, outside, choice, n);
            run(start, outside, choice, first.len() + n) == (Run {
                step: rest.step,
                trace: first + rest.trace,
                accepted: rest.accepted,
            })
        }),
    decreases n,
{
    reveal(performs);
    let rest = run(middle, outside, choice, n);
    if n == 0 {
        assert(first + rest.trace =~= first);
    } else {
        let before = run(middle, outside, choice, (n - 1) as nat);
        lemma_run_on(start, outside, choice, first, middle, (n - 1) as nat);
        assert((first.len() + n - 1) as nat == first.len() + (n - 1) as nat);
        assert((first + before.trace).push(before.step.action) =~= first + before.trace.push(
            before.step.action,
        ));
    }
}

} // verus!
