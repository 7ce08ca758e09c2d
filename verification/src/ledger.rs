//! The ledger of engine resources, and what it takes for a task to keep
//! its books.
//!
//! The engine makes contexts and transform objects and destroys them again
//! on request. The ledger says which of them are alive after a sequence of
//! calls, and which call is in order while they are: nothing is used or
//! destroyed that is not alive, and no context is destroyed while a
//! transform object is. A task that owns resources accounts for them in
//! every state; the theorem of this module carries that account over every
//! run of the task.

use crate::sys::{PJconsts, Reply, Request, PJ_CONTEXT};
use vstd::multiset::Multiset;
use vstd::prelude::*;

verus! {

/// The engine resources that are alive.
#[verifier::ext_equal]
pub struct Ledger {
    pub contexts: Multiset<PJ_CONTEXT>,
    pub objects: Multiset<PJconsts>,
}

impl Ledger {
    /// Nothing is alive.
    pub open spec fn empty() -> Ledger {
        Ledger { contexts: Multiset::empty(), objects: Multiset::empty() }
    }

    /// A context, unless it is the null handle, and nothing else.
    pub open spec fn context(ctx: PJ_CONTEXT) -> Ledger {
        Self::empty().with_context(ctx)
    }

    /// A context and a transform object, each unless it is the null handle.
    pub open spec fn pair(ctx: PJ_CONTEXT, obj: PJconsts) -> Ledger {
        Self::empty().with_context(ctx).with_object(obj)
    }

    /// This ledger and one more context; the null handle is no context.
    pub open spec fn with_context(self, ctx: PJ_CONTEXT) -> Ledger {
        if ctx.is_null() {
            self
        } else {
            Ledger { contexts: self.contexts.insert(ctx), objects: self.objects }
        }
    }

    /// This ledger and one more transform object; the null handle is no
    /// transform object.
    pub open spec fn with_object(self, obj: PJconsts) -> Ledger {
        if obj.is_null() {
            self
        } else {
            Ledger { contexts: self.contexts, objects: self.objects.insert(obj) }
        }
    }

    /// The ledger after the engine answered `request` with `reply`: what it
    /// made is alive, what it destroyed is not.
    pub open spec fn record(self, request: Request<Seq<char>>, reply: Reply<Seq<char>>) -> Ledger {
        match (request, reply) {
            (Request::ContextCreate, Reply::Context(ctx)) => self.with_context(ctx),
            (Request::Create { .. }, Reply::Object(obj)) => self.with_object(obj),
            (Request::CreateCrsToCrs { .. }, Reply::Object(obj)) => self.with_object(obj),
            (Request::NormalizeForVisualization { .. }, Reply::Object(obj)) => self.with_object(
                obj,
            ),
            (Request::Destroy { obj }, Reply::Done) => Ledger {
                contexts: self.contexts,
                objects: self.objects.remove(obj),
            },
            (Request::ContextDestroy { ctx }, Reply::Done) => Ledger {
                contexts: self.contexts.remove(ctx),
                objects: self.objects,
            },
            _ => self,
        }
    }

    /// Whether `request` is in order while these resources are alive: a
    /// resource that it names is alive, and a context is destroyed only
    /// when no transform object is left.
    pub open spec fn allows(self, request: Request<Seq<char>>) -> bool {
        match request {
            Request::ContextCreate => true,
            Request::ContextDestroy { ctx } => self.contexts.count(ctx) > 0 && self.objects.len()
                == 0,
            Request::ContextErrno { ctx } => self.contexts.count(ctx) > 0,
            Request::ContextErrnoString { ctx, .. } => self.contexts.count(ctx) > 0,
            Request::Create { ctx, .. } => self.contexts.count(ctx) > 0,
            Request::CreateCrsToCrs { ctx, .. } => self.contexts.count(ctx) > 0,
            Request::NormalizeForVisualization { ctx, obj } => self.contexts.count(ctx) > 0
                && self.objects.count(obj) > 0,
            Request::Destroy { obj } => self.objects.count(obj) > 0,
            Request::ErrnoReset { obj } => self.objects.count(obj) > 0,
            Request::Errno { obj } => self.objects.count(obj) > 0,
            Request::ErrnoString { .. } => true,
            Request::Trans { obj, .. } => self.objects.count(obj) > 0,
        }
    }
}

/// A task that owns engine resources and accounts for them.
pub trait Task: Sized {
    /// The states that the task can be in.
    spec fn valid(self) -> bool;

    /// The engine call that the task is waiting for; none once it is
    /// finished.
    spec fn awaits(self) -> Option<Request<Seq<char>>>;

    /// The task after the engine's reply.
    spec fn step(self, reply: Reply<Seq<char>>) -> Self;

    /// The engine resources that the task owns.
    spec fn holds(self) -> Ledger;

    /// A bound on the number of calls that the task has yet to ask for.
    spec fn left(self) -> nat;

    /// One step keeps the books and brings the end nearer: the call asked
    /// for is in order for what the task owns, after the reply the task
    /// owns what the engine then has alive, and it has fewer calls left.
    proof fn lemma_step(self, reply: Reply<Seq<char>>)
        requires
            self.valid(),
            self.awaits() matches Some(request) && reply.answers(request),
        ensures
            self.holds().allows(self.awaits().unwrap()),
            self.step(reply).valid(),
            self.step(reply).holds() =~= self.holds().record(self.awaits().unwrap(), reply),
            self.step(reply).left() < self.left(),
    ;
}

/// Whether each of `replies` in turn answers the call that the task is then
/// waiting for.
pub open spec fn answered<M: Task>(task: M, replies: Seq<Reply<Seq<char>>>) -> bool
    decreases replies.len(),
{
    replies.len() > 0 ==> {
        &&& task.awaits() matches Some(request)
        &&& replies[0].answers(request)
        &&& answered(task.step(replies[0]), replies.drop_first())
    }
}

/// The task after `replies` in turn.
pub open spec fn run<M: Task>(task: M, replies: Seq<Reply<Seq<char>>>) -> M
    decreases replies.len(),
{
    if replies.len() == 0 {
        task
    } else {
        run(task.step(replies[0]), replies.drop_first())
    }
}

/// The calls that the task asks for while it takes `replies` in turn, in
/// order.
pub open spec fn calls<M: Task>(task: M, replies: Seq<Reply<Seq<char>>>) -> Seq<
    Request<Seq<char>>,
>
    decreases replies.len(),
{
    if replies.len() == 0 || task.awaits() is None {
        Seq::empty()
    } else {
        seq![task.awaits().unwrap()] + calls(task.step(replies[0]), replies.drop_first())
    }
}

/// The ledger that starts as `ledger` and records `calls`, each with its
/// reply.
pub open spec fn settle(
    ledger: Ledger,
    calls: Seq<Request<Seq<char>>>,
    replies: Seq<Reply<Seq<char>>>,
) -> Ledger
    decreases calls.len(),
{
    if calls.len() == 0 || replies.len() == 0 {
        ledger
    } else {
        settle(ledger.record(calls[0], replies[0]), calls.drop_first(), replies.drop_first())
    }
}

/// Whether each of `calls` is in order when it is made, the ledger
/// starting as `ledger` and recording each call with its reply.
pub open spec fn in_order(
    ledger: Ledger,
    calls: Seq<Request<Seq<char>>>,
    replies: Seq<Reply<Seq<char>>>,
) -> bool
    decreases calls.len(),
{
    calls.len() > 0 && replies.len() > 0 ==> {
        &&& ledger.allows(calls[0])
        &&& in_order(ledger.record(calls[0], replies[0]), calls.drop_first(), replies.drop_first())
    }
}

/// Over every run of a task in which each reply answers its call: the task
/// stays in its valid states, every call that it asks for is in order for
/// what the engine has alive at that moment, and in the end the task owns
/// exactly what the engine has alive.
pub proof fn theorem_books_kept<M: Task>(task: M, replies: Seq<Reply<Seq<char>>>)
    requires
        task.valid(),
        answered(task, replies),
    ensures
        run(task, replies).valid(),
        calls(task, replies).len() == replies.len(),
        in_order(task.holds(), calls(task, replies), replies),
        run(task, replies).holds() == settle(task.holds(), calls(task, replies), replies),
    decreases replies.len(),
{
    if replies.len() > 0 {
        let request = task.awaits().unwrap();
        let rest = replies.drop_first();
        let next = task.step(replies[0]);
        task.lemma_step(replies[0]);
        theorem_books_kept(next, rest);
        let made = calls(task, replies);
        assert(made.drop_first() =~= calls(next, rest));
        assert(made[0] == request);
    }
}

/// No run of a task, in which each reply answers its call, is longer than
/// the bound that the task started with.
pub proof fn theorem_runs_end<M: Task>(task: M, replies: Seq<Reply<Seq<char>>>)
    requires
        task.valid(),
        answered(task, replies),
    ensures
        replies.len() <= task.left(),
    decreases replies.len(),
{
    if replies.len() > 0 {
        task.lemma_step(replies[0]);
        theorem_runs_end(task.step(replies[0]), replies.drop_first());
    }
}

} // verus!
