//! The resource manager: building a transform handle and releasing it.
//!
//! A handle owns two engine resources, a context and a transform object made
//! under it. Building one takes several engine calls, any of which may fail;
//! whatever was made before a failure is destroyed before the failure is
//! reported. The transform object is always destroyed before its context.

use crate::error::{outcome_view, ProjError};
use crate::ledger::{Ledger, Task};
use crate::sys::{view_of, PJconsts, Reply, Request, PJ_CONTEXT};
use crate::text::{find_nul, first_nul};
use crate::translate::{context_error_message, Explaining};
use vstd::multiset::Multiset;
use vstd::prelude::*;
use vstd::string::*;
use vstd::utf8::encode_utf8;

verus! {

/// A transform handle: a context and the transform object made under it.
#[derive(Debug)]
pub struct Proj {
    pub ctx: PJ_CONTEXT,
    pub proj: PJconsts,
}

impl Proj {
    /// A handle is valid when neither of its resources is the null handle.
    pub open spec fn wf(&self) -> bool {
        !self.ctx.is_null() && !self.proj.is_null()
    }
}

/// What a handle is to be built from. `T` is the type of text.
#[derive(Debug)]
pub enum Plan<T = String> {
    /// A single definition.
    Definition(T),
    /// A source and a target coordinate reference system.
    CrsPair(T, T),
}

impl View for Plan<String> {
    type V = Plan<Seq<char>>;

    open spec fn view(&self) -> Plan<Seq<char>> {
        match *self {
            Plan::Definition(definition) => Plan::Definition(definition@),
            Plan::CrsPair(source, target) => Plan::CrsPair(source@, target@),
        }
    }
}

impl Plan<Seq<char>> {
    /// The position of the first NUL byte among the UTF-8 bytes of the first
    /// text that holds one; the source is looked at before the target.
    pub open spec fn nul(self) -> Option<int> {
        match self {
            Plan::Definition(definition) => first_nul(encode_utf8(definition)),
            Plan::CrsPair(source, target) => match first_nul(encode_utf8(source)) {
                Some(position) => Some(position),
                None => first_nul(encode_utf8(target)),
            },
        }
    }

    /// The engine call that builds the transform object under `ctx`.
    pub open spec fn request(self, ctx: PJ_CONTEXT) -> Request<Seq<char>> {
        match self {
            Plan::Definition(definition) => Request::Create { ctx, definition },
            Plan::CrsPair(source, target) => Request::CreateCrsToCrs {
                ctx,
                source_crs: source,
                target_crs: target,
            },
        }
    }
}

impl Plan<String> {
    /// Looks for a NUL byte in the texts of the plan.
    pub fn find_nul(&self) -> (found: Option<usize>)
        ensures
            found matches Some(position) ==> self@.nul() == Some(position as int),
            found is None ==> self@.nul() is None,
    {
        match self {
            Plan::Definition(definition) => find_nul(definition.as_str()),
            Plan::CrsPair(source, target) => match find_nul(source.as_str()) {
                Some(position) => Some(position),
                None => find_nul(target.as_str()),
            },
        }
    }

    /// The engine call that builds the transform object under `ctx`.
    pub fn request(&self, ctx: PJ_CONTEXT) -> (request: Request)
        ensures
            request@ == self@.request(ctx),
    {
        match self {
            Plan::Definition(definition) => Request::Create { ctx, definition: definition.clone() },
            Plan::CrsPair(source, target) => Request::CreateCrsToCrs {
                ctx,
                source_crs: source.clone(),
                target_crs: target.clone(),
            },
        }
    }
}

/// The step of building at which the engine failed.
#[derive(Clone, Copy, Debug)]
pub enum Stage {
    /// Building the transform object.
    Creation,
    /// Bringing it to conventional axis order.
    Normalization,
}

impl Stage {
    /// The failure of this stage, with the engine's explanation.
    pub open spec fn error(self, reason: Seq<char>) -> ProjError<Seq<char>> {
        match self {
            Stage::Creation => ProjError::Creation(reason),
            Stage::Normalization => ProjError::Normalization(reason),
        }
    }

    /// The failure of this stage, with the engine's explanation.
    pub fn failure(self, reason: String) -> (error: ProjError)
        ensures
            error@ == self.error(reason@),
    {
        match self {
            Stage::Creation => ProjError::Creation(reason),
            Stage::Normalization => ProjError::Normalization(reason),
        }
    }
}

/// Judges the context that the engine returned.
pub fn create_context(ctx: PJ_CONTEXT) -> (outcome: Result<PJ_CONTEXT, ProjError>)
    ensures
        ctx.is_null() ==> outcome matches Err(ProjError::ContextCreation),
        !ctx.is_null() ==> outcome == Ok::<PJ_CONTEXT, ProjError>(ctx),
{
    if ctx.is_null() {
        Err(ProjError::ContextCreation)
    } else {
        Ok(ctx)
    }
}

/// The building of a handle, in progress. `T` is the type of text: `String`
/// in running code, `Seq<char>` in contracts.
#[derive(Debug)]
pub enum Opening<T = String> {
    /// Waiting for the context.
    Context { plan: Plan<T> },
    /// Waiting for the transform object.
    Object { ctx: PJ_CONTEXT, plan: Plan<T> },
    /// Waiting for the transform object in conventional axis order, which
    /// supersedes `raw`.
    Normalize { ctx: PJ_CONTEXT, raw: PJconsts },
    /// Waiting for the destruction of `raw`, whatever became of
    /// `normalized`.
    Supersede { ctx: PJ_CONTEXT, raw: PJconsts, normalized: PJconsts },
    /// The engine failed at `stage`: waiting for its explanation and, once
    /// that is there, for the destruction of the context.
    Explain { ctx: PJ_CONTEXT, stage: Stage, explaining: Explaining<T> },
    /// Waiting for the destruction of the context, to fail with `error`.
    Abandon { ctx: PJ_CONTEXT, error: ProjError<T> },
    /// Finished.
    Done { outcome: Result<Proj, ProjError<T>> },
}

impl View for Opening<String> {
    type V = Opening<Seq<char>>;

    open spec fn view(&self) -> Opening<Seq<char>> {
        match *self {
            Opening::Context { plan } => Opening::Context { plan: plan@ },
            Opening::Object { ctx, plan } => Opening::Object { ctx, plan: plan@ },
            Opening::Normalize { ctx, raw } => Opening::Normalize { ctx, raw },
            Opening::Supersede { ctx, raw, normalized } => Opening::Supersede {
                ctx,
                raw,
                normalized,
            },
            Opening::Explain { ctx, stage, explaining } => Opening::Explain {
                ctx,
                stage,
                explaining: explaining@,
            },
            Opening::Abandon { ctx, error } => Opening::Abandon { ctx, error: error@ },
            Opening::Done { outcome } => Opening::Done { outcome: outcome_view(outcome) },
        }
    }
}

impl Opening<Seq<char>> {
    /// The engine call that the building is waiting for; none once it is
    /// finished.
    pub open spec fn pending(self) -> Option<Request<Seq<char>>> {
        match self {
            Opening::Context { .. } => Some(Request::ContextCreate),
            Opening::Object { ctx, plan } => Some(plan.request(ctx)),
            Opening::Normalize { ctx, raw } => Some(
                Request::NormalizeForVisualization { ctx, obj: raw },
            ),
            Opening::Supersede { raw, .. } => Some(Request::Destroy { obj: raw }),
            Opening::Explain { ctx, explaining, .. } => match explaining.pending() {
                Some(request) => Some(request),
                None => Some(Request::ContextDestroy { ctx }),
            },
            Opening::Abandon { ctx, .. } => Some(Request::ContextDestroy { ctx }),
            Opening::Done { .. } => None,
        }
    }

    /// The building after the engine's reply. A reply that does not answer
    /// the pending call changes nothing.
    pub open spec fn after(self, reply: Reply<Seq<char>>) -> Self {
        match (self, reply) {
            (Opening::Context { plan }, Reply::Context(ctx)) => if ctx.is_null() {
                Opening::Done { outcome: Err(ProjError::ContextCreation) }
            } else {
                match plan.nul() {
                    Some(position) => Opening::Abandon {
                        ctx,
                        error: ProjError::InvalidInput(position as usize),
                    },
                    None => Opening::Object { ctx, plan },
                }
            },
            (Opening::Object { ctx, plan }, Reply::Object(obj)) => if obj.is_null() {
                Opening::Explain {
                    ctx,
                    stage: Stage::Creation,
                    explaining: Explaining::ContextCode { ctx },
                }
            } else {
                match plan {
                    Plan::Definition(_) => Opening::Done { outcome: Ok(Proj { ctx, proj: obj }) },
                    Plan::CrsPair(_, _) => Opening::Normalize { ctx, raw: obj },
                }
            },
            (Opening::Normalize { ctx, raw }, Reply::Object(normalized)) => Opening::Supersede {
                ctx,
                raw,
                normalized,
            },
            (Opening::Supersede { ctx, normalized, .. }, Reply::Done) => if normalized.is_null() {
                Opening::Explain {
                    ctx,
                    stage: Stage::Normalization,
                    explaining: Explaining::ContextCode { ctx },
                }
            } else {
                Opening::Done { outcome: Ok(Proj { ctx, proj: normalized }) }
            },
            (Opening::Explain { ctx, stage, explaining }, _) => match explaining {
                Explaining::Done { message } => match reply {
                    Reply::Done => Opening::Done { outcome: Err(stage.error(message)) },
                    _ => self,
                },
                _ => Opening::Explain { ctx, stage, explaining: explaining.after(reply) },
            },
            (Opening::Abandon { error, .. }, Reply::Done) => Opening::Done { outcome: Err(error) },
            _ => self,
        }
    }
}

impl Proj {
    /// Starts building a handle from a definition.
    pub fn new(definition: &str) -> (task: Opening)
        ensures
            task@ == (Opening::<Seq<char>>::Context { plan: Plan::Definition(definition@) }),
    {
        Opening::Context { plan: Plan::Definition(definition.to_owned()) }
    }

    /// Starts building a handle that transforms from one coordinate
    /// reference system to another, in conventional axis order.
    pub fn new_known_crs(from: &str, to: &str) -> (task: Opening)
        ensures
            task@ == (Opening::<Seq<char>>::Context { plan: Plan::CrsPair(from@, to@) }),
    {
        Opening::Context { plan: Plan::CrsPair(from.to_owned(), to.to_owned()) }
    }
}

impl Opening<String> {
    /// The engine call to make next; none once the building is finished.
    pub fn request(&self) -> (request: Option<Request>)
        ensures
            view_of(request) == self@.pending(),
    {
        match self {
            Opening::Context { .. } => Some(Request::ContextCreate),
            Opening::Object { ctx, plan } => Some(plan.request(*ctx)),
            Opening::Normalize { ctx, raw } => Some(
                Request::NormalizeForVisualization { ctx: *ctx, obj: *raw },
            ),
            Opening::Supersede { raw, .. } => Some(Request::Destroy { obj: *raw }),
            Opening::Explain { ctx, explaining, .. } => match explaining.request() {
                Some(request) => Some(request),
                None => Some(Request::ContextDestroy { ctx: *ctx }),
            },
            Opening::Abandon { ctx, .. } => Some(Request::ContextDestroy { ctx: *ctx }),
            Opening::Done { .. } => None,
        }
    }

    /// Takes the engine's reply to the pending call.
    pub fn resume(self, reply: Reply) -> (next: Opening)
        ensures
            next@ == self@.after(reply@),
    {
        match self {
            Opening::Context { plan } => match reply {
                Reply::Context(made) => match create_context(made) {
                    Err(error) => Opening::Done { outcome: Err(error) },
                    Ok(ctx) => match plan.find_nul() {
                        Some(position) => Opening::Abandon {
                            ctx,
                            error: ProjError::InvalidInput(position),
                        },
                        None => Opening::Object { ctx, plan },
                    },
                },
                _ => Opening::Context { plan },
            },
            Opening::Object { ctx, plan } => match reply {
                Reply::Object(obj) => if obj.is_null() {
                    Opening::Explain {
                        ctx,
                        stage: Stage::Creation,
                        explaining: context_error_message(ctx),
                    }
                } else {
                    match plan {
                        Plan::Definition(_) => Opening::Done {
                            outcome: Ok(Proj { ctx, proj: obj }),
                        },
                        Plan::CrsPair(_, _) => Opening::Normalize { ctx, raw: obj },
                    }
                },
                _ => Opening::Object { ctx, plan },
            },
            Opening::Normalize { ctx, raw } => match reply {
                Reply::Object(normalized) => Opening::Supersede { ctx, raw, normalized },
                _ => Opening::Normalize { ctx, raw },
            },
            Opening::Supersede { ctx, raw, normalized } => match reply {
                Reply::Done => if normalized.is_null() {
                    Opening::Explain {
                        ctx,
                        stage: Stage::Normalization,
                        explaining: context_error_message(ctx),
                    }
                } else {
                    Opening::Done { outcome: Ok(Proj { ctx, proj: normalized }) }
                },
                _ => Opening::Supersede { ctx, raw, normalized },
            },
            Opening::Explain { ctx, stage, explaining } => match explaining {
                Explaining::Done { message } => match reply {
                    Reply::Done => Opening::Done { outcome: Err(stage.failure(message)) },
                    _ => Opening::Explain { ctx, stage, explaining: Explaining::Done { message } },
                },
                _ => Opening::Explain { ctx, stage, explaining: explaining.resume(reply) },
            },
            Opening::Abandon { ctx, error } => match reply {
                Reply::Done => Opening::Done { outcome: Err(error) },
                _ => Opening::Abandon { ctx, error },
            },
            Opening::Done { outcome } => Opening::Done { outcome },
        }
    }

    /// The handle or the failure, once the building is finished.
    pub fn outcome(self) -> (outcome: Option<Result<Proj, ProjError>>)
        ensures
            match self@ {
                Opening::Done { outcome: done } => outcome matches Some(result) && outcome_view(
                    result,
                ) == done,
                _ => outcome is None,
            },
    {
        match self {
            Opening::Done { outcome } => Some(outcome),
            _ => None,
        }
    }
}

/// The release of a handle, in progress: the transform object goes first,
/// its context after it.
#[derive(Debug)]
pub enum Releasing {
    /// Waiting for the destruction of the transform object.
    Object { ctx: PJ_CONTEXT, proj: PJconsts },
    /// Waiting for the destruction of the context.
    Context { ctx: PJ_CONTEXT },
    /// Finished: nothing is left of the handle.
    Done,
}

impl Releasing {
    /// Where the release of a bare context starts: there is nothing to do
    /// for the null handle.
    pub open spec fn of_context(ctx: PJ_CONTEXT) -> Releasing {
        if ctx.is_null() {
            Releasing::Done
        } else {
            Releasing::Context { ctx }
        }
    }

    /// Where the release of a handle starts. A resource that is the null
    /// handle is passed over.
    pub open spec fn of(handle: Proj) -> Releasing {
        if handle.proj.is_null() {
            Self::of_context(handle.ctx)
        } else {
            Releasing::Object { ctx: handle.ctx, proj: handle.proj }
        }
    }

    /// The engine call that the release is waiting for; none once it is
    /// finished.
    pub open spec fn pending(self) -> Option<Request<Seq<char>>> {
        match self {
            Releasing::Object { proj, .. } => Some(Request::Destroy { obj: proj }),
            Releasing::Context { ctx } => Some(Request::ContextDestroy { ctx }),
            Releasing::Done => None,
        }
    }

    /// The release after the engine's reply. A reply that does not answer
    /// the pending call changes nothing.
    pub open spec fn after(self, reply: Reply<Seq<char>>) -> Releasing {
        match (self, reply) {
            (Releasing::Object { ctx, .. }, Reply::Done) => Self::of_context(ctx),
            (Releasing::Context { .. }, Reply::Done) => Releasing::Done,
            _ => self,
        }
    }

    fn context(ctx: PJ_CONTEXT) -> (task: Releasing)
        ensures
            task == Self::of_context(ctx),
    {
        if ctx.is_null() {
            Releasing::Done
        } else {
            Releasing::Context { ctx }
        }
    }

    /// The engine call to make next; none once the release is finished.
    pub fn request(&self) -> (request: Option<Request>)
        ensures
            view_of(request) == self.pending(),
    {
        match self {
            Releasing::Object { proj, .. } => Some(Request::Destroy { obj: *proj }),
            Releasing::Context { ctx } => Some(Request::ContextDestroy { ctx: *ctx }),
            Releasing::Done => None,
        }
    }

    /// Takes the engine's reply to the pending call.
    pub fn resume(self, reply: Reply) -> (next: Releasing)
        ensures
            next == self.after(reply@),
    {
        match self {
            Releasing::Object { ctx, proj } => match reply {
                Reply::Done => Self::context(ctx),
                _ => Releasing::Object { ctx, proj },
            },
            Releasing::Context { ctx } => match reply {
                Reply::Done => Releasing::Done,
                _ => Releasing::Context { ctx },
            },
            Releasing::Done => Releasing::Done,
        }
    }

    /// Whether the release is finished.
    pub fn is_done(&self) -> (done: bool)
        ensures
            done == (*self is Done),
    {
        match self {
            Releasing::Done => true,
            _ => false,
        }
    }
}

impl Proj {
    /// Starts the release of the handle, which ends its life.
    pub fn release(self) -> (task: Releasing)
        ensures
            task == Releasing::of(self),
    {
        if self.proj.is_null() {
            Releasing::context(self.ctx)
        } else {
            Releasing::Object { ctx: self.ctx, proj: self.proj }
        }
    }
}

impl Task for Opening<Seq<char>> {
    /// A context that the building has is not the null handle, nor is the
    /// transform object that it got first; an explanation is asked of the
    /// building's own context; a handle that it ends with is valid.
    open spec fn valid(self) -> bool {
        match self {
            Opening::Context { .. } => true,
            Opening::Object { ctx, .. } => !ctx.is_null(),
            Opening::Normalize { ctx, raw } => !ctx.is_null() && !raw.is_null(),
            Opening::Supersede { ctx, raw, .. } => !ctx.is_null() && !raw.is_null(),
            Opening::Explain { ctx, explaining, .. } => !ctx.is_null() && explaining.within(ctx),
            Opening::Abandon { ctx, .. } => !ctx.is_null(),
            Opening::Done { outcome: Ok(handle) } => handle.wf(),
            Opening::Done { outcome: Err(_) } => true,
        }
    }

    open spec fn awaits(self) -> Option<Request<Seq<char>>> {
        self.pending()
    }

    open spec fn step(self, reply: Reply<Seq<char>>) -> Self {
        self.after(reply)
    }

    /// What the building owns: nothing before the context is there and
    /// nothing after a failure; the context from then on; the transform
    /// objects that were made and not yet destroyed; in the end the two
    /// resources of the handle.
    open spec fn holds(self) -> Ledger {
        match self {
            Opening::Context { .. } => Ledger::empty(),
            Opening::Object { ctx, .. } => Ledger::context(ctx),
            Opening::Normalize { ctx, raw } => Ledger::pair(ctx, raw),
            Opening::Supersede { ctx, raw, normalized } => Ledger::pair(ctx, raw).with_object(
                normalized,
            ),
            Opening::Explain { ctx, .. } => Ledger::context(ctx),
            Opening::Abandon { ctx, .. } => Ledger::context(ctx),
            Opening::Done { outcome: Ok(handle) } => Ledger::pair(handle.ctx, handle.proj),
            Opening::Done { outcome: Err(_) } => Ledger::empty(),
        }
    }

    open spec fn left(self) -> nat {
        match self {
            Opening::Context { .. } => 8,
            Opening::Object { .. } => 7,
            Opening::Normalize { .. } => 6,
            Opening::Supersede { .. } => 5,
            Opening::Explain { explaining, .. } => explaining.left() + 1,
            Opening::Abandon { .. } => 1,
            Opening::Done { .. } => 0,
        }
    }

    proof fn lemma_step(self, reply: Reply<Seq<char>>) {
        broadcast use vstd::multiset::group_multiset_axioms;

    }
}

impl Task for Releasing {
    open spec fn valid(self) -> bool {
        true
    }

    open spec fn awaits(self) -> Option<Request<Seq<char>>> {
        self.pending()
    }

    open spec fn step(self, reply: Reply<Seq<char>>) -> Self {
        self.after(reply)
    }

    /// What is left of the handle: the transform object until it is
    /// destroyed, the context until it is.
    open spec fn holds(self) -> Ledger {
        match self {
            Releasing::Object { ctx, proj } => Ledger {
                contexts: Ledger::context(ctx).contexts,
                objects: Multiset::singleton(proj),
            },
            Releasing::Context { ctx } => Ledger {
                contexts: Multiset::singleton(ctx),
                objects: Multiset::empty(),
            },
            Releasing::Done => Ledger::empty(),
        }
    }

    open spec fn left(self) -> nat {
        match self {
            Releasing::Object { .. } => 2,
            Releasing::Context { .. } => 1,
            Releasing::Done => 0,
        }
    }

    proof fn lemma_step(self, reply: Reply<Seq<char>>) {
        broadcast use vstd::multiset::group_multiset_axioms;

    }
}

} // verus!
