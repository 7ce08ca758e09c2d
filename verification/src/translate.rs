//! The error translator: from an engine error code to a line of text.
//!
//! Code zero is not an error; asked about it, the translator answers with a
//! fixed line and asks the engine nothing. For any other code it asks the
//! engine for its message and, where the engine has none, makes one up from
//! the code itself.

use crate::sys::{view_of, Reply, Request, PJ_CONTEXT};
use crate::text::{decimal, push_decimal};
use vstd::prelude::*;
use vstd::string::*;

verus! {

/// The line given for code zero.
pub open spec fn unknown_error() -> Seq<char> {
    "unknown error"@
}

/// The line made up for a code that the engine has no message for.
pub open spec fn errno_text(err: int) -> Seq<char> {
    "PROJ errno="@ + decimal(err)
}

/// A translation in progress. `T` is the type of text: `String` in running
/// code, `Seq<char>` in contracts.
#[derive(Debug)]
pub enum Explaining<T = String> {
    /// Waiting for the error code recorded on the context.
    ContextCode { ctx: PJ_CONTEXT },
    /// Waiting for the context's own message for the code.
    ContextText { ctx: PJ_CONTEXT, err: i32 },
    /// Waiting for the engine's general message for the code.
    Text { err: i32 },
    /// Finished, with the line of text.
    Done { message: T },
}

impl View for Explaining<String> {
    type V = Explaining<Seq<char>>;

    open spec fn view(&self) -> Explaining<Seq<char>> {
        match *self {
            Explaining::ContextCode { ctx } => Explaining::ContextCode { ctx },
            Explaining::ContextText { ctx, err } => Explaining::ContextText { ctx, err },
            Explaining::Text { err } => Explaining::Text { err },
            Explaining::Done { message } => Explaining::Done { message: message@ },
        }
    }
}

impl Explaining<Seq<char>> {
    /// Where the translation of a bare code starts: finished at once for
    /// code zero, else waiting for the engine's message.
    pub open spec fn of_code(err: i32) -> Self {
        if err == 0 {
            Explaining::Done { message: unknown_error() }
        } else {
            Explaining::Text { err }
        }
    }

    /// The engine call that the translation is waiting for; none once it is
    /// finished.
    pub open spec fn pending(self) -> Option<Request<Seq<char>>> {
        match self {
            Explaining::ContextCode { ctx } => Some(Request::ContextErrno { ctx }),
            Explaining::ContextText { ctx, err } => Some(Request::ContextErrnoString { ctx, err }),
            Explaining::Text { err } => Some(Request::ErrnoString { err }),
            Explaining::Done { .. } => None,
        }
    }

    /// Whether the translation asks nothing of a context other than `ctx`.
    pub open spec fn within(self, ctx: PJ_CONTEXT) -> bool {
        match self {
            Explaining::ContextCode { ctx: asked } => asked == ctx,
            Explaining::ContextText { ctx: asked, .. } => asked == ctx,
            _ => true,
        }
    }

    /// A bound on the number of calls that the translation has yet to ask
    /// for.
    pub open spec fn left(self) -> nat {
        match self {
            Explaining::ContextCode { .. } => 3,
            Explaining::ContextText { .. } => 2,
            Explaining::Text { .. } => 1,
            Explaining::Done { .. } => 0,
        }
    }

    /// The translation after the engine's reply. A reply that does not
    /// answer the pending call changes nothing.
    pub open spec fn after(self, reply: Reply<Seq<char>>) -> Self {
        match (self, reply) {
            (Explaining::ContextCode { ctx }, Reply::Code(err)) => if err == 0 {
                Explaining::Done { message: unknown_error() }
            } else {
                Explaining::ContextText { ctx, err }
            },
            (Explaining::ContextText { .. }, Reply::Text(Some(text))) => Explaining::Done {
                message: text,
            },
            (Explaining::ContextText { err, .. }, Reply::Text(None)) => Self::of_code(err),
            (Explaining::Text { .. }, Reply::Text(Some(text))) => Explaining::Done {
                message: text,
            },
            (Explaining::Text { err }, Reply::Text(None)) => Explaining::Done {
                message: errno_text(err as int),
            },
            _ => self,
        }
    }
}

/// Starts the translation of the error recorded on a context: the code is
/// read from the context first, and the context's own message is preferred
/// to the engine's general one.
pub fn context_error_message(ctx: PJ_CONTEXT) -> (task: Explaining)
    ensures
        task@ == (Explaining::<Seq<char>>::ContextCode { ctx }),
{
    Explaining::ContextCode { ctx }
}

/// Starts the translation of an error code.
pub fn proj_error_message(err: i32) -> (task: Explaining)
    ensures
        task@ == Explaining::<Seq<char>>::of_code(err),
{
    if err == 0 {
        Explaining::Done { message: "unknown error".to_owned() }
    } else {
        Explaining::Text { err }
    }
}

impl Explaining<String> {
    /// The engine call to make next; none once the translation is finished.
    pub fn request(&self) -> (request: Option<Request>)
        ensures
            view_of(request) == self@.pending(),
    {
        match self {
            Explaining::ContextCode { ctx } => Some(Request::ContextErrno { ctx: *ctx }),
            Explaining::ContextText { ctx, err } => Some(
                Request::ContextErrnoString { ctx: *ctx, err: *err },
            ),
            Explaining::Text { err } => Some(Request::ErrnoString { err: *err }),
            Explaining::Done { .. } => None,
        }
    }

    /// Takes the engine's reply to the pending call.
    pub fn resume(self, reply: Reply) -> (next: Explaining)
        ensures
            next@ == self@.after(reply@),
    {
        match self {
            Explaining::ContextCode { ctx } => match reply {
                Reply::Code(err) => if err == 0 {
                    Explaining::Done { message: "unknown error".to_owned() }
                } else {
                    Explaining::ContextText { ctx, err }
                },
                _ => Explaining::ContextCode { ctx },
            },
            Explaining::ContextText { ctx, err } => match reply {
                Reply::Text(Some(text)) => Explaining::Done { message: text },
                Reply::Text(None) => proj_error_message(err),
                _ => Explaining::ContextText { ctx, err },
            },
            Explaining::Text { err } => match reply {
                Reply::Text(Some(text)) => Explaining::Done { message: text },
                Reply::Text(None) => {
                    let mut message = "PROJ errno=".to_owned();
                    push_decimal(&mut message, err);
                    Explaining::Done { message }
                },
                _ => Explaining::Text { err },
            },
            Explaining::Done { message } => Explaining::Done { message },
        }
    }

    /// The line of text, once the translation is finished.
    pub fn message(self) -> (message: Option<String>)
        ensures
            match self@ {
                Explaining::Done { message: text } => view_of(message) == Some(text),
                _ => message is None,
            },
    {
        match self {
            Explaining::Done { message } => Some(message),
            _ => None,
        }
    }
}

} // verus!
