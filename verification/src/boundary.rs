//! The boundary adapter: one whole call, from two coordinate reference
//! systems and a point to the transformed point, for a host on the far side
//! of a foreign boundary.
//!
//! A call builds a handle, transforms the point with it and releases the
//! handle again, whether the transformation succeeded or not. The raw form
//! of the call is for a host that can take only integers and raw memory: it
//! judges the host's pointers and bytes first, and ends in a status code and
//! the last-error channel. The structured form is for a host that can take a
//! value or a message.

use crate::channel::{clear_last_error, set_last_error, LastError};
use crate::error::{outcome_view, ProjError};
use crate::handle::{Opening, Plan, Proj, Releasing};
use crate::ledger::{Ledger, Task};
use crate::sys::{view_of, Reply, Request};
use crate::transform::Transform2;
use vstd::prelude::*;
use vstd::string::*;
use vstd::utf8::{decode_utf8, encode_utf8, valid_utf8};

verus! {

/// Status of a raw call that succeeded: two doubles are there to be written.
pub const STATUS_OK: i32 = 0;

/// Status of a raw call with a null output pointer, or with a null input
/// pointer beside a length that is not zero.
pub const STATUS_INVALID_POINTER: i32 = 1;

/// Status of a raw call with input bytes that are not valid text.
pub const STATUS_INVALID_TEXT: i32 = 2;

/// Status of a raw call for which no handle could be built.
pub const STATUS_CONSTRUCTION_FAILED: i32 = 3;

/// Status of a raw call whose transformation failed.
pub const STATUS_TRANSFORM_FAILED: i32 = 4;

/// The part of a call in which it failed.
#[derive(Clone, Copy, Debug)]
pub enum Phase {
    /// Building the handle.
    Construction,
    /// Transforming the point.
    Transformation,
}

impl Phase {
    pub open spec fn spec_status(self) -> i32 {
        match self {
            Phase::Construction => STATUS_CONSTRUCTION_FAILED,
            Phase::Transformation => STATUS_TRANSFORM_FAILED,
        }
    }

    /// The status code of a raw call that failed in this part.
    #[verifier::when_used_as_spec(spec_status)]
    pub fn status(self) -> (status: i32)
        ensures
            status == self.spec_status(),
    {
        match self {
            Phase::Construction => STATUS_CONSTRUCTION_FAILED,
            Phase::Transformation => STATUS_TRANSFORM_FAILED,
        }
    }
}

/// The failure of a call: what failed, and in which part.
#[derive(Debug)]
pub struct CallError<T = String> {
    pub phase: Phase,
    pub error: ProjError<T>,
}

impl View for CallError<String> {
    type V = CallError<Seq<char>>;

    open spec fn view(&self) -> CallError<Seq<char>> {
        CallError { phase: self.phase, error: self.error@ }
    }
}

/// The view of a call's outcome: a success as it is, a failure by its view.
pub open spec fn call_outcome_view(outcome: Result<(u64, u64), CallError>) -> Result<
    (u64, u64),
    CallError<Seq<char>>,
> {
    match outcome {
        Ok(xy) => Ok(xy),
        Err(error) => Err(error@),
    }
}

/// A call in progress. `T` is the type of text: `String` in running code,
/// `Seq<char>` in contracts.
#[derive(Debug)]
pub enum Call<T = String> {
    /// Building the handle, to transform `(x, y)` with it.
    Open { opening: Opening<T>, x: u64, y: u64 },
    /// Transforming the point.
    Transform { handle: Proj, task: Transform2<T> },
    /// Releasing the handle, to end as the transformation did.
    Release { releasing: Releasing, result: Result<(u64, u64), ProjError<T>> },
    /// Finished.
    Done { outcome: Result<(u64, u64), CallError<T>> },
}

impl View for Call<String> {
    type V = Call<Seq<char>>;

    open spec fn view(&self) -> Call<Seq<char>> {
        match *self {
            Call::Open { opening, x, y } => Call::Open { opening: opening@, x, y },
            Call::Transform { handle, task } => Call::Transform { handle, task: task@ },
            Call::Release { releasing, result } => Call::Release {
                releasing,
                result: outcome_view(result),
            },
            Call::Done { outcome } => Call::Done { outcome: call_outcome_view(outcome) },
        }
    }
}

impl Call<Seq<char>> {
    /// Where the call starts: nothing is built yet.
    pub open spec fn start(from: Seq<char>, to: Seq<char>, x: u64, y: u64) -> Self {
        Call::Open { opening: Opening::Context { plan: Plan::CrsPair(from, to) }, x, y }
    }

    /// The call, given how far the building of the handle has come. A
    /// failure to build ends the call; with the handle built the
    /// transformation starts.
    pub open spec fn opened(opening: Opening<Seq<char>>, x: u64, y: u64) -> Self {
        match opening {
            Opening::Done { outcome: Ok(handle) } => Self::transformed(
                handle,
                Transform2::<Seq<char>>::start(handle.proj, seq![x, y]),
            ),
            Opening::Done { outcome: Err(error) } => Call::Done {
                outcome: Err(CallError { phase: Phase::Construction, error }),
            },
            _ => Call::Open { opening, x, y },
        }
    }

    /// The call, given how far the transformation has come. Once it is
    /// finished, well or not, the release of the handle starts.
    pub open spec fn transformed(handle: Proj, task: Transform2<Seq<char>>) -> Self {
        match task.outcome() {
            Some(outcome) => Self::released(Releasing::of(handle), outcome),
            None => Call::Transform { handle, task },
        }
    }

    /// The call, given how far the release of the handle has come. Once
    /// nothing is left of the handle the call ends as the transformation
    /// did.
    pub open spec fn released(
        releasing: Releasing,
        result: Result<(u64, u64), ProjError<Seq<char>>>,
    ) -> Self {
        match releasing {
            Releasing::Done => Call::Done {
                outcome: match result {
                    Ok(xy) => Ok(xy),
                    Err(error) => Err(CallError { phase: Phase::Transformation, error }),
                },
            },
            _ => Call::Release { releasing, result },
        }
    }

    /// The engine call that the call is waiting for; none once it is
    /// finished.
    pub open spec fn pending(self) -> Option<Request<Seq<char>>> {
        match self {
            Call::Open { opening, .. } => opening.pending(),
            Call::Transform { task, .. } => task.pending(),
            Call::Release { releasing, .. } => releasing.pending(),
            Call::Done { .. } => None,
        }
    }

    /// The call after the engine's reply. A reply that does not answer the
    /// pending call changes nothing.
    pub open spec fn after(self, reply: Reply<Seq<char>>) -> Self {
        match self {
            Call::Open { opening, x, y } => Self::opened(opening.after(reply), x, y),
            Call::Transform { handle, task } => Self::transformed(handle, task.after(reply)),
            Call::Release { releasing, result } => Self::released(releasing.after(reply), result),
            Call::Done { .. } => self,
        }
    }

    /// The transformed `(x, y)` or the failure, once the call is finished.
    pub open spec fn outcome(self) -> Option<Result<(u64, u64), CallError<Seq<char>>>> {
        match self {
            Call::Done { outcome } => Some(outcome),
            _ => None,
        }
    }

    /// What the structured form of the call hands to its host: the two
    /// values in order, or the message of the failure.
    pub open spec fn finish(self) -> Option<Result<Seq<u64>, Seq<char>>> {
        match self {
            Call::Done { outcome: Ok(xy) } => Some(Ok(seq![xy.0, xy.1])),
            Call::Done { outcome: Err(failure) } => Some(Err(failure.error.message())),
            _ => None,
        }
    }
}

/// Starts a call that transforms `(x, y)` from one coordinate reference
/// system to another, for a host that takes a value or a message.
pub fn transform2_known_crs(from_crs: &str, to_crs: &str, x: u64, y: u64) -> (call: Call)
    ensures
        call@ == Call::<Seq<char>>::start(from_crs@, to_crs@, x, y),
{
    Call::Open { opening: Proj::new_known_crs(from_crs, to_crs), x, y }
}

impl Call<String> {
    fn on_opened(opening: Opening, x: u64, y: u64) -> (call: Call)
        ensures
            call@ == Call::<Seq<char>>::opened(opening@, x, y),
    {
        match opening {
            Opening::Done { outcome: Ok(handle) } => {
                let point: [u64; 2] = [x, y];
                assert(point@ =~= seq![x, y]);
                let task = handle.transform2(point.as_slice());
                Self::on_transformed(handle, task)
            },
            Opening::Done { outcome: Err(error) } => Call::Done {
                outcome: Err(CallError { phase: Phase::Construction, error }),
            },
            _ => Call::Open { opening, x, y },
        }
    }

    fn on_transformed(handle: Proj, task: Transform2) -> (call: Call)
        ensures
            call@ == Call::<Seq<char>>::transformed(handle, task@),
    {
        match task.settle() {
            Ok(outcome) => Self::on_released(handle.release(), outcome),
            Err(task) => Call::Transform { handle, task },
        }
    }

    fn on_released(releasing: Releasing, result: Result<(u64, u64), ProjError>) -> (call: Call)
        ensures
            call@ == Call::<Seq<char>>::released(releasing, outcome_view(result)),
    {
        match releasing {
            Releasing::Done => Call::Done {
                outcome: match result {
                    Ok(xy) => Ok(xy),
                    Err(error) => Err(CallError { phase: Phase::Transformation, error }),
                },
            },
            _ => Call::Release { releasing, result },
        }
    }

    /// The engine call to make next; none once the call is finished.
    pub fn request(&self) -> (request: Option<Request>)
        ensures
            view_of(request) == self@.pending(),
    {
        match self {
            Call::Open { opening, .. } => opening.request(),
            Call::Transform { task, .. } => task.request(),
            Call::Release { releasing, .. } => releasing.request(),
            Call::Done { .. } => None,
        }
    }

    /// Takes the engine's reply to the pending call.
    pub fn resume(self, reply: Reply) -> (next: Call)
        ensures
            next@ == self@.after(reply@),
    {
        match self {
            Call::Open { opening, x, y } => Self::on_opened(opening.resume(reply), x, y),
            Call::Transform { handle, task } => Self::on_transformed(handle, task.resume(reply)),
            Call::Release { releasing, result } => Self::on_released(
                releasing.resume(reply),
                result,
            ),
            Call::Done { outcome } => Call::Done { outcome },
        }
    }

    /// The transformed `(x, y)` or the failure, once the call is finished.
    pub fn outcome(self) -> (outcome: Option<Result<(u64, u64), CallError>>)
        ensures
            match self@.outcome() {
                Some(done) => outcome matches Some(result) && call_outcome_view(result) == done,
                None => outcome is None,
            },
    {
        match self {
            Call::Done { outcome } => Some(outcome),
            _ => None,
        }
    }

    /// What the host is handed, once the call is finished: the two values
    /// in order, or the message of the failure.
    pub fn finish(self) -> (end: Option<Result<Vec<u64>, String>>)
        ensures
            match self@.finish() {
                Some(Ok(values)) => end matches Some(Ok(out)) && out@ == values,
                Some(Err(message)) => end matches Some(Err(text)) && text@ == message,
                None => end is None,
            },
    {
        match self {
            Call::Done { outcome: Ok(xy) } => {
                let mut values: Vec<u64> = Vec::new();
                values.push(xy.0);
                values.push(xy.1);
                assert(values@ =~= seq![xy.0, xy.1]);
                Some(Ok(values))
            },
            Call::Done { outcome: Err(failure) } => Some(Err(failure.error.message())),
            _ => None,
        }
    }
}

/// `std::str::from_utf8`: reads bytes as text. It gives the text exactly
/// when the bytes are valid UTF-8, and the text then has those very bytes.
#[verifier::external_body]
fn from_utf8(bytes: &[u8]) -> (text: Option<&str>)
    ensures
        text is Some <==> valid_utf8(bytes@),
        text matches Some(read) ==> read.spec_bytes() == bytes@,
{
    match std::str::from_utf8(bytes) {
        Ok(read) => Some(read),
        Err(_) => None,
    }
}

/// The text in a byte range of the host: the empty text where the host gave
/// a null pointer, none where the bytes are not valid UTF-8.
pub open spec fn decoded(bytes: Option<Seq<u8>>) -> Option<Seq<char>> {
    match bytes {
        None => Some(Seq::empty()),
        Some(bytes) => if valid_utf8(bytes) {
            Some(decode_utf8(bytes))
        } else {
            None
        },
    }
}

/// Reads a byte range of the host as text.
pub fn decode(bytes: Option<&[u8]>) -> (text: Option<String>)
    ensures
        view_of(text) == decoded(view_of(bytes)),
{
    match bytes {
        None => Some(String::new()),
        Some(bytes) => match from_utf8(bytes) {
            Some(read) => {
                proof {
                    vstd::utf8::encode_utf8_decode_utf8(read@);
                }
                Some(read.to_owned())
            },
            None => None,
        },
    }
}

/// A raw call in progress. `T` is the type of text: `String` in running
/// code, `Seq<char>` in contracts.
#[derive(Debug)]
pub enum RawCall<T = String> {
    /// Refused before anything was asked of the engine.
    Rejected { status: i32, message: T },
    /// Under way, or finished.
    Run { call: Call<T> },
}

impl View for RawCall<String> {
    type V = RawCall<Seq<char>>;

    open spec fn view(&self) -> RawCall<Seq<char>> {
        match *self {
            RawCall::Rejected { status, message } => RawCall::Rejected { status, message: message@ },
            RawCall::Run { call } => RawCall::Run { call: call@ },
        }
    }
}

/// How a raw call ended: its status, and the two values to write through
/// the output pointer where the status is `STATUS_OK`.
#[derive(Clone, Copy, Debug)]
pub struct RawOutcome {
    pub status: i32,
    pub out: Option<(u64, u64)>,
}

/// How a raw call ended, with what it leaves in the last-error channel: the
/// message of a failure, nothing after a success.
pub struct RawEnd {
    pub outcome: RawOutcome,
    pub message: Option<Seq<char>>,
}

impl RawCall<Seq<char>> {
    /// Where a raw call starts. The host's arguments are judged in this
    /// order: the pointers, then the bytes of the source, then those of the
    /// target. A null input pointer is in order beside a length of zero and
    /// stands for the empty text.
    pub open spec fn start(
        from: Option<Seq<u8>>,
        from_len: nat,
        to: Option<Seq<u8>>,
        to_len: nat,
        x: u64,
        y: u64,
        out_is_null: bool,
    ) -> Self {
        if out_is_null || (from_len > 0 && from is None) || (to_len > 0 && to is None) {
            RawCall::Rejected { status: STATUS_INVALID_POINTER, message: "invalid pointer argument"@ }
        } else {
            match decoded(from) {
                None => RawCall::Rejected {
                    status: STATUS_INVALID_TEXT,
                    message: "from_crs is not valid UTF-8"@,
                },
                Some(from_crs) => match decoded(to) {
                    None => RawCall::Rejected {
                        status: STATUS_INVALID_TEXT,
                        message: "to_crs is not valid UTF-8"@,
                    },
                    Some(to_crs) => RawCall::Run {
                        call: Call::<Seq<char>>::start(from_crs, to_crs, x, y),
                    },
                },
            }
        }
    }

    /// The engine call that the raw call is waiting for; none once it is
    /// finished.
    pub open spec fn pending(self) -> Option<Request<Seq<char>>> {
        match self {
            RawCall::Rejected { .. } => None,
            RawCall::Run { call } => call.pending(),
        }
    }

    /// The raw call after the engine's reply.
    pub open spec fn after(self, reply: Reply<Seq<char>>) -> Self {
        match self {
            RawCall::Rejected { .. } => self,
            RawCall::Run { call } => RawCall::Run { call: call.after(reply) },
        }
    }

    /// How the raw call ended, once it is finished.
    pub open spec fn end(self) -> Option<RawEnd> {
        match self {
            RawCall::Rejected { status, message } => Some(
                RawEnd { outcome: RawOutcome { status, out: None }, message: Some(message) },
            ),
            RawCall::Run { call } => match call.outcome() {
                Some(Ok(xy)) => Some(
                    RawEnd { outcome: RawOutcome { status: STATUS_OK, out: Some(xy) }, message: None },
                ),
                Some(Err(failure)) => Some(
                    RawEnd {
                        outcome: RawOutcome { status: failure.phase.status(), out: None },
                        message: Some(failure.error.message()),
                    },
                ),
                None => None,
            },
        }
    }
}

/// Starts a raw call that transforms `(x, y)` from one coordinate reference
/// system to another.
///
/// `from` and `to` are the host's two byte ranges, `None` for a null
/// pointer; `from_len` and `to_len` are the lengths that the host gave for
/// them; `out_is_null` tells whether the host's output pointer is null.
pub fn transform2_known_crs_raw(
    from: Option<&[u8]>,
    from_len: usize,
    to: Option<&[u8]>,
    to_len: usize,
    x: u64,
    y: u64,
    out_is_null: bool,
) -> (call: RawCall)
    ensures
        call@ == RawCall::<Seq<char>>::start(
            view_of(from),
            from_len as nat,
            view_of(to),
            to_len as nat,
            x,
            y,
            out_is_null,
        ),
{
    if out_is_null || (from_len > 0 && from.is_none()) || (to_len > 0 && to.is_none()) {
        return RawCall::Rejected {
            status: STATUS_INVALID_POINTER,
            message: "invalid pointer argument".to_owned(),
        };
    }
    let from_crs = match decode(from) {
        Some(text) => text,
        None => {
            return RawCall::Rejected {
                status: STATUS_INVALID_TEXT,
                message: "from_crs is not valid UTF-8".to_owned(),
            };
        },
    };
    let to_crs = match decode(to) {
        Some(text) => text,
        None => {
            return RawCall::Rejected {
                status: STATUS_INVALID_TEXT,
                message: "to_crs is not valid UTF-8".to_owned(),
            };
        },
    };
    RawCall::Run { call: transform2_known_crs(from_crs.as_str(), to_crs.as_str(), x, y) }
}

impl RawCall<String> {
    /// The engine call to make next; none once the raw call is finished.
    pub fn request(&self) -> (request: Option<Request>)
        ensures
            view_of(request) == self@.pending(),
    {
        match self {
            RawCall::Rejected { .. } => None,
            RawCall::Run { call } => call.request(),
        }
    }

    /// Takes the engine's reply to the pending call.
    pub fn resume(self, reply: Reply) -> (next: RawCall)
        ensures
            next@ == self@.after(reply@),
    {
        match self {
            RawCall::Rejected { status, message } => RawCall::Rejected { status, message },
            RawCall::Run { call } => RawCall::Run { call: call.resume(reply) },
        }
    }

    /// Ends the raw call: a failure leaves its message in the channel, a
    /// success empties the channel. A raw call that is not finished ends in
    /// nothing and leaves the channel as it was.
    pub fn finish(self, channel: &mut LastError) -> (outcome: Option<RawOutcome>)
        ensures
            match self@.end() {
                Some(end) => {
                    &&& outcome == Some(end.outcome)
                    &&& match end.message {
                        Some(message) => final(channel).set_from(
                            old(channel),
                            encode_utf8(message),
                        ),
                        None => final(channel).cleared_from(old(channel)),
                    }
                },
                None => outcome is None && *final(channel) == *old(channel),
            },
    {
        match self {
            RawCall::Rejected { status, message } => {
                set_last_error(channel, message.as_str());
                Some(RawOutcome { status, out: None })
            },
            RawCall::Run { call } => match call.outcome() {
                Some(Ok(xy)) => {
                    clear_last_error(channel);
                    Some(RawOutcome { status: STATUS_OK, out: Some(xy) })
                },
                Some(Err(failure)) => {
                    let message = failure.error.message();
                    set_last_error(channel, message.as_str());
                    Some(RawOutcome { status: failure.phase.status(), out: None })
                },
                None => None,
            },
        }
    }
}

impl Task for Call<Seq<char>> {
    /// A call is in the part that it has come to, and that part is not
    /// over: the building is valid and unfinished, or the transformation
    /// works on the transform object of a valid handle, or the release has
    /// something left to destroy.
    open spec fn valid(self) -> bool {
        match self {
            Call::Open { opening, .. } => opening.valid() && !(opening is Done),
            Call::Transform { handle, task } => handle.wf() && task.task.working_on(handle.proj),
            Call::Release { releasing, .. } => !(releasing is Done),
            Call::Done { .. } => true,
        }
    }

    open spec fn awaits(self) -> Option<Request<Seq<char>>> {
        self.pending()
    }

    open spec fn step(self, reply: Reply<Seq<char>>) -> Self {
        self.after(reply)
    }

    /// What the call owns: what the building owns, then the two resources
    /// of the handle, then what is left of them; nothing once it is
    /// finished.
    open spec fn holds(self) -> Ledger {
        match self {
            Call::Open { opening, .. } => opening.holds(),
            Call::Transform { handle, .. } => Ledger::pair(handle.ctx, handle.proj),
            Call::Release { releasing, .. } => releasing.holds(),
            Call::Done { .. } => Ledger::empty(),
        }
    }

    open spec fn left(self) -> nat {
        match self {
            Call::Open { opening, .. } => opening.left() + 6,
            Call::Transform { task, .. } => task.task.left() + 2,
            Call::Release { releasing, .. } => releasing.left(),
            Call::Done { .. } => 0,
        }
    }

    proof fn lemma_step(self, reply: Reply<Seq<char>>) {
        broadcast use vstd::multiset::group_multiset_axioms;

        match self {
            Call::Open { opening, .. } => {
                opening.lemma_step(reply);
            },
            Call::Transform { .. } => {},
            Call::Release { releasing, .. } => {
                releasing.lemma_step(reply);
            },
            Call::Done { .. } => {},
        }
    }
}

impl Task for RawCall<Seq<char>> {
    open spec fn valid(self) -> bool {
        match self {
            RawCall::Rejected { .. } => true,
            RawCall::Run { call } => call.valid(),
        }
    }

    open spec fn awaits(self) -> Option<Request<Seq<char>>> {
        self.pending()
    }

    open spec fn step(self, reply: Reply<Seq<char>>) -> Self {
        self.after(reply)
    }

    open spec fn holds(self) -> Ledger {
        match self {
            RawCall::Rejected { .. } => Ledger::empty(),
            RawCall::Run { call } => call.holds(),
        }
    }

    open spec fn left(self) -> nat {
        match self {
            RawCall::Rejected { .. } => 0,
            RawCall::Run { call } => call.left(),
        }
    }

    proof fn lemma_step(self, reply: Reply<Seq<char>>) {
        match self {
            RawCall::Rejected { .. } => {},
            RawCall::Run { call } => {
                call.lemma_step(reply);
            },
        }
    }
}

} // verus!
