//! What holds of the library as a whole, proved from the definitions of its
//! tasks.

use crate::boundary::{
    decoded, Call, RawCall, STATUS_INVALID_POINTER, STATUS_INVALID_TEXT, STATUS_OK,
};
use crate::channel::LastError;
use crate::error::ProjError;
use crate::handle::{Opening, Plan, Proj, Releasing};
use crate::ledger::{
    answered, calls, in_order, run, settle, theorem_books_kept, theorem_runs_end, Ledger, Task,
};
use crate::sys::{PJconsts, Reply, Request, ZERO};
use crate::transform::{Transform2, Transform3};
use vstd::prelude::*;
use vstd::utf8::{encode_utf8, valid_utf8};

verus! {

/// A planar transformation looks at the first two components of a point
/// and at nothing else: a point of three or more components starts the very
/// transformation that its first two start, so that the two go the same way
/// and end alike, whatever the engine answers.
pub proof fn law_planar_ignores_further_components(proj: PJconsts, point: Seq<u64>)
    requires
        point.len() >= 3,
    ensures
        Transform2::<Seq<char>>::start(proj, point) == Transform2::<Seq<char>>::start(
            proj,
            seq![point[0], point[1]],
        ),
{
}

/// A spatial transformation takes a missing z as zero: a point of two
/// components starts the very transformation that the same point with a
/// third component of zero starts, so that the two go the same way and end
/// alike, whatever the engine answers.
pub proof fn law_spatial_missing_z_is_zero(proj: PJconsts, point: Seq<u64>)
    requires
        point.len() == 2,
    ensures
        Transform3::<Seq<char>>::start(proj, point) == Transform3::<Seq<char>>::start(
            proj,
            seq![point[0], point[1], ZERO],
        ),
{
}

/// A point of fewer than two components is refused by both
/// transformations, with the number of its components, and nothing is
/// asked of the engine.
pub proof fn law_short_point_is_refused(proj: PJconsts, point: Seq<u64>)
    requires
        point.len() < 2,
    ensures
        Transform2::<Seq<char>>::start(proj, point).pending() is None,
        Transform3::<Seq<char>>::start(proj, point).pending() is None,
        Transform2::<Seq<char>>::start(proj, point).outcome() == Some(
            Err::<(u64, u64), _>(
                ProjError::<Seq<char>>::UnsupportedDimensions(point.len() as usize),
            ),
        ),
        Transform3::<Seq<char>>::start(proj, point).outcome() == Some(
            Err::<(u64, u64, u64), _>(
                ProjError::<Seq<char>>::UnsupportedDimensions(point.len() as usize),
            ),
        ),
{
}

/// The release of a valid handle asks for two calls and no more: the
/// destruction of the transform object, then that of the context.
pub proof fn law_release_of_valid_handle(handle: Proj)
    requires
        handle.wf(),
    ensures
        Releasing::of(handle).pending() == Some(
            Request::<Seq<char>>::Destroy { obj: handle.proj },
        ),
        Releasing::of(handle).after(Reply::Done).pending() == Some(
            Request::<Seq<char>>::ContextDestroy { ctx: handle.ctx },
        ),
        Releasing::of(handle).after(Reply::Done).after(Reply::Done) == Releasing::Done,
{
}

proof fn lemma_no_object_left(task: Releasing, replies: Seq<Reply<Seq<char>>>)
    requires
        !(task is Object),
    ensures
        forall|i: int| 0 <= i < calls(task, replies).len() ==> !(calls(task, replies)[i] is Destroy),
    decreases replies.len(),
{
    if replies.len() > 0 && task.awaits() is Some {
        lemma_no_object_left(task.step(replies[0]), replies.drop_first());
    }
}

/// The release of a handle, valid or not, never asks for the destruction
/// of the context before that of the transform object: in every run, once
/// the destruction of a context was asked for, that of a transform object
/// is not asked for any more.
pub proof fn law_release_never_destroys_context_first(
    handle: Proj,
    replies: Seq<Reply<Seq<char>>>,
)
    ensures
        forall|i: int, j: int|
            0 <= i < j < calls(Releasing::of(handle), replies).len() ==> !(calls(
                Releasing::of(handle),
                replies,
            )[i] is ContextDestroy && calls(Releasing::of(handle), replies)[j] is Destroy),
    decreases replies.len(),
{
    let task = Releasing::of(handle);
    if replies.len() > 0 && task.awaits() is Some {
        let next = task.step(replies[0]);
        let rest = replies.drop_first();
        if task is Object {
            // The first call destroys the transform object; what follows
            // holds none.
            if next is Object {
                // The reply did not answer the call: the release stands where
                // it stood, as the release of the same handle.
                assert(next == task);
                law_release_never_destroys_context_first(handle, rest);
            } else {
                lemma_no_object_left(next, rest);
            }
        } else {
            lemma_no_object_left(task, replies);
        }
    }
}

/// Building a handle never leaves a part of one behind. In every run in
/// which each reply answers its call, every call is in order for what the
/// engine has alive when it is made; after a failure the engine has
/// nothing alive of what the run made; after a success it has the two
/// resources of the handle, which is valid, and nothing else.
pub proof fn law_building_leaves_no_partial_handle(
    plan: Plan<Seq<char>>,
    replies: Seq<Reply<Seq<char>>>,
)
    requires
        answered(Opening::<Seq<char>>::Context { plan }, replies),
    ensures
        ({
            let start = Opening::<Seq<char>>::Context { plan };
            let made = calls(start, replies);
            &&& in_order(Ledger::empty(), made, replies)
            &&& match run(start, replies) {
                Opening::Done { outcome: Err(_) } => settle(Ledger::empty(), made, replies)
                    == Ledger::empty(),
                Opening::Done { outcome: Ok(handle) } => handle.wf() && settle(
                    Ledger::empty(),
                    made,
                    replies,
                ) == Ledger::pair(handle.ctx, handle.proj),
                _ => true,
            }
        }),
{
    theorem_books_kept(Opening::<Seq<char>>::Context { plan }, replies);
}

/// Releasing a valid handle leaves nothing of it. In every run in which
/// each reply answers its call, every call is in order for what the engine
/// has alive of the handle when it is made, and once the release is
/// finished the engine has nothing of it alive.
pub proof fn law_release_leaves_nothing(handle: Proj, replies: Seq<Reply<Seq<char>>>)
    requires
        handle.wf(),
        answered(Releasing::of(handle), replies),
    ensures
        ({
            let start = Releasing::of(handle);
            let made = calls(start, replies);
            let before = Ledger::pair(handle.ctx, handle.proj);
            &&& in_order(before, made, replies)
            &&& run(start, replies) is Done ==> settle(before, made, replies) == Ledger::empty()
        }),
{
    broadcast use vstd::multiset::group_multiset_axioms;

    let start = Releasing::of(handle);
    assert(start.holds() =~= Ledger::pair(handle.ctx, handle.proj));
    theorem_books_kept(start, replies);
}

/// A whole call never leaves anything behind. In every run in which each
/// reply answers its call, every call is in order for what the engine has
/// alive when it is made, and once the call is finished, well or not, the
/// engine has nothing alive of what the run made.
pub proof fn law_call_leaves_nothing(
    from: Seq<char>,
    to: Seq<char>,
    x: u64,
    y: u64,
    replies: Seq<Reply<Seq<char>>>,
)
    requires
        answered(Call::<Seq<char>>::start(from, to, x, y), replies),
    ensures
        ({
            let start = Call::<Seq<char>>::start(from, to, x, y);
            let made = calls(start, replies);
            &&& in_order(Ledger::empty(), made, replies)
            &&& run(start, replies) is Done ==> settle(Ledger::empty(), made, replies)
                == Ledger::empty()
        }),
{
    theorem_books_kept(Call::<Seq<char>>::start(from, to, x, y), replies);
}

/// A raw call never leaves anything behind, whatever the host handed in.
/// In every run in which each reply answers its call, every call is in
/// order for what the engine has alive when it is made, and once the raw
/// call is finished the engine has nothing alive of what the run made.
pub proof fn law_raw_call_leaves_nothing(
    from: Option<Seq<u8>>,
    from_len: nat,
    to: Option<Seq<u8>>,
    to_len: nat,
    x: u64,
    y: u64,
    out_is_null: bool,
    replies: Seq<Reply<Seq<char>>>,
)
    requires
        answered(
            RawCall::<Seq<char>>::start(from, from_len, to, to_len, x, y, out_is_null),
            replies,
        ),
    ensures
        ({
            let start = RawCall::<Seq<char>>::start(from, from_len, to, to_len, x, y, out_is_null);
            let made = calls(start, replies);
            &&& in_order(Ledger::empty(), made, replies)
            &&& run(start, replies).end() is Some ==> settle(Ledger::empty(), made, replies)
                == Ledger::empty()
        }),
{
    theorem_books_kept(
        RawCall::<Seq<char>>::start(from, from_len, to, to_len, x, y, out_is_null),
        replies,
    );
}

/// Every task comes to an end: in a run in which each reply answers its
/// call, the building of a handle asks for eight calls at most, its release
/// for two, and a whole call, raw or not, for fourteen.
pub proof fn law_tasks_end(
    plan: Plan<Seq<char>>,
    handle: Proj,
    call: Call<Seq<char>>,
    replies: Seq<Reply<Seq<char>>>,
)
    requires
        call matches Call::Open { opening: Opening::Context { .. }, .. },
    ensures
        answered(Opening::<Seq<char>>::Context { plan }, replies) ==> replies.len() <= 8,
        answered(Releasing::of(handle), replies) ==> replies.len() <= 2,
        answered(call, replies) ==> replies.len() <= 14,
        answered(RawCall::<Seq<char>>::Run { call }, replies) ==> replies.len() <= 14,
{
    if answered(Opening::<Seq<char>>::Context { plan }, replies) {
        theorem_runs_end(Opening::<Seq<char>>::Context { plan }, replies);
    }
    if answered(Releasing::of(handle), replies) {
        theorem_runs_end(Releasing::of(handle), replies);
    }
    if answered(call, replies) {
        theorem_runs_end(call, replies);
    }
    if answered(RawCall::<Seq<char>>::Run { call }, replies) {
        theorem_runs_end(RawCall::<Seq<char>>::Run { call }, replies);
    }
}

/// A task that asks for nothing is finished, and a finished task asks for
/// nothing: of every building, transformation and release, and of every
/// call in a valid state.
pub proof fn law_finished_when_nothing_is_asked(
    opening: Opening<Seq<char>>,
    planar: Transform2<Seq<char>>,
    spatial: Transform3<Seq<char>>,
    releasing: Releasing,
    call: Call<Seq<char>>,
    raw: RawCall<Seq<char>>,
)
    requires
        call.valid(),
        raw.valid(),
    ensures
        opening.pending() is None <==> opening is Done,
        planar.pending() is None <==> planar.outcome() is Some,
        spatial.pending() is None <==> spatial.outcome() is Some,
        releasing.pending() is None <==> releasing is Done,
        call.pending() is None <==> call.outcome() is Some,
        raw.pending() is None <==> raw.end() is Some,
{
}

/// A raw call with a null output pointer is refused at once, whatever else
/// the host handed in: nothing is asked of the engine, the status is that
/// of an invalid pointer, and there is nothing to write through the
/// pointer.
pub proof fn law_null_output_is_refused(
    from: Option<Seq<u8>>,
    from_len: nat,
    to: Option<Seq<u8>>,
    to_len: nat,
    x: u64,
    y: u64,
)
    ensures
        ({
            let start = RawCall::<Seq<char>>::start(from, from_len, to, to_len, x, y, true);
            &&& start.pending() is None
            &&& start.end() matches Some(end)
            &&& end.outcome.status == STATUS_INVALID_POINTER
            &&& end.outcome.out is None
            &&& end.message is Some
        }),
{
}

/// A raw call whose pointers are in order and whose source bytes are not
/// valid UTF-8 is refused at once: nothing is asked of the engine, the
/// status is that of invalid text, there is nothing to write, and the
/// message left in the channel is not empty. The same holds of the target
/// bytes where the source is in order.
pub proof fn law_invalid_text_is_refused(
    from: Seq<u8>,
    to: Seq<u8>,
    x: u64,
    y: u64,
    channel: LastError,
)
    requires
        !valid_utf8(from) || !valid_utf8(to),
    ensures
        ({
            let start = RawCall::<Seq<char>>::start(
                Some(from),
                from.len(),
                Some(to),
                to.len(),
                x,
                y,
                false,
            );
            &&& start.pending() is None
            &&& start.end() matches Some(end)
            &&& end.outcome.status == STATUS_INVALID_TEXT
            &&& end.outcome.out is None
            &&& end.message matches Some(message)
            &&& (channel.holds(encode_utf8(message)) ==> channel.len() > 0)
        }),
{
    reveal_strlit("from_crs is not valid UTF-8");
    reveal_strlit("to_crs is not valid UTF-8");
    lemma_text_has_bytes("from_crs is not valid UTF-8"@);
    lemma_text_has_bytes("to_crs is not valid UTF-8"@);
}

proof fn lemma_text_has_bytes(text: Seq<char>)
    requires
        text.len() > 0,
    ensures
        encode_utf8(text).len() > 0,
{
    reveal_with_fuel(encode_utf8, 2);
}

proof fn lemma_raw_run_keeps_its_form(start: RawCall<Seq<char>>, replies: Seq<Reply<Seq<char>>>)
    ensures
        start is Rejected ==> run(start, replies) == start,
        start is Run ==> run(start, replies) is Run,
    decreases replies.len(),
{
    if replies.len() > 0 {
        lemma_raw_run_keeps_its_form(start.step(replies[0]), replies.drop_first());
    }
}

/// The status of a raw call says how it ended, whatever the engine
/// answered. It is one of the five codes. It is that of success exactly
/// when there are two values to write, and exactly then no message is left
/// in the channel. It is that of an invalid pointer exactly when the output
/// pointer is null or an input pointer is null beside a length that is not
/// zero; and that of invalid text exactly when the pointers are in order
/// and the bytes of the source or of the target are not valid UTF-8.
pub proof fn law_raw_status_tells_the_end(
    from: Option<Seq<u8>>,
    from_len: nat,
    to: Option<Seq<u8>>,
    to_len: nat,
    x: u64,
    y: u64,
    out_is_null: bool,
    replies: Seq<Reply<Seq<char>>>,
)
    ensures
        ({
            let start = RawCall::<Seq<char>>::start(from, from_len, to, to_len, x, y, out_is_null);
            let bad_pointer = out_is_null || (from_len > 0 && from is None) || (to_len > 0 && to
                is None);
            let bad_text = decoded(from) is None || decoded(to) is None;
            run(start, replies).end() matches Some(end) ==> {
                &&& 0 <= end.outcome.status <= 4
                &&& (end.outcome.status == STATUS_OK <==> end.outcome.out is Some)
                &&& (end.outcome.status == STATUS_OK <==> end.message is None)
                &&& (end.outcome.status == STATUS_INVALID_POINTER <==> bad_pointer)
                &&& (end.outcome.status == STATUS_INVALID_TEXT <==> !bad_pointer && bad_text)
            }
        }),
{
    lemma_raw_run_keeps_its_form(
        RawCall::<Seq<char>>::start(from, from_len, to, to_len, x, y, out_is_null),
        replies,
    );
}

} // verus!
