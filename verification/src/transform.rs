//! The coordinate transform operations on a handle.
//!
//! A point is given by the bit patterns of its components, in order. It
//! needs at least two. The engine's coordinate always has four slots: a
//! missing z is zero and the time is positive infinity, the engine's mark
//! for "unspecified". The error flag of the transform object is cleared
//! before each transformation and read after it.

use crate::error::{outcome_view, ProjError};
use crate::handle::Proj;
use crate::sys::{
    view_of, PJconsts, Reply, Request, PJ_COORD, PJ_DIRECTION_PJ_FWD, PJ_XYZT, POSITIVE_INFINITY,
    ZERO,
};
use crate::translate::{proj_error_message, Explaining};
use vstd::prelude::*;

verus! {

/// The engine coordinate for a planar transformation of `point`: its first
/// two components, a zero z, and no time. Further components are left out.
pub open spec fn planar_input(point: Seq<u64>) -> PJ_COORD
    recommends
        point.len() >= 2,
{
    PJ_COORD::from_xyzt(PJ_XYZT { x: point[0], y: point[1], z: ZERO, t: POSITIVE_INFINITY })
}

/// The engine coordinate for a spatial transformation of `point`: its first
/// two components, its third as z where it has one and zero where it has
/// not, and no time.
pub open spec fn spatial_input(point: Seq<u64>) -> PJ_COORD
    recommends
        point.len() >= 2,
{
    PJ_COORD::from_xyzt(
        PJ_XYZT {
            x: point[0],
            y: point[1],
            z: if point.len() >= 3 {
                point[2]
            } else {
                ZERO
            },
            t: POSITIVE_INFINITY,
        },
    )
}

/// One forward transformation, in progress. `T` is the type of text:
/// `String` in running code, `Seq<char>` in contracts.
#[derive(Debug)]
pub enum Transforming<T = String> {
    /// Waiting for the error flag of the transform object to be cleared.
    Reset { proj: PJconsts, coord: PJ_COORD },
    /// Waiting for the transformed coordinate.
    Forward { proj: PJconsts, coord: PJ_COORD },
    /// Waiting for the error flag as the transformation left it.
    Check { proj: PJconsts, out: PJ_COORD },
    /// The flag was set: waiting for the engine's explanation. Once that is
    /// there the transformation has failed with it.
    Explain { explaining: Explaining<T> },
    /// Finished.
    Done { outcome: Result<PJ_COORD, ProjError<T>> },
}

impl View for Transforming<String> {
    type V = Transforming<Seq<char>>;

    open spec fn view(&self) -> Transforming<Seq<char>> {
        match *self {
            Transforming::Reset { proj, coord } => Transforming::Reset { proj, coord },
            Transforming::Forward { proj, coord } => Transforming::Forward { proj, coord },
            Transforming::Check { proj, out } => Transforming::Check { proj, out },
            Transforming::Explain { explaining } => Transforming::Explain {
                explaining: explaining@,
            },
            Transforming::Done { outcome } => Transforming::Done { outcome: outcome_view(outcome) },
        }
    }
}

impl Transforming<Seq<char>> {
    /// Where a transformation starts. A point of fewer than two components
    /// fails at once, with their number, and nothing is asked of the engine.
    pub open spec fn start(proj: PJconsts, components: nat, coord: PJ_COORD) -> Self {
        if components < 2 {
            Transforming::Done { outcome: Err(ProjError::UnsupportedDimensions(components as usize)) }
        } else {
            Transforming::Reset { proj, coord }
        }
    }

    /// The engine call that the transformation is waiting for; none once it
    /// is finished.
    pub open spec fn pending(self) -> Option<Request<Seq<char>>> {
        match self {
            Transforming::Reset { proj, .. } => Some(Request::ErrnoReset { obj: proj }),
            Transforming::Forward { proj, coord } => Some(
                Request::Trans { obj: proj, direction: PJ_DIRECTION_PJ_FWD, coord },
            ),
            Transforming::Check { proj, .. } => Some(Request::Errno { obj: proj }),
            Transforming::Explain { explaining } => explaining.pending(),
            Transforming::Done { .. } => None,
        }
    }

    /// The transformation after the engine's reply. A reply that does not
    /// answer the pending call changes nothing.
    pub open spec fn after(self, reply: Reply<Seq<char>>) -> Self {
        match (self, reply) {
            (Transforming::Reset { proj, coord }, Reply::Done) => Transforming::Forward {
                proj,
                coord,
            },
            (Transforming::Forward { proj, .. }, Reply::Coord(out)) => Transforming::Check {
                proj,
                out,
            },
            (Transforming::Check { out, .. }, Reply::Code(err)) => if err != 0 {
                Transforming::Explain { explaining: Explaining::of_code(err) }
            } else {
                Transforming::Done { outcome: Ok(out) }
            },
            (Transforming::Explain { explaining }, _) => Transforming::Explain {
                explaining: explaining.after(reply),
            },
            _ => self,
        }
    }

    /// A bound on the number of calls that the transformation has yet to
    /// ask for.
    pub open spec fn left(self) -> nat {
        match self {
            Transforming::Reset { .. } => 4,
            Transforming::Forward { .. } => 3,
            Transforming::Check { .. } => 2,
            Transforming::Explain { explaining } => explaining.left(),
            Transforming::Done { .. } => 0,
        }
    }

    /// Whether the transformation is one on `proj` that is not over yet.
    pub open spec fn working_on(self, proj: PJconsts) -> bool {
        match self {
            Transforming::Reset { proj: used, .. } => used == proj,
            Transforming::Forward { proj: used, .. } => used == proj,
            Transforming::Check { proj: used, .. } => used == proj,
            Transforming::Explain { explaining } => explaining is Text,
            Transforming::Done { .. } => false,
        }
    }

    /// The engine's output coordinate or the failure, once the
    /// transformation is finished.
    pub open spec fn outcome(self) -> Option<Result<PJ_COORD, ProjError<Seq<char>>>> {
        match self {
            Transforming::Done { outcome } => Some(outcome),
            Transforming::Explain { explaining: Explaining::Done { message } } => Some(
                Err(ProjError::Transform(message)),
            ),
            _ => None,
        }
    }
}

impl Transforming<String> {
    fn unsupported(components: usize) -> (task: Transforming)
        ensures
            task@ == (Transforming::<Seq<char>>::Done {
                outcome: Err(ProjError::UnsupportedDimensions(components)),
            }),
    {
        Transforming::Done { outcome: Err(ProjError::UnsupportedDimensions(components)) }
    }

    /// The engine call to make next; none once the transformation is
    /// finished.
    pub fn request(&self) -> (request: Option<Request>)
        ensures
            view_of(request) == self@.pending(),
    {
        match self {
            Transforming::Reset { proj, .. } => Some(Request::ErrnoReset { obj: *proj }),
            Transforming::Forward { proj, coord } => Some(
                Request::Trans { obj: *proj, direction: PJ_DIRECTION_PJ_FWD, coord: *coord },
            ),
            Transforming::Check { proj, .. } => Some(Request::Errno { obj: *proj }),
            Transforming::Explain { explaining } => explaining.request(),
            Transforming::Done { .. } => None,
        }
    }

    /// Takes the engine's reply to the pending call.
    pub fn resume(self, reply: Reply) -> (next: Transforming)
        ensures
            next@ == self@.after(reply@),
    {
        match self {
            Transforming::Reset { proj, coord } => match reply {
                Reply::Done => Transforming::Forward { proj, coord },
                _ => Transforming::Reset { proj, coord },
            },
            Transforming::Forward { proj, coord } => match reply {
                Reply::Coord(out) => Transforming::Check { proj, out },
                _ => Transforming::Forward { proj, coord },
            },
            Transforming::Check { proj, out } => match reply {
                Reply::Code(err) => if err != 0 {
                    Transforming::Explain { explaining: proj_error_message(err) }
                } else {
                    Transforming::Done { outcome: Ok(out) }
                },
                _ => Transforming::Check { proj, out },
            },
            Transforming::Explain { explaining } => Transforming::Explain {
                explaining: explaining.resume(reply),
            },
            Transforming::Done { outcome } => Transforming::Done { outcome },
        }
    }

    /// Tells a finished transformation from one in progress: the engine's
    /// output coordinate or the failure of the one, the other handed back
    /// as it is.
    pub fn settle(self) -> (settled: Result<Result<PJ_COORD, ProjError>, Transforming>)
        ensures
            match self@.outcome() {
                Some(done) => settled matches Ok(result) && outcome_view(result) == done,
                None => settled matches Err(task) && task@ == self@,
            },
    {
        match self {
            Transforming::Done { outcome } => Ok(outcome),
            Transforming::Explain { explaining } => match explaining {
                Explaining::Done { message } => Ok(Err(ProjError::Transform(message))),
                _ => Err(Transforming::Explain { explaining }),
            },
            _ => Err(self),
        }
    }

    /// The engine's output coordinate or the failure, once the
    /// transformation is finished.
    pub fn outcome(self) -> (outcome: Option<Result<PJ_COORD, ProjError>>)
        ensures
            match self@.outcome() {
                Some(done) => outcome matches Some(result) && outcome_view(result) == done,
                None => outcome is None,
            },
    {
        match self.settle() {
            Ok(outcome) => Some(outcome),
            Err(_) => None,
        }
    }
}

/// A planar transformation in progress: it ends with the first two
/// components of the engine's output.
#[derive(Debug)]
pub struct Transform2<T = String> {
    pub task: Transforming<T>,
}

/// A spatial transformation in progress: it ends with the first three
/// components of the engine's output.
#[derive(Debug)]
pub struct Transform3<T = String> {
    pub task: Transforming<T>,
}

impl View for Transform2<String> {
    type V = Transform2<Seq<char>>;

    open spec fn view(&self) -> Transform2<Seq<char>> {
        Transform2 { task: self.task@ }
    }
}

impl View for Transform3<String> {
    type V = Transform3<Seq<char>>;

    open spec fn view(&self) -> Transform3<Seq<char>> {
        Transform3 { task: self.task@ }
    }
}

impl Transform2<Seq<char>> {
    /// Where the planar transformation of `point` by `proj` starts.
    pub open spec fn start(proj: PJconsts, point: Seq<u64>) -> Self {
        Transform2 { task: Transforming::<Seq<char>>::start(proj, point.len(), planar_input(point)) }
    }

    /// The engine call that the transformation is waiting for; none once it
    /// is finished.
    pub open spec fn pending(self) -> Option<Request<Seq<char>>> {
        self.task.pending()
    }

    /// The transformation after the engine's reply.
    pub open spec fn after(self, reply: Reply<Seq<char>>) -> Self {
        Transform2 { task: self.task.after(reply) }
    }

    /// The transformed `(x, y)` or the failure, once the transformation is
    /// finished.
    pub open spec fn outcome(self) -> Option<Result<(u64, u64), ProjError<Seq<char>>>> {
        match self.task.outcome() {
            Some(Ok(out)) => Some(Ok((out.xy().x, out.xy().y))),
            Some(Err(error)) => Some(Err(error)),
            None => None,
        }
    }
}

impl Transform3<Seq<char>> {
    /// Where the spatial transformation of `point` by `proj` starts.
    pub open spec fn start(proj: PJconsts, point: Seq<u64>) -> Self {
        Transform3 { task: Transforming::<Seq<char>>::start(proj, point.len(), spatial_input(point)) }
    }

    /// The engine call that the transformation is waiting for; none once it
    /// is finished.
    pub open spec fn pending(self) -> Option<Request<Seq<char>>> {
        self.task.pending()
    }

    /// The transformation after the engine's reply.
    pub open spec fn after(self, reply: Reply<Seq<char>>) -> Self {
        Transform3 { task: self.task.after(reply) }
    }

    /// The transformed `(x, y, z)` or the failure, once the transformation
    /// is finished.
    pub open spec fn outcome(self) -> Option<Result<(u64, u64, u64), ProjError<Seq<char>>>> {
        match self.task.outcome() {
            Some(Ok(out)) => Some(Ok((out.xyzt().x, out.xyzt().y, out.xyzt().z))),
            Some(Err(error)) => Some(Err(error)),
            None => None,
        }
    }
}

impl Proj {
    /// Starts the transformation of a point to `(x, y)`.
    ///
    /// A point of two components is taken as it is; of a longer one the
    /// third and further components are left out.
    pub fn transform2(&self, point: &[u64]) -> (task: Transform2)
        ensures
            task@ == Transform2::<Seq<char>>::start(self.proj, point@),
            point@.len() < 2 ==> task@.pending() is None && task@.outcome() == Some(
                Err::<(u64, u64), _>(ProjError::<Seq<char>>::UnsupportedDimensions(point@.len() as usize)),
            ),
            point@.len() >= 2 ==> task@.pending() == Some(
                Request::<Seq<char>>::ErrnoReset { obj: self.proj },
            ),
    {
        if point.len() < 2 {
            return Transform2 { task: Transforming::unsupported(point.len()) };
        }
        let coord = PJ_COORD::from_xyzt(
            PJ_XYZT { x: point[0], y: point[1], z: ZERO, t: POSITIVE_INFINITY },
        );
        Transform2 { task: Transforming::Reset { proj: self.proj, coord } }
    }

    /// Starts the transformation of a point to `(x, y, z)`.
    ///
    /// The third component of the point is its z; a point of two components
    /// has z zero.
    pub fn transform3(&self, point: &[u64]) -> (task: Transform3)
        ensures
            task@ == Transform3::<Seq<char>>::start(self.proj, point@),
            point@.len() < 2 ==> task@.pending() is None && task@.outcome() == Some(
                Err::<(u64, u64, u64), _>(
                    ProjError::<Seq<char>>::UnsupportedDimensions(point@.len() as usize),
                ),
            ),
            point@.len() >= 2 ==> task@.pending() == Some(
                Request::<Seq<char>>::ErrnoReset { obj: self.proj },
            ),
    {
        if point.len() < 2 {
            return Transform3 { task: Transforming::unsupported(point.len()) };
        }
        let z: u64 = if point.len() >= 3 {
            point[2]
        } else {
            ZERO
        };
        let coord = PJ_COORD::from_xyzt(PJ_XYZT { x: point[0], y: point[1], z, t: POSITIVE_INFINITY });
        Transform3 { task: Transforming::Reset { proj: self.proj, coord } }
    }
}

impl Transform2<String> {
    /// The engine call to make next; none once the transformation is
    /// finished.
    pub fn request(&self) -> (request: Option<Request>)
        ensures
            view_of(request) == self@.pending(),
    {
        self.task.request()
    }

    /// Takes the engine's reply to the pending call.
    pub fn resume(self, reply: Reply) -> (next: Transform2)
        ensures
            next@ == self@.after(reply@),
    {
        Transform2 { task: self.task.resume(reply) }
    }

    /// Tells a finished transformation from one in progress: the
    /// transformed `(x, y)` or the failure of the one, the other handed back
    /// as it is.
    pub fn settle(self) -> (settled: Result<Result<(u64, u64), ProjError>, Transform2>)
        ensures
            match self@.outcome() {
                Some(done) => settled matches Ok(result) && outcome_view(result) == done,
                None => settled matches Err(task) && task@ == self@,
            },
    {
        match self.task.settle() {
            Ok(Ok(out)) => {
                let xy = out.xy();
                Ok(Ok((xy.x, xy.y)))
            },
            Ok(Err(error)) => Ok(Err(error)),
            Err(task) => Err(Transform2 { task }),
        }
    }

    /// The transformed `(x, y)` or the failure, once the transformation is
    /// finished.
    pub fn outcome(self) -> (outcome: Option<Result<(u64, u64), ProjError>>)
        ensures
            match self@.outcome() {
                Some(done) => outcome matches Some(result) && outcome_view(result) == done,
                None => outcome is None,
            },
    {
        match self.settle() {
            Ok(outcome) => Some(outcome),
            Err(_) => None,
        }
    }
}

impl Transform3<String> {
    /// The engine call to make next; none once the transformation is
    /// finished.
    pub fn request(&self) -> (request: Option<Request>)
        ensures
            view_of(request) == self@.pending(),
    {
        self.task.request()
    }

    /// Takes the engine's reply to the pending call.
    pub fn resume(self, reply: Reply) -> (next: Transform3)
        ensures
            next@ == self@.after(reply@),
    {
        Transform3 { task: self.task.resume(reply) }
    }

    /// The transformed `(x, y, z)` or the failure, once the transformation
    /// is finished.
    pub fn outcome(self) -> (outcome: Option<Result<(u64, u64, u64), ProjError>>)
        ensures
            match self@.outcome() {
                Some(done) => outcome matches Some(result) && outcome_view(result) == done,
                None => outcome is None,
            },
    {
        match self.task.outcome() {
            Some(Ok(out)) => {
                let xyzt = out.xyzt();
                Some(Ok((xyzt.x, xyzt.y, xyzt.z)))
            },
            Some(Err(error)) => Some(Err(error)),
            None => None,
        }
    }
}

} // verus!
