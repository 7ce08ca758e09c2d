//! The engine's vocabulary: handles, coordinates, and the calls that can be
//! asked of the engine together with what it can answer.
//!
//! A double is carried as its IEEE 754 binary64 bit pattern in a `u64`, so a
//! coordinate passes through this library bit for bit.

use vstd::prelude::*;

verus! {

/// Direction of a transformation, as the engine numbers it.
#[allow(non_camel_case_types)]
pub type PJ_DIRECTION = i32;

pub const PJ_DIRECTION_PJ_INV: PJ_DIRECTION = -1;

pub const PJ_DIRECTION_PJ_IDENT: PJ_DIRECTION = 0;

pub const PJ_DIRECTION_PJ_FWD: PJ_DIRECTION = 1;

/// Bit pattern of the double `0.0`.
pub const ZERO: u64 = 0;

/// Bit pattern of positive infinity, the engine's mark for "time unspecified".
pub const POSITIVE_INFINITY: u64 = 0x7FF0_0000_0000_0000;

/// An engine evaluation context, named by its address. Address zero is the
/// null handle that the engine returns when it could not make one.
#[allow(non_camel_case_types)]
#[derive(Clone, Copy, Debug, PartialEq, Eq)]
pub struct PJ_CONTEXT {
    pub addr: usize,
}

/// An engine transform object, named by its address. Address zero is the
/// null handle that the engine returns when it could not make one.
#[allow(non_camel_case_types)]
#[derive(Clone, Copy, Debug, PartialEq, Eq)]
pub struct PJconsts {
    pub addr: usize,
}

impl PJ_CONTEXT {
    pub open spec fn spec_is_null(&self) -> bool {
        self.addr == 0
    }

    /// Whether this is the null handle.
    #[verifier::when_used_as_spec(spec_is_null)]
    pub fn is_null(&self) -> (null: bool)
        ensures
            null == (self.addr == 0),
    {
        self.addr == 0
    }
}

impl PJconsts {
    pub open spec fn spec_is_null(&self) -> bool {
        self.addr == 0
    }

    /// Whether this is the null handle.
    #[verifier::when_used_as_spec(spec_is_null)]
    pub fn is_null(&self) -> (null: bool)
        ensures
            null == (self.addr == 0),
    {
        self.addr == 0
    }
}

/// The first two slots of a coordinate, read as planar x and y.
#[allow(non_camel_case_types)]
#[derive(Clone, Copy, Debug, PartialEq, Eq)]
pub struct PJ_XY {
    pub x: u64,
    pub y: u64,
}

/// The four slots of a coordinate, read as x, y, z and time.
#[allow(non_camel_case_types)]
#[derive(Clone, Copy, Debug, PartialEq, Eq)]
pub struct PJ_XYZT {
    pub x: u64,
    pub y: u64,
    pub z: u64,
    pub t: u64,
}

/// The four slots of a coordinate, read as longitude, latitude, height and
/// time.
#[allow(non_camel_case_types)]
#[derive(Clone, Copy, Debug, PartialEq, Eq)]
pub struct PJ_LPZT {
    pub lam: u64,
    pub phi: u64,
    pub z: u64,
    pub t: u64,
}

/// The engine's coordinate: always four slots, whatever reading is taken of
/// them.
#[allow(non_camel_case_types)]
#[derive(Clone, Copy, Debug, PartialEq, Eq)]
pub struct PJ_COORD {
    pub v: [u64; 4],
}

impl PJ_COORD {
    pub open spec fn spec_from_xyzt(xyzt: PJ_XYZT) -> PJ_COORD {
        PJ_COORD { v: [xyzt.x, xyzt.y, xyzt.z, xyzt.t] }
    }

    /// The coordinate whose four slots are those of `xyzt`.
    #[verifier::when_used_as_spec(spec_from_xyzt)]
    pub fn from_xyzt(xyzt: PJ_XYZT) -> (coord: PJ_COORD)
        ensures
            coord == Self::spec_from_xyzt(xyzt),
            coord.xyzt() == xyzt,
    {
        PJ_COORD { v: [xyzt.x, xyzt.y, xyzt.z, xyzt.t] }
    }

    pub open spec fn spec_xy(&self) -> PJ_XY {
        PJ_XY { x: self.v@[0], y: self.v@[1] }
    }

    pub open spec fn spec_xyzt(&self) -> PJ_XYZT {
        PJ_XYZT { x: self.v@[0], y: self.v@[1], z: self.v@[2], t: self.v@[3] }
    }

    pub open spec fn spec_lpzt(&self) -> PJ_LPZT {
        PJ_LPZT { lam: self.v@[0], phi: self.v@[1], z: self.v@[2], t: self.v@[3] }
    }

    /// The planar reading: slots 0 and 1.
    #[verifier::when_used_as_spec(spec_xy)]
    pub fn xy(&self) -> (xy: PJ_XY)
        ensures
            xy == self.spec_xy(),
    {
        PJ_XY { x: self.v[0], y: self.v[1] }
    }

    /// The spatial-temporal reading: all four slots in order.
    #[verifier::when_used_as_spec(spec_xyzt)]
    pub fn xyzt(&self) -> (xyzt: PJ_XYZT)
        ensures
            xyzt == self.spec_xyzt(),
    {
        PJ_XYZT { x: self.v[0], y: self.v[1], z: self.v[2], t: self.v[3] }
    }

    /// The geodetic reading: all four slots in order.
    #[verifier::when_used_as_spec(spec_lpzt)]
    pub fn lpzt(&self) -> (lpzt: PJ_LPZT)
        ensures
            lpzt == self.spec_lpzt(),
    {
        PJ_LPZT { lam: self.v[0], phi: self.v[1], z: self.v[2], t: self.v[3] }
    }
}

/// A call that a task asks of the engine. `T` is the type of text: `String`
/// in running code, `Seq<char>` in contracts.
#[derive(Debug)]
pub enum Request<T = String> {
    /// Make an evaluation context.
    ContextCreate,
    /// Destroy a context.
    ContextDestroy { ctx: PJ_CONTEXT },
    /// Read the error code last recorded on a context.
    ContextErrno { ctx: PJ_CONTEXT },
    /// Ask for the message that a context has for an error code.
    ContextErrnoString { ctx: PJ_CONTEXT, err: i32 },
    /// Build a transform object from a definition.
    Create { ctx: PJ_CONTEXT, definition: T },
    /// Build a transform object between two coordinate reference systems,
    /// with no area of interest.
    CreateCrsToCrs { ctx: PJ_CONTEXT, source_crs: T, target_crs: T },
    /// Derive from `obj` a transform object with conventional axis order.
    NormalizeForVisualization { ctx: PJ_CONTEXT, obj: PJconsts },
    /// Destroy a transform object.
    Destroy { obj: PJconsts },
    /// Clear the error code recorded on a transform object.
    ErrnoReset { obj: PJconsts },
    /// Read the error code recorded on a transform object.
    Errno { obj: PJconsts },
    /// Ask for the message of an error code.
    ErrnoString { err: i32 },
    /// Transform one coordinate.
    Trans { obj: PJconsts, direction: PJ_DIRECTION, coord: PJ_COORD },
}

/// What the engine answered.
#[derive(Debug)]
pub enum Reply<T = String> {
    /// The call returns nothing.
    Done,
    /// The context that was made, or the null handle.
    Context(PJ_CONTEXT),
    /// The transform object that was made, or the null handle.
    Object(PJconsts),
    /// An error code; zero means no error.
    Code(i32),
    /// A message, or none where the engine has none.
    Text(Option<T>),
    /// A transformed coordinate.
    Coord(PJ_COORD),
}

impl View for Request<String> {
    type V = Request<Seq<char>>;

    open spec fn view(&self) -> Request<Seq<char>> {
        match *self {
            Request::ContextCreate => Request::ContextCreate,
            Request::ContextDestroy { ctx } => Request::ContextDestroy { ctx },
            Request::ContextErrno { ctx } => Request::ContextErrno { ctx },
            Request::ContextErrnoString { ctx, err } => Request::ContextErrnoString { ctx, err },
            Request::Create { ctx, definition } => Request::Create { ctx, definition: definition@ },
            Request::CreateCrsToCrs { ctx, source_crs, target_crs } => Request::CreateCrsToCrs {
                ctx,
                source_crs: source_crs@,
                target_crs: target_crs@,
            },
            Request::NormalizeForVisualization { ctx, obj } => Request::NormalizeForVisualization {
                ctx,
                obj,
            },
            Request::Destroy { obj } => Request::Destroy { obj },
            Request::ErrnoReset { obj } => Request::ErrnoReset { obj },
            Request::Errno { obj } => Request::Errno { obj },
            Request::ErrnoString { err } => Request::ErrnoString { err },
            Request::Trans { obj, direction, coord } => Request::Trans { obj, direction, coord },
        }
    }
}

impl View for Reply<String> {
    type V = Reply<Seq<char>>;

    open spec fn view(&self) -> Reply<Seq<char>> {
        match *self {
            Reply::Done => Reply::Done,
            Reply::Context(ctx) => Reply::Context(ctx),
            Reply::Object(obj) => Reply::Object(obj),
            Reply::Code(err) => Reply::Code(err),
            Reply::Text(Some(text)) => Reply::Text(Some(text@)),
            Reply::Text(None) => Reply::Text(None),
            Reply::Coord(coord) => Reply::Coord(coord),
        }
    }
}

impl Reply<Seq<char>> {
    /// Whether this reply is of the kind that `request` calls for.
    pub open spec fn answers(self, request: Request<Seq<char>>) -> bool {
        match request {
            Request::ContextCreate => self is Context,
            Request::Create { .. }
            | Request::CreateCrsToCrs { .. }
            | Request::NormalizeForVisualization { .. } => self is Object,
            Request::ContextDestroy { .. }
            | Request::Destroy { .. }
            | Request::ErrnoReset { .. } => self is Done,
            Request::ContextErrno { .. } | Request::Errno { .. } => self is Code,
            Request::ContextErrnoString { .. } | Request::ErrnoString { .. } => self is Text,
            Request::Trans { .. } => self is Coord,
        }
    }
}

/// The view of an optional value: the view of what it holds.
pub open spec fn view_of<A: View>(value: Option<A>) -> Option<A::V> {
    match value {
        Some(inner) => Some(inner@),
        None => None,
    }
}

} // verus!
