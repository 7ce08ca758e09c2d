//! The failures that this library reports.

use crate::text::{digits, push_digits};
use vstd::prelude::*;
use vstd::string::*;

verus! {

/// Why an operation failed. Every failure is final for the operation that
/// reports it. `T` is the type of text: `String` in running code,
/// `Seq<char>` in contracts.
#[derive(Debug)]
pub enum ProjError<T = String> {
    /// The engine could not make an evaluation context.
    ContextCreation,
    /// A text handed to the engine holds a NUL byte, at this position among
    /// its bytes.
    InvalidInput(usize),
    /// The engine rejected a definition or a pair of coordinate reference
    /// systems; the payload is the engine's explanation.
    Creation(T),
    /// The engine could not bring a transformation to conventional axis
    /// order; the payload is the engine's explanation.
    Normalization(T),
    /// A transformation reported an error; the payload is the engine's
    /// explanation.
    Transform(T),
    /// A point had fewer than two components; the payload is how many it had.
    UnsupportedDimensions(usize),
}

impl View for ProjError<String> {
    type V = ProjError<Seq<char>>;

    open spec fn view(&self) -> ProjError<Seq<char>> {
        match *self {
            ProjError::ContextCreation => ProjError::ContextCreation,
            ProjError::InvalidInput(position) => ProjError::InvalidInput(position),
            ProjError::Creation(reason) => ProjError::Creation(reason@),
            ProjError::Normalization(reason) => ProjError::Normalization(reason@),
            ProjError::Transform(reason) => ProjError::Transform(reason@),
            ProjError::UnsupportedDimensions(count) => ProjError::UnsupportedDimensions(count),
        }
    }
}

/// The view of an outcome: a success as it is, a failure by its view.
pub open spec fn outcome_view<A>(outcome: Result<A, ProjError>) -> Result<A, ProjError<Seq<char>>> {
    match outcome {
        Ok(value) => Ok(value),
        Err(error) => Err(error@),
    }
}

impl ProjError<Seq<char>> {
    /// The line of text that describes this failure.
    pub open spec fn message(self) -> Seq<char> {
        match self {
            ProjError::ContextCreation => "failed to create PROJ context"@,
            ProjError::InvalidInput(_) => "input string contains an embedded NUL byte"@,
            ProjError::Creation(reason) => "failed to create PROJ object: "@ + reason,
            ProjError::Normalization(reason) => "failed to normalize CRS transform: "@ + reason,
            ProjError::Transform(reason) => "PROJ transform failed: "@ + reason,
            ProjError::UnsupportedDimensions(count) => "unsupported coordinate dimensions: "@
                + digits(count as nat),
        }
    }
}

impl ProjError<String> {
    /// The line of text that describes this failure.
    pub fn message(&self) -> (text: String)
        ensures
            text@ == self@.message(),
    {
        match self {
            ProjError::ContextCreation => "failed to create PROJ context".to_owned(),
            ProjError::InvalidInput(_) => "input string contains an embedded NUL byte".to_owned(),
            ProjError::Creation(reason) => {
                let mut text = "failed to create PROJ object: ".to_owned();
                text.append(reason.as_str());
                text
            },
            ProjError::Normalization(reason) => {
                let mut text = "failed to normalize CRS transform: ".to_owned();
                text.append(reason.as_str());
                text
            },
            ProjError::Transform(reason) => {
                let mut text = "PROJ transform failed: ".to_owned();
                text.append(reason.as_str());
                text
            },
            ProjError::UnsupportedDimensions(count) => {
                let mut text = "unsupported coordinate dimensions: ".to_owned();
                push_digits(&mut text, *count as u64);
                text
            },
        }
    }
}

} // verus!
