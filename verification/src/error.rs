//! The failure taxonomy of the engine.
//!
//! Construction does not partially succeed and a tick does not partially
//! commit: every failure is fatal to the operation that produced it, and
//! the caller decides whether to retry with corrected sources.

use vstd::prelude::*;

verus! {

/// A location in an agent's program source: either a single line/column
/// position, or a span from one line/column pair to another.
#[derive(Clone, Copy, PartialEq, Eq, Structural, Debug)]
pub enum SrcLocation {
    Pos(usize, usize),
    Span(usize, usize, usize, usize),
}

/// Identifies the instruction at which an agent's program could not
/// complete a step, by its line and column in the program source.
#[derive(Clone, Copy, PartialEq, Eq, Structural, Debug)]
pub struct RuntimeCause {
    pub line: usize,
    pub col: usize,
}

/// Why an engine operation failed.
///
/// - `InitError(slot, location)`: the program of `slot` did not parse;
///   `location` points at the offending source text.
/// - `RuntimeError(slot, cause)`: the program of `slot` could not complete
///   a step; the whole tick is abandoned, no slot's status is committed.
/// - `ArityError(count)`: an engine was asked for with `count` programs
///   instead of exactly one per slot.
#[derive(Clone, Copy, PartialEq, Eq, Structural, Debug)]
pub enum EngineError {
    InitError(usize, SrcLocation),
    RuntimeError(usize, RuntimeCause),
    ArityError(usize),
}

/// The caller-facing form of an initialization failure: which of the four
/// programs is defective, and on which line.
#[derive(Clone, Copy, PartialEq, Eq, Structural, Debug)]
pub struct JsEngineError {
    pub engine_idx: usize,
    pub line: usize,
}

impl JsEngineError {
    /// Converts an initialization failure with a line/column position into
    /// its caller-facing form.  Only that shape has a caller-facing
    /// representation: span-form parse errors and runtime failures have
    /// none, so they are excluded up front.
    pub fn from_engine_error(e: EngineError) -> (r: Self)
        requires
            e matches EngineError::InitError(_, SrcLocation::Pos(_, _)),
        ensures
            e matches EngineError::InitError(engine_idx, SrcLocation::Pos(line, _))
                ==> r == (JsEngineError { engine_idx, line }),
    {
        match e {
            EngineError::InitError(engine_idx, SrcLocation::Pos(line, _col)) => {
                JsEngineError { engine_idx, line }
            },
            _ => {
                JsEngineError { engine_idx: 0, line: 0 }
            },
        }
    }
}

} // verus!
