use vstd::prelude::*;

verus! {

/// The failures of the planning core, all surfaced to the caller.
#[derive(Debug, Clone, Copy, PartialEq, Eq, Structural)]
pub enum PlannerError {
    /// A date/time string does not parse.
    ParseError,
    /// A granularity reference names neither a predefined unit nor a declared
    /// custom granularity.
    ResolutionError,
    /// A date range does not have exactly two elements, or an aligned bound
    /// leaves the calendar.
    InvalidDateRange,
    /// A member cannot be compiled against the current model.
    CompilationError,
}

} // verus!
