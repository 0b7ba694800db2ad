//! The errors of the three stages, and the error of the driver.
use vstd::prelude::*;

verus! {

/// A span of bytes in the text of a source unit: `start` is the offset of its
/// first byte, `end` the offset just behind its last.
#[derive(Clone, Copy, Debug, PartialEq, Eq, Structural)]
pub struct Location {
    pub start: usize,
    pub end: usize,
}

impl Location {
    /// A span does not end before it starts.
    pub open spec fn wf(&self) -> bool {
        self.start <= self.end
    }

    /// The span from `start` to `end`, where that is a span.
    pub fn new(start: usize, end: usize) -> (result: Option<Location>)
        ensures
            start <= end ==> result == Some((Location { start, end })),
            start > end ==> result is None,
            result matches Some(l) ==> l.wf(),
    {
        if start <= end {
            Some(Location { start, end })
        } else {
            None
        }
    }

    /// The empty span at `offset`.
    pub fn at(offset: usize) -> (result: Location)
        ensures
            result == (Location { start: offset, end: offset }),
            result.wf(),
    {
        Location { start: offset, end: offset }
    }

    /// Whether this span starts at or behind the start of `other`.
    pub fn at_or_after(&self, other: &Location) -> (result: bool)
        ensures
            result == (self.start >= other.start),
    {
        self.start >= other.start
    }
}

/// The stage of the pipeline that an event or an error belongs to.
#[derive(Clone, Copy, Debug, PartialEq, Eq, Structural)]
pub enum Stage {
    Load,
    Parse,
    Compile,
}

/// Why a source could not be read.
#[derive(Clone, Copy, Debug, PartialEq, Eq, Structural)]
pub enum IoErrorKind {
    NotFound,
    PermissionDenied,
    InvalidEncoding,
    Other,
}

/// The source loader could not produce a source unit.
#[derive(Clone, Debug, PartialEq, Eq)]
pub struct IoError {
    pub kind: IoErrorKind,
    pub message: String,
}

/// The parse stage found malformed syntax at `location`.
#[derive(Clone, Debug, PartialEq, Eq)]
pub struct ParseError {
    pub location: Location,
    pub message: String,
}

/// The semantic rule that a module broke.
#[derive(Clone, Copy, Debug, PartialEq, Eq, Structural)]
pub enum CompileErrorKind {
    UnresolvedName,
    TypeMismatch,
    DuplicateDeclaration,
    InvalidAddress,
    Other,
}

/// The compile stage rejected the module; `location` is given where the
/// stage could attribute the error to a place in the text.
#[derive(Clone, Copy, Debug, PartialEq, Eq, Structural)]
pub struct CompileError {
    pub kind: CompileErrorKind,
    pub location: Option<Location>,
}

/// The failure of one compilation: the error of the stage that failed,
/// unchanged.
#[derive(Clone, Debug, PartialEq, Eq)]
pub enum DriverError {
    Io(IoError),
    Parse(ParseError),
    Compile(CompileError),
}

impl DriverError {
    /// The stage that an error is attributed to.
    pub open spec fn spec_stage(&self) -> Stage {
        match *self {
            DriverError::Io(_) => Stage::Load,
            DriverError::Parse(_) => Stage::Parse,
            DriverError::Compile(_) => Stage::Compile,
        }
    }

    /// The place in the text that an error points at, where it has one.
    pub open spec fn spec_location(&self) -> Option<Location> {
        match *self {
            DriverError::Io(_) => None,
            DriverError::Parse(e) => Some(e.location),
            DriverError::Compile(e) => e.location,
        }
    }

    /// The stage that failed.
    pub fn stage(&self) -> (result: Stage)
        ensures
            result == self.spec_stage(),
    {
        match self {
            DriverError::Io(_) => Stage::Load,
            DriverError::Parse(_) => Stage::Parse,
            DriverError::Compile(_) => Stage::Compile,
        }
    }

    /// The place in the text that the error points at, where it has one.
    pub fn location(&self) -> (result: Option<Location>)
        ensures
            result == self.spec_location(),
    {
        match self {
            DriverError::Io(_) => None,
            DriverError::Parse(e) => Some(e.location),
            DriverError::Compile(e) => e.location,
        }
    }
}

} // verus!
