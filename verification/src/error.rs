//! Error kinds surfaced by the state stores and the prompt renderer, and
//! small diagnostic records used when reporting malformed input.

use vstd::prelude::*;

verus! {

/// What a store or renderer operation reports instead of aborting.
///
/// Every operation of this crate is total: a write against a read-only
/// binding, a typed read of the wrong variant and an unknown prompt escape
/// all come back as a value of this type. A plain lookup miss is not an
/// error: the lookup operations report it as `None`, and callers treat the
/// name as unset.
#[derive(Clone, Copy, Debug, PartialEq, Eq)]
pub enum ShellError {
    /// A typed extraction asked for a variant the stored value does not hold.
    TypeMismatch,
    /// A mutation was attempted against a read-only binding; the binding is
    /// left unchanged.
    ReadOnlyViolation,
    /// A prompt template held an escape code that is not understood; carries
    /// the offending code character.
    UnsupportedEscape(char),
    /// The invoked builtin is a placeholder that is not provided yet.
    Unimplemented,
}

/// A line and column position inside a piece of shell input.
#[derive(Clone, Copy, Debug, PartialEq, Eq)]
pub struct Position {
    pub line: usize,
    pub column: usize,
}

impl Position {
    pub fn new(line: usize, column: usize) -> (p: Position)
        ensures
            p.line == line,
            p.column == column,
    {
        Position { line, column }
    }
}

/// A report that one character was expected and another was read.
#[derive(Clone, Copy, Debug, PartialEq, Eq)]
pub struct CharError {
    pub expected: char,
    pub got: char,
    pub position: Position,
}

impl CharError {
    pub fn new(expected: char, got: char, pos: &Position) -> (e: CharError)
        ensures
            e.expected == expected,
            e.got == got,
            e.position == *pos,
    {
        CharError { expected, got, position: *pos }
    }
}

/// A report that a row held a different number of elements than expected.
#[derive(Clone, Copy, Debug, PartialEq, Eq)]
pub struct SizeError {
    pub nb_elements_expected: usize,
    pub nb_elements_got: usize,
    pub position: Position,
}

impl SizeError {
    pub fn new(nb_elements_expected: usize, nb_elements_got: usize, pos: &Position) -> (e:
        SizeError)
        ensures
            e.nb_elements_expected == nb_elements_expected,
            e.nb_elements_got == nb_elements_got,
            e.position == *pos,
    {
        SizeError { nb_elements_expected, nb_elements_got, position: *pos }
    }
}

} // verus!
