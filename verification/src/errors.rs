//! Error type shared by every fallible operation of the library.
//!
//! Each failure carries a stable numeric code drawn from a fixed table,
//! optionally enriched with a context string describing the operation that
//! failed. Two errors are considered equal when their codes are equal.

use vstd::prelude::*;

verus! {

/// Classification of an error code into the library's error taxonomy.
#[derive(Debug, Clone, Copy, PartialEq, Eq, Structural)]
pub enum ErrorKind {
    /// An index or ID does not resolve to a live element, or a deletion is
    /// blocked because the element is still referenced.
    Reference,
    /// Malformed rule text, an illegal numeric value, or an enumerated code
    /// outside every known variant.
    Parse,
    /// An operation was invoked outside its valid state-machine state.
    State,
    /// An underlying allocation or solver failure.
    Resource,
    /// The numeric code itself is not part of the table.
    Unrecognized,
}

/// Spec-level classification table for error codes.
pub open spec fn spec_kind_of_code(code: i32) -> ErrorKind {
    if code == 101 || code == 110 {
        ErrorKind::Resource
    } else if code == 102 || code == 103 || code == 104 || code == 105 || code == 262 {
        ErrorKind::State
    } else if code == 201 || code == 202 || code == 215 || code == 251 || code == 252 {
        ErrorKind::Parse
    } else if code == 203 || code == 204 || code == 225 || code == 241 || code == 257
        || code == 258 || code == 259 || code == 261 {
        ErrorKind::Reference
    } else {
        ErrorKind::Unrecognized
    }
}

/// Spec-level message table for error codes.
pub open spec fn spec_error_message(code: i32) -> Seq<char> {
    if code == 101 {
        "insufficient memory"@
    } else if code == 102 {
        "no network data available"@
    } else if code == 103 {
        "hydraulics not initialized"@
    } else if code == 104 {
        "no hydraulics for water quality analysis"@
    } else if code == 105 {
        "water quality not initialized"@
    } else if code == 110 {
        "cannot solve network hydraulic equations"@
    } else if code == 201 {
        "syntax error in rule"@
    } else if code == 202 {
        "illegal numeric value"@
    } else if code == 203 {
        "undefined node"@
    } else if code == 204 {
        "undefined link"@
    } else if code == 215 {
        "duplicate ID label"@
    } else if code == 225 {
        "invalid lower/upper levels for tank"@
    } else if code == 241 {
        "nonexistent control"@
    } else if code == 251 {
        "invalid parameter code"@
    } else if code == 252 {
        "invalid ID name"@
    } else if code == 257 {
        "nonexistent rule"@
    } else if code == 258 {
        "nonexistent rule clause"@
    } else if code == 259 {
        "attempt to delete a node that still has links connected to it"@
    } else if code == 261 {
        "attempt to delete a node or link contained in a control"@
    } else if code == 262 {
        "attempt to modify network structure while a solver is open"@
    } else {
        "unrecognized error code"@
    }
}

/// Returns the static message associated with an error code.
pub fn error_message(code: i32) -> (r: &'static str)
    ensures
        r@ == spec_error_message(code),
{
    if code == 101 {
        "insufficient memory"
    } else if code == 102 {
        "no network data available"
    } else if code == 103 {
        "hydraulics not initialized"
    } else if code == 104 {
        "no hydraulics for water quality analysis"
    } else if code == 105 {
        "water quality not initialized"
    } else if code == 110 {
        "cannot solve network hydraulic equations"
    } else if code == 201 {
        "syntax error in rule"
    } else if code == 202 {
        "illegal numeric value"
    } else if code == 203 {
        "undefined node"
    } else if code == 204 {
        "undefined link"
    } else if code == 215 {
        "duplicate ID label"
    } else if code == 225 {
        "invalid lower/upper levels for tank"
    } else if code == 241 {
        "nonexistent control"
    } else if code == 251 {
        "invalid parameter code"
    } else if code == 252 {
        "invalid ID name"
    } else if code == 257 {
        "nonexistent rule"
    } else if code == 258 {
        "nonexistent rule clause"
    } else if code == 259 {
        "attempt to delete a node that still has links connected to it"
    } else if code == 261 {
        "attempt to delete a node or link contained in a control"
    } else if code == 262 {
        "attempt to modify network structure while a solver is open"
    } else {
        "unrecognized error code"
    }
}

/// An error raised by the engine model: a stable numeric code plus an
/// optional context string naming the operation that failed.
#[derive(Debug, Clone)]
pub struct EPANETError {
    /// The numeric error code.
    pub code: i32,
    /// Optional context naming the operation that failed.
    pub context: Option<String>,
}

impl PartialEq for EPANETError {
    fn eq(&self, other: &Self) -> (r: bool) {
        self.code == other.code
    }
}

impl vstd::std_specs::cmp::PartialEqSpecImpl for EPANETError {
    open spec fn obeys_eq_spec() -> bool {
        true
    }

    open spec fn eq_spec(&self, other: &Self) -> bool {
        self.code == other.code
    }
}

impl From<i32> for EPANETError {
    fn from(error: i32) -> (r: Self) {
        EPANETError { code: error, context: None }
    }
}

impl vstd::std_specs::convert::FromSpecImpl<i32> for EPANETError {
    open spec fn obeys_from_spec() -> bool {
        true
    }

    open spec fn from_spec(error: i32) -> Self {
        EPANETError { code: error, context: None }
    }
}

impl EPANETError {
    /// The context string attached to this error, if any.
    pub open spec fn spec_context(&self) -> Option<Seq<char>> {
        match self.context {
            Some(c) => Some(c@),
            None => None,
        }
    }

    /// Builds an error carrying the given code and no context.
    pub fn new(code: i32) -> (r: Self)
        ensures
            r.code == code,
            r.spec_context() is None,
    {
        EPANETError { code, context: None }
    }

    /// Adds context to the error, returning a new error with the context
    /// included. The code is unchanged.
    pub fn with_context(self, context: &str) -> (r: Self)
        ensures
            r.code == self.code,
            r.spec_context() == Some(context@),
    {
        EPANETError { code: self.code, context: Some(context.to_owned()) }
    }

    /// The static message associated with this error's code.
    pub fn message(&self) -> (r: &'static str)
        ensures
            r@ == spec_error_message(self.code),
    {
        error_message(self.code)
    }

    /// Classifies this error within the library's error taxonomy.
    pub fn kind(&self) -> (r: ErrorKind)
        ensures
            r == spec_kind_of_code(self.code),
    {
        let c = self.code;
        if c == 101 || c == 110 {
            ErrorKind::Resource
        } else if c == 102 || c == 103 || c == 104 || c == 105 || c == 262 {
            ErrorKind::State
        } else if c == 201 || c == 202 || c == 215 || c == 251 || c == 252 {
            ErrorKind::Parse
        } else if c == 203 || c == 204 || c == 225 || c == 241 || c == 257
            || c == 258 || c == 259 || c == 261 {
            ErrorKind::Reference
        } else {
            ErrorKind::Unrecognized
        }
    }
}

/// Translates a numeric engine code into a result: `0` means success and
/// every other code becomes an [`EPANETError`] carrying that code.
pub fn check_error(code: i32) -> (r: Result<(), EPANETError>)
    ensures
        code == 0 <==> r is Ok,
        r is Err ==> r->Err_0.code == code && r->Err_0.spec_context() is None,
{
    if code == 0 {
        Ok(())
    } else {
        Err(EPANETError::new(code))
    }
}

/// Variant of [`check_error`] that attaches additional context to failures.
pub fn check_error_with_context(code: i32, context: &str) -> (r: Result<(), EPANETError>)
    ensures
        code == 0 <==> r is Ok,
        r is Err ==> r->Err_0.code == code && r->Err_0.spec_context() == Some(context@),
{
    if code == 0 {
        Ok(())
    } else {
        Err(EPANETError::new(code).with_context(context))
    }
}

} // verus!
