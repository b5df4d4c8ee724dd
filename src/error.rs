//! The error that a failed browser operation gives.
use vstd::prelude::*;
use crate::json::Json;

verus! {

/// An error from the browser, as the JSON value it reported.
#[derive(Debug, PartialEq)]
pub struct JSError {
    value: Json,
}

impl JSError {
    pub closed spec fn value(&self) -> Json {
        self.value
    }

    /// An error that reports `value`.
    pub fn new(value: Json) -> (r: JSError)
        ensures
            r.value() == value,
    {
        JSError { value }
    }

    /// The JSON value that the browser reported.
    pub fn source(self) -> (r: Json)
        ensures
            r == self.value(),
    {
        self.value
    }

    /// The JSON value that the browser reported.
    pub fn as_json(&self) -> (r: &Json)
        ensures
            *r == self.value(),
    {
        &self.value
    }
}

/// Drops the value of a successful result and keeps the error of a failed one.
pub fn to_unit(r: Result<Json, Json>) -> (out: Result<(), JSError>)
    ensures
        match r {
            Ok(_) => out is Ok,
            Err(e) => out matches Err(x) && x.value() == e,
        },
{
    match r {
        Ok(_) => Ok(()),
        Err(e) => Err(JSError::new(e)),
    }
}

} // verus!
