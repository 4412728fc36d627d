//! Adapters, and the errors that they report.

use vstd::prelude::*;

verus! {

/// The platform that a project runs on.
#[derive(Clone, Copy, Debug)]
pub enum AdapterType {
    Snowflake,
    Bigquery,
    Databricks,
    DuckDB,
    /// A platform without catalog relations, by its name.
    Other(&'static str),
}

#[derive(Clone, Copy, Debug, PartialEq, Eq, Structural)]
pub enum AdapterErrorKind {
    /// The project's configuration asks for what cannot be had.
    Configuration,
    /// The caller made a request that it should not have made.
    Internal,
}

#[derive(Debug)]
pub struct AdapterError {
    pub kind: AdapterErrorKind,
    pub message: String,
}

/// An error as contracts speak of it.
pub struct ErrorView {
    pub kind: AdapterErrorKind,
    pub message: Seq<char>,
}

impl View for AdapterError {
    type V = ErrorView;

    open spec fn view(&self) -> ErrorView {
        ErrorView { kind: self.kind, message: self.message@ }
    }
}

pub type AdapterResult<T> = Result<T, AdapterError>;

/// A configuration error with the message `message`.
pub open spec fn configuration_error(message: Seq<char>) -> ErrorView {
    ErrorView { kind: AdapterErrorKind::Configuration, message }
}

/// An internal error with the message `message`.
pub open spec fn internal_error(message: Seq<char>) -> ErrorView {
    ErrorView { kind: AdapterErrorKind::Internal, message }
}

/// Whether `r` reports `refusal`, or is a success where there is none.
pub open spec fn reports<T>(r: AdapterResult<T>, refusal: Option<ErrorView>) -> bool {
    match r {
        Ok(_) => refusal is None,
        Err(e) => refusal == Some(e@),
    }
}

impl AdapterError {
    pub fn new(kind: AdapterErrorKind, message: String) -> (r: Self)
        ensures
            r.kind == kind,
            r.message == message,
    {
        AdapterError { kind, message }
    }

    /// A configuration error with the message `message`.
    pub fn configuration(message: String) -> (r: Self)
        ensures
            r@ == configuration_error(message@),
    {
        AdapterError::new(AdapterErrorKind::Configuration, message)
    }
}

} // verus!
