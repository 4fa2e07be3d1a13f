//! The errors of a certificate-store operation.

use vstd::prelude::*;

verus! {

/// Why an operation failed.
#[derive(Debug, PartialEq, Eq)]
pub enum Error {
    /// What was asked for cannot be configured; the text says why.
    Builder(String),
    /// A Win32 call failed with this error code.
    Win32(u32),
}

/// The contents of an [`Error`].
pub enum ErrorView {
    /// See [`Error::Builder`].
    Builder(Seq<char>),
    /// See [`Error::Win32`].
    Win32(u32),
}

impl View for Error {
    type V = ErrorView;

    open spec fn view(&self) -> ErrorView {
        match self {
            Error::Builder(detail) => ErrorView::Builder(detail@),
            Error::Win32(code) => ErrorView::Win32(*code),
        }
    }
}

impl Error {
    /// Whether this is an error in what the caller configured, as opposed to
    /// a failing system call.
    pub fn is_builder(&self) -> (builder: bool)
        ensures
            builder == (self@ is Builder),
    {
        match self {
            Error::Builder(_) => true,
            Error::Win32(_) => false,
        }
    }
}

/// The contents of a result whose error is an [`Error`].
pub open spec fn result_view<T>(result: Result<T, Error>) -> Result<T, ErrorView> {
    match result {
        Ok(value) => Ok(value),
        Err(error) => Err(error@),
    }
}

} // verus!
