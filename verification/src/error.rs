//! What the two workflows report when they fail.

use crate::os::HRESULT;
use crate::utils::NulError;
use vstd::prelude::*;

verus! {

/// The ways in which compiling or validating fails.
#[derive(Debug)]
pub enum HassleError {
    /// A foreign call returned this status, and nothing more is known.
    Win32Error(HRESULT),
    /// The compiler refused the source; these are its diagnostics.
    CompileError(String),
    /// The validator refused the container; these are its diagnostics.
    ValidationError(String),
    /// The shared library `filename` could not be loaded.
    LoadLibraryError { filename: String, inner: libloading::Error },
    /// A loaded library lacks the entry point.
    LibLoadingError(libloading::Error),
    /// Bytes that should have been text are not UTF-8.
    Utf8Error(core::str::Utf8Error),
    /// A text for the compiler holds a nul character, so that it cannot be
    /// handed over as a nul-terminated string.
    NulError(NulError),
}

/// A [`HassleError`] with its texts as sequences of characters.
pub enum HassleErrorView {
    Win32Error(HRESULT),
    CompileError(Seq<char>),
    ValidationError(Seq<char>),
    LoadLibraryError { filename: Seq<char>, inner: libloading::Error },
    LibLoadingError(libloading::Error),
    Utf8Error(core::str::Utf8Error),
    NulError(NulError),
}

impl View for HassleError {
    type V = HassleErrorView;

    open spec fn view(&self) -> HassleErrorView {
        match *self {
            HassleError::Win32Error(hr) => HassleErrorView::Win32Error(hr),
            HassleError::CompileError(text) => HassleErrorView::CompileError(text@),
            HassleError::ValidationError(text) => HassleErrorView::ValidationError(text@),
            HassleError::LoadLibraryError { filename, inner } => HassleErrorView::LoadLibraryError {
                filename: filename@,
                inner,
            },
            HassleError::LibLoadingError(inner) => HassleErrorView::LibLoadingError(inner),
            HassleError::Utf8Error(inner) => HassleErrorView::Utf8Error(inner),
            HassleError::NulError(inner) => HassleErrorView::NulError(inner),
        }
    }
}

/// How a workflow ends, in the terms of its contract: the bytes it produced,
/// or the view of its error.
pub type Outcome = Result<Seq<u8>, HassleErrorView>;

/// The view of a workflow's result.
pub open spec fn outcome_of(result: Result<Vec<u8>, HassleError>) -> Outcome {
    match result {
        Ok(bytes) => Ok(bytes@),
        Err(e) => Err(e@),
    }
}

} // verus!
