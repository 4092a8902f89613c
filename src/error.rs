use vstd::prelude::*;

verus! {

/// Why a fetch failed.
#[derive(Debug, Clone, PartialEq, Eq)]
pub enum Error {
    /// The HTTP exchange itself failed; carries the transport's message.
    ReqwestError(String),
    /// The API answered with its failure shape; carries its message.
    APIError { message: String },
    /// A field of a returned record did not have its expected form; carries
    /// the field's name.
    ParseError(String),
    /// The response broke the API's own contract (neither shape, or counts
    /// that disagree); carries a description.
    ContractViolation(String),
}

/// An error as texts; a contract violation is known by its kind alone.
pub enum ErrorView {
    ReqwestError(Seq<char>),
    APIError(Seq<char>),
    ParseError(Seq<char>),
    ContractViolation,
}

impl View for Error {
    type V = ErrorView;

    open spec fn view(&self) -> ErrorView {
        match self {
            Error::ReqwestError(m) => ErrorView::ReqwestError(m@),
            Error::APIError { message } => ErrorView::APIError(message@),
            Error::ParseError(f) => ErrorView::ParseError(f@),
            Error::ContractViolation(_) => ErrorView::ContractViolation,
        }
    }
}

/// A result with its error seen as texts.
pub open spec fn outcome<T>(r: Result<T, Error>) -> Result<T, ErrorView> {
    match r {
        Ok(v) => Ok(v),
        Err(e) => Err(e@),
    }
}

/// Credentials sent with every request.
#[derive(Debug, Clone)]
pub struct Configuration {
    pub key: String,
    pub email: String,
}

} // verus!
