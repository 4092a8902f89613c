use vstd::prelude::*;
use crate::error::{Error, ErrorView};
use crate::record::{convert_all, convert_records, RawRecord};

verus! {

/// One page of a response as read from JSON, before its shape is known:
/// each member the JSON had, or `None`.
pub struct RawEnvelope<R> {
    pub success: Option<bool>,
    pub count: Option<u64>,
    pub data: Option<Vec<R>>,
    pub error_message: Option<String>,
}

/// One page of a response, in one of its two shapes.
pub enum Response<R> {
    Data { success: bool, count: u64, data: Vec<R> },
    Error { success: bool, count: u64, message: String },
}

/// A page's outcome with its records as a sequence and its error as texts.
pub open spec fn page_outcome<E>(r: Result<Vec<E>, Error>) -> Result<Seq<E>, ErrorView> {
    match r {
        Ok(v) => Ok(v@),
        Err(e) => Err(e@),
    }
}

impl<R> RawEnvelope<R> {
    /// The success shape if `success`, `count` and `data` are all present,
    /// else the failure shape if `success`, `count` and the error message are,
    /// else neither.
    pub open spec fn spec_shape(self) -> Option<Response<R>> {
        match (self.success, self.count, self.data) {
            (Some(success), Some(count), Some(data)) => Some(Response::Data { success, count, data }),
            _ => match (self.success, self.count, self.error_message) {
                (Some(success), Some(count), Some(message)) => Some(
                    Response::Error { success, count, message },
                ),
                _ => None,
            },
        }
    }

    /// Tries the success shape first, then the failure shape.
    pub fn shape(self) -> (r: Option<Response<R>>)
        ensures
            r == self.spec_shape(),
    {
        let RawEnvelope { success, count, data, error_message } = self;
        match (success, count, data) {
            (Some(success), Some(count), Some(data)) => Some(Response::Data { success, count, data }),
            (success, count, _) => match (success, count, error_message) {
                (Some(success), Some(count), Some(message)) => Some(
                    Response::Error { success, count, message },
                ),
                _ => None,
            },
        }
    }
}

impl<R: RawRecord> Response<R> {
    /// The success shape must say `success` with `count` equal to the number
    /// of records, which then all convert; the failure shape must say not
    /// `success` with `count` zero, and gives the API's message.
    pub open spec fn spec_records(self) -> Result<Seq<R::Event>, ErrorView> {
        match self {
            Response::Data { success, count, data } => {
                if !success || count as int != data@.len() {
                    Err(ErrorView::ContractViolation)
                } else {
                    convert_all(data@)
                }
            },
            Response::Error { success, count, message } => {
                if success || count != 0 {
                    Err(ErrorView::ContractViolation)
                } else {
                    Err(ErrorView::APIError(message@))
                }
            },
        }
    }

    /// The page's records, all converted, or the page's error.
    pub fn into_records(self) -> (r: Result<Vec<R::Event>, Error>)
        ensures
            page_outcome(r) == self.spec_records(),
    {
        match self {
            Response::Data { success, count, data } => {
                if !success {
                    Err(Error::ContractViolation("data without success".to_owned()))
                } else if count > usize::MAX as u64 || count as usize != data.len() {
                    Err(Error::ContractViolation("count differs from data".to_owned()))
                } else {
                    convert_records(&data)
                }
            },
            Response::Error { success, count, message } => {
                if success {
                    Err(Error::ContractViolation("error with success".to_owned()))
                } else if count != 0 {
                    Err(Error::ContractViolation("error with records".to_owned()))
                } else {
                    Err(Error::APIError { message })
                }
            },
        }
    }
}

/// What one page decodes to: its records, or a contract violation where it
/// has neither shape.
pub open spec fn spec_decode<R: RawRecord>(env: RawEnvelope<R>) -> Result<Seq<R::Event>, ErrorView> {
    match env.spec_shape() {
        Some(response) => response.spec_records(),
        None => Err(ErrorView::ContractViolation),
    }
}

/// Decodes one page: its shape, then its records.
pub fn decode_page<R: RawRecord>(env: RawEnvelope<R>) -> (r: Result<Vec<R::Event>, Error>)
    ensures
        page_outcome(r) == spec_decode(env),
{
    match env.shape() {
        Some(response) => response.into_records(),
        None => Err(Error::ContractViolation("neither data nor error".to_owned())),
    }
}

} // verus!
