//! Client library for the ACLED data API: typed per-field filters encoded
//! into query parameters, page envelopes decoded by their shape, and records
//! fetched page by page until a short page.

mod acled;
mod api;
mod date;
mod deleted;
mod error;
mod filter;
mod laws;
mod record;
mod region;
mod response;
mod text;

pub use crate::acled::{AcledData, AcledEvent, AcledQuery};
pub use crate::api::{Api, Request, BASE_URL, PAGE_LIMIT};
pub use crate::date::{Date, MAX_YEAR, MIN_YEAR};
pub use crate::deleted::{DeletedData, DeletedEvent, DeletedQuery};
pub use crate::error::{Configuration, Error, ErrorView};
pub use crate::filter::{AsParameter, Where};
pub use crate::laws::{
    between_joins_bounds, comparisons_give_operator_then_value, count_mismatch_is_violation,
    failure_shape_gives_api_error, full_then_short_page_fetches_two, short_first_page_ends_fetch,
    unreadable_date_is_named, unspecified_is_omitted,
};
pub use crate::record::{convert_records, RawRecord};
pub use crate::region::Region;
pub use crate::response::{decode_page, RawEnvelope, Response};
