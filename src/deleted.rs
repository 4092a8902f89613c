use vstd::prelude::*;
use crate::error::{Error, ErrorView};
use crate::filter::{params_view, Where};
use crate::record::RawRecord;
use crate::text::{parse_u64, u64_of_text};

verus! {

/// Filters of the `deleted` endpoint; every field defaults to unspecified.
pub struct DeletedQuery {
    pub id: Where<String>,
    pub timestamp: Where<u64>,
}

impl Default for DeletedQuery {
    fn default() -> (r: Self)
        ensures
            r.id is Unspecified,
            r.timestamp is Unspecified,
    {
        DeletedQuery { id: Where::Unspecified, timestamp: Where::Unspecified }
    }
}

impl DeletedQuery {
    /// The query's parameters, field by field in a fixed order.
    pub open spec fn encode(&self) -> Seq<(Seq<char>, Seq<char>)> {
        self.id.encode("event_id_cnty"@) + self.timestamp.encode("deleted_timestamp"@)
    }

    /// The query's parameters, field by field in a fixed order.
    pub fn as_parameters(&self) -> (r: Vec<(String, String)>)
        ensures
            params_view(r@) == self.encode(),
    {
        let mut parameters = self.id.as_parameters("event_id_cnty");
        let mut more = self.timestamp.as_parameters("deleted_timestamp");
        parameters.append(&mut more);
        proof {
            assert(params_view(parameters@) =~= self.encode());
        }
        parameters
    }
}

/// A record of the `deleted` endpoint as sent.
#[derive(Debug, Clone)]
pub struct DeletedData {
    pub event_id_cnty: String,
    pub deleted_timestamp: String,
}

/// A deleted event.
#[derive(Debug, Clone, PartialEq, Eq)]
pub struct DeletedEvent {
    /// Identifier by number and country acronym (sent as `event_id_cnty`).
    pub id: String,
    /// Unix time of the deletion (sent as `deleted_timestamp`).
    pub timestamp: u64,
}

impl RawRecord for DeletedData {
    type Event = DeletedEvent;

    open spec fn spec_convert(&self) -> Result<DeletedEvent, ErrorView> {
        match u64_of_text(self.deleted_timestamp@) {
            None => Err(ErrorView::ParseError("deleted_timestamp"@)),
            Some(t) => Ok(DeletedEvent { id: self.event_id_cnty, timestamp: t }),
        }
    }

    fn convert(&self) -> (r: Result<DeletedEvent, Error>) {
        DeletedEvent::try_from(self)
    }
}

impl DeletedEvent {
    /// The typed record, or a parse error naming `deleted_timestamp`.
    pub fn try_from(data: &DeletedData) -> (r: Result<DeletedEvent, Error>)
        ensures
            match r {
                Ok(e) => data.spec_convert() == Ok::<DeletedEvent, ErrorView>(e),
                Err(x) => data.spec_convert() == Err::<DeletedEvent, ErrorView>(x@),
            },
    {
        match parse_u64(data.deleted_timestamp.as_str()) {
            None => Err(Error::ParseError("deleted_timestamp".to_owned())),
            Some(timestamp) => Ok(DeletedEvent { id: data.event_id_cnty.clone(), timestamp }),
        }
    }
}

} // verus!
