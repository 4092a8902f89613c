use vstd::prelude::*;
use crate::date::{parsed_ymd, Date};
use crate::error::{Error, ErrorView};
use crate::filter::{params_view, Where};
use crate::record::RawRecord;
use crate::region::Region;
use crate::text::{parse_u64, u64_of_text};

verus! {

/// Filters of the `acled` endpoint; every field defaults to unspecified.
pub struct AcledQuery {
    pub country: Where<String>,
    pub id: Where<String>,
    pub year: Where<u32>,
    pub region: Where<Region>,
    pub date: Where<Date>,
    pub timestamp: Where<u64>,
}

impl Default for AcledQuery {
    fn default() -> (r: Self)
        ensures
            r.country is Unspecified,
            r.id is Unspecified,
            r.year is Unspecified,
            r.region is Unspecified,
            r.date is Unspecified,
            r.timestamp is Unspecified,
    {
        AcledQuery {
            country: Where::Unspecified,
            id: Where::Unspecified,
            year: Where::Unspecified,
            region: Where::Unspecified,
            date: Where::Unspecified,
            timestamp: Where::Unspecified,
        }
    }
}

impl AcledQuery {
    /// Every date in the query is an existing day.
    pub open spec fn wf(&self) -> bool {
        self.date.wf()
    }

    /// The query's parameters, field by field in a fixed order.
    pub open spec fn encode(&self) -> Seq<(Seq<char>, Seq<char>)> {
        self.country.encode("country"@) + self.id.encode("event_id_cnty"@) + self.year.encode(
            "year"@,
        ) + self.region.encode("region"@) + self.date.encode("event_date"@)
            + self.timestamp.encode("timestamp"@)
    }

    /// The query's parameters, field by field in a fixed order.
    pub fn as_parameters(&self) -> (r: Vec<(String, String)>)
        requires
            self.wf(),
        ensures
            params_view(r@) == self.encode(),
    {
        let mut parameters = self.country.as_parameters("country");
        let mut id = self.id.as_parameters("event_id_cnty");
        let mut year = self.year.as_parameters("year");
        let mut region = self.region.as_parameters("region");
        let mut date = self.date.as_parameters("event_date");
        let mut timestamp = self.timestamp.as_parameters("timestamp");
        let ghost (a, b, c, d, e, f) = (parameters@, id@, year@, region@, date@, timestamp@);
        parameters.append(&mut id);
        parameters.append(&mut year);
        parameters.append(&mut region);
        parameters.append(&mut date);
        parameters.append(&mut timestamp);
        proof {
            assert(parameters@ =~= a + b + c + d + e + f);
            assert(params_view(parameters@) =~= params_view(a) + params_view(b) + params_view(c)
                + params_view(d) + params_view(e) + params_view(f));
        }
        parameters
    }
}

/// A record of the `acled` endpoint as sent.
#[derive(Debug, Clone)]
pub struct AcledData {
    pub event_id_cnty: String,
    pub event_date: String,
    pub timestamp: String,
    pub disorder_type: String,
    pub event_type: String,
    pub sub_event_type: String,
    pub country: String,
    pub region: String,
    pub admin1: String,
    pub latitude: String,
    pub longitude: String,
    pub notes: String,
}

/// An event of the `acled` endpoint.
#[derive(Debug, PartialEq, Eq)]
pub struct AcledEvent {
    /// Identifier by number and country acronym (sent as `event_id_cnty`).
    pub id: String,
    /// Unix time of the event's last upload.
    pub timestamp: u64,
    /// The day the event took place (sent as `event_date`).
    pub date: Date,
    /// The event type, then its subcategory.
    pub event_type: (String, String),
    /// The disorder category of the event.
    pub disorder_type: String,
    /// The region where the event took place.
    pub region: Region,
    /// The country or territory where the event took place.
    pub country: String,
    /// The sub-national administrative region (sent as `admin1`).
    pub administrative_region: String,
    /// Latitude, in the decimal text the API sent.
    pub latitude: String,
    /// Longitude, in the decimal text the API sent.
    pub longitude: String,
    /// A short description of the event (sent as `notes`).
    pub note: String,
}

/// The date that `parsed_ymd` read, as a `Date`.
pub open spec fn date_of(t: Option<(int, int, int)>) -> Option<Date> {
    match t {
        Some((y, m, d)) => Some(Date { year: y as i32, month: m as u32, day: d as u32 }),
        None => None,
    }
}

/// The typed record, given the date read from `event_date`: fields are read
/// in the order date, timestamp, region, and the first that fails is named.
pub open spec fn acled_from_parts(data: AcledData, date: Option<Date>) -> Result<
    AcledEvent,
    ErrorView,
> {
    match date {
        None => Err(ErrorView::ParseError("event_date"@)),
        Some(d) => match u64_of_text(data.timestamp@) {
            None => Err(ErrorView::ParseError("timestamp"@)),
            Some(t) => match Region::spec_from_name(data.region@) {
                None => Err(ErrorView::ParseError("region"@)),
                Some(region) => Ok(
                    AcledEvent {
                        id: data.event_id_cnty,
                        timestamp: t,
                        date: d,
                        event_type: (data.event_type, data.sub_event_type),
                        disorder_type: data.disorder_type,
                        region,
                        country: data.country,
                        administrative_region: data.admin1,
                        latitude: data.latitude,
                        longitude: data.longitude,
                        note: data.notes,
                    },
                ),
            },
        },
    }
}

impl RawRecord for AcledData {
    type Event = AcledEvent;

    open spec fn spec_convert(&self) -> Result<AcledEvent, ErrorView> {
        acled_from_parts(*self, date_of(parsed_ymd(self.event_date@)))
    }

    fn convert(&self) -> (r: Result<AcledEvent, Error>) {
        AcledEvent::try_from(self)
    }
}

impl AcledEvent {
    /// The typed record, or a parse error naming the first field that fails.
    pub fn try_from(data: &AcledData) -> (r: Result<AcledEvent, Error>)
        ensures
            match r {
                Ok(e) => data.spec_convert() == Ok::<AcledEvent, ErrorView>(e),
                Err(x) => data.spec_convert() == Err::<AcledEvent, ErrorView>(x@),
            },
    {
        let date = Date::parse(data.event_date.as_str());
        AcledEvent::from_parts(data, date)
    }

    /// The typed record, given `date`, what was read from `event_date`.
    pub fn from_parts(data: &AcledData, date: Option<Date>) -> (r: Result<AcledEvent, Error>)
        ensures
            match r {
                Ok(e) => acled_from_parts(*data, date) == Ok::<AcledEvent, ErrorView>(e),
                Err(x) => acled_from_parts(*data, date) == Err::<AcledEvent, ErrorView>(x@),
            },
    {
        let date = match date {
            None => {
                return Err(Error::ParseError("event_date".to_owned()));
            },
            Some(d) => d,
        };
        let timestamp = match parse_u64(data.timestamp.as_str()) {
            None => {
                return Err(Error::ParseError("timestamp".to_owned()));
            },
            Some(t) => t,
        };
        let region = match Region::from_name(data.region.as_str()) {
            None => {
                return Err(Error::ParseError("region".to_owned()));
            },
            Some(r) => r,
        };
        Ok(
            AcledEvent {
                id: data.event_id_cnty.clone(),
                timestamp,
                date,
                event_type: (data.event_type.clone(), data.sub_event_type.clone()),
                disorder_type: data.disorder_type.clone(),
                region,
                country: data.country.clone(),
                administrative_region: data.admin1.clone(),
                latitude: data.latitude.clone(),
                longitude: data.longitude.clone(),
                note: data.notes.clone(),
            },
        )
    }
}

} // verus!
