use vstd::prelude::*;
use crate::acled::AcledData;
use crate::api::{concat_pages, page_parameters, Api, Request, PAGE_LIMIT};
use crate::date::parsed_ymd;
use crate::error::{Error, ErrorView};
use crate::filter::{where_key, AsParameter, Where};
use crate::record::RawRecord;
use crate::response::{spec_decode, RawEnvelope};
use crate::text::decimal;

verus! {

/// An unspecified filter adds nothing to a query, whatever the field; any
/// filter's parameters depend on the filter and the field name alone.
pub proof fn unspecified_is_omitted<T: AsParameter>(name: Seq<char>, a: Where<T>, b: Where<T>)
    ensures
        Where::<T>::Unspecified.encode(name) == Seq::<(Seq<char>, Seq<char>)>::empty(),
        a == b ==> a.encode(name) == b.encode(name),
{
    assert(Where::<T>::Unspecified.encode(name) =~= Seq::<(Seq<char>, Seq<char>)>::empty());
}

/// `Equal`, `Like`, `GreaterThan` and `GreaterThanOrEqual` give exactly two
/// parameters: `<name>_where` with the operator (`=`, `LIKE`, `>`, `>=`), then
/// `<name>` with the value.
pub proof fn comparisons_give_operator_then_value<T: AsParameter>(name: Seq<char>, v: T)
    ensures
        Where::Equal(v).encode(name) == seq![(where_key(name), "="@), (name, v.parameter_text())],
        Where::Like(v).encode(name) == seq![
            (where_key(name), "LIKE"@),
            (name, v.parameter_text()),
        ],
        Where::GreaterThan(v).encode(name) == seq![
            (where_key(name), ">"@),
            (name, v.parameter_text()),
        ],
        Where::GreaterThanOrEqual(v).encode(name) == seq![
            (where_key(name), ">="@),
            (name, v.parameter_text()),
        ],
        Where::Equal(v).encode(name).len() == 2,
        Where::Like(v).encode(name).len() == 2,
        Where::GreaterThan(v).encode(name).len() == 2,
        Where::GreaterThanOrEqual(v).encode(name).len() == 2,
{
}

/// `Between(a, b)` gives `<name>_where` with `BETWEEN`, then `<name>` with the
/// two bounds joined by `|`.
pub proof fn between_joins_bounds<T: AsParameter>(name: Seq<char>, a: T, b: T)
    ensures
        Where::Between(a, b).encode(name) == seq![
            (where_key(name), "BETWEEN"@),
            (name, a.parameter_text() + "|"@ + b.parameter_text()),
        ],
{
}

/// A page in the failure shape that says no success and no records gives the
/// API's message as an API error, and no records.
pub proof fn failure_shape_gives_api_error<R: RawRecord>(env: RawEnvelope<R>, message: String)
    requires
        env.success == Some(false),
        env.count == Some(0u64),
        env.data is None,
        env.error_message == Some(message),
    ensures
        spec_decode(env) == Err::<Seq<R::Event>, ErrorView>(ErrorView::APIError(message@)),
{
}

/// A page in the success shape whose count differs from its number of
/// records is a contract violation, never a shorter or longer page.
pub proof fn count_mismatch_is_violation<R: RawRecord>(env: RawEnvelope<R>)
    requires
        env.success is Some,
        env.count is Some,
        env.data is Some,
        env.count->Some_0 as int != env.data->Some_0@.len(),
    ensures
        spec_decode(env) == Err::<Seq<R::Event>, ErrorView>(ErrorView::ContractViolation),
{
}

/// A record whose date cannot be read fails with a parse error that names
/// `event_date`.
pub proof fn unreadable_date_is_named(data: AcledData)
    requires
        parsed_ymd(data.event_date@) is None,
    ensures
        data.spec_convert() == Err::<crate::acled::AcledEvent, ErrorView>(
            ErrorView::ParseError("event_date"@),
        ),
{
}

/// When the first page is short, a fetch asks for that page alone and
/// returns exactly its records.
pub proof fn short_first_page_ends_fetch<
    R: RawRecord,
    F: Fn(Request) -> Result<RawEnvelope<R>, Error>,
>(
    api: Api,
    transport: F,
    endpoint: Seq<char>,
    query: Seq<(Seq<char>, Seq<char>)>,
    pages: Seq<Seq<R::Event>>,
)
    requires
        api.fetched(transport, endpoint, query, pages),
        pages[0].len() < PAGE_LIMIT,
    ensures
        pages.len() == 1,
        concat_pages(pages) == pages[0],
        api.answered(transport, endpoint, query, 1, pages[0]),
        api.spec_request(endpoint, query, 1).1 == page_parameters(
            query,
            api.spec_config().key@,
            api.spec_config().email@,
            1,
        ),
{
    if pages.len() > 1 {
        assert(pages[0].len() >= PAGE_LIMIT);
    }
    assert(pages.drop_last() =~= Seq::<Seq<R::Event>>::empty());
    assert(concat_pages(pages.drop_last()) =~= Seq::<R::Event>::empty());
    assert(concat_pages(pages) =~= pages[0]);
}

/// When the first page is full and the second short, a fetch asks for two
/// pages, the second with `page` set to 2, and returns both pages' records
/// in order.
pub proof fn full_then_short_page_fetches_two<
    R: RawRecord,
    F: Fn(Request) -> Result<RawEnvelope<R>, Error>,
>(
    api: Api,
    transport: F,
    endpoint: Seq<char>,
    query: Seq<(Seq<char>, Seq<char>)>,
    pages: Seq<Seq<R::Event>>,
)
    requires
        api.fetched(transport, endpoint, query, pages),
        pages.len() >= 2,
        pages[1].len() < PAGE_LIMIT,
    ensures
        pages.len() == 2,
        concat_pages(pages) == pages[0] + pages[1],
        api.answered(transport, endpoint, query, 2, pages[1]),
        api.spec_request(endpoint, query, 2).1.last() == ("page"@, decimal(2)),
{
    if pages.len() > 2 {
        assert(pages[1].len() >= PAGE_LIMIT);
    }
    assert(pages.len() == 2);
    let p = pages.drop_last();
    assert(p.len() == 1 && p[0] == pages[0]);
    assert(p.drop_last() =~= Seq::<Seq<R::Event>>::empty());
    assert(concat_pages(p.drop_last()) =~= Seq::<R::Event>::empty());
    assert(concat_pages(p) =~= pages[0]);
    assert(concat_pages(pages) =~= pages[0] + pages[1]);
}

} // verus!
