use vstd::prelude::*;
use crate::acled::{AcledData, AcledEvent, AcledQuery};
use crate::deleted::{DeletedData, DeletedEvent, DeletedQuery};
use crate::error::{Configuration, Error, ErrorView};
use crate::filter::params_view;
use crate::record::RawRecord;
use crate::response::{decode_page, page_outcome, spec_decode, RawEnvelope};
use crate::text::{decimal, u64_text};

verus! {

/// Most records the API returns per page; a shorter page is the last one.
pub const PAGE_LIMIT: usize = 5000;

/// The address of the API.
pub const BASE_URL: &'static str = "https://api.acleddata.com";

/// One HTTP GET to perform: the URL and its query parameters, in order.
pub struct Request {
    pub url: String,
    pub parameters: Vec<(String, String)>,
}

/// The parameters of the request for page `page`: the query's, then the
/// credentials, then the page number from the second page on.
pub open spec fn page_parameters(
    query: Seq<(Seq<char>, Seq<char>)>,
    key: Seq<char>,
    email: Seq<char>,
    page: nat,
) -> Seq<(Seq<char>, Seq<char>)> {
    let with_credentials = query + seq![("key"@, key), ("email"@, email)];
    if page > 1 {
        with_credentials.push(("page"@, decimal(page)))
    } else {
        with_credentials
    }
}

/// The URL of an endpoint.
pub open spec fn endpoint_url(base: Seq<char>, endpoint: Seq<char>) -> Seq<char> {
    base + "/"@ + endpoint + "/read"@
}

/// The records of all pages, in order.
pub open spec fn concat_pages<E>(pages: Seq<Seq<E>>) -> Seq<E>
    decreases pages.len(),
{
    if pages.len() == 0 {
        Seq::empty()
    } else {
        concat_pages(pages.drop_last()) + pages.last()
    }
}

/// Entry point to the API's endpoints.
pub struct Api {
    config: Configuration,
    base: String,
}

impl Api {
    /// The credentials sent with every request.
    pub closed spec fn spec_config(&self) -> Configuration {
        self.config
    }

    /// The address requests go to.
    pub closed spec fn spec_base(&self) -> Seq<char> {
        self.base@
    }

    /// The request for page `page` of `endpoint` under query parameters
    /// `query`, as texts.
    pub open spec fn spec_request(
        &self,
        endpoint: Seq<char>,
        query: Seq<(Seq<char>, Seq<char>)>,
        page: nat,
    ) -> (Seq<char>, Seq<(Seq<char>, Seq<char>)>) {
        (
            endpoint_url(self.spec_base(), endpoint),
            page_parameters(query, self.spec_config().key@, self.spec_config().email@, page),
        )
    }

    /// `events` is what the transport, given the request for page `page`,
    /// may answer with once decoded.
    pub open spec fn answered<R: RawRecord, F: Fn(Request) -> Result<RawEnvelope<R>, Error>>(
        &self,
        transport: F,
        endpoint: Seq<char>,
        query: Seq<(Seq<char>, Seq<char>)>,
        page: nat,
        events: Seq<R::Event>,
    ) -> bool {
        exists|req: Request, env: RawEnvelope<R>|
            (req.url@, params_view(req.parameters@)) == self.spec_request(endpoint, query, page)
                && #[trigger] transport.ensures((req,), Ok::<RawEnvelope<R>, Error>(env))
                && spec_decode(env) == Ok::<Seq<R::Event>, ErrorView>(events)
    }

    /// The request for page `page` may be answered with failure `e`: the
    /// transport's own error, or a page that decodes to that error.
    pub open spec fn failed_on<R: RawRecord, F: Fn(Request) -> Result<RawEnvelope<R>, Error>>(
        &self,
        transport: F,
        endpoint: Seq<char>,
        query: Seq<(Seq<char>, Seq<char>)>,
        page: nat,
        e: ErrorView,
    ) -> bool {
        exists|req: Request, res: Result<RawEnvelope<R>, Error>|
            (req.url@, params_view(req.parameters@)) == self.spec_request(endpoint, query, page)
                && #[trigger] transport.ensures((req,), res) && match res {
                Err(x) => x@ == e,
                Ok(env) => spec_decode(env) == Err::<Seq<R::Event>, ErrorView>(e),
            }
    }

    /// `done` were answered for pages 1, 2, ... in turn, and every one of
    /// them is full.
    pub open spec fn full_pages<R: RawRecord, F: Fn(Request) -> Result<RawEnvelope<R>, Error>>(
        &self,
        transport: F,
        endpoint: Seq<char>,
        query: Seq<(Seq<char>, Seq<char>)>,
        done: Seq<Seq<R::Event>>,
    ) -> bool {
        forall|i: int|
            0 <= i < done.len() ==> #[trigger] done[i].len() >= PAGE_LIMIT && self.answered(
                transport,
                endpoint,
                query,
                (i + 1) as nat,
                done[i],
            )
    }

    /// `pages` were answered for pages 1, 2, ... in turn, every one full
    /// but the last, which is short.
    pub open spec fn fetched<R: RawRecord, F: Fn(Request) -> Result<RawEnvelope<R>, Error>>(
        &self,
        transport: F,
        endpoint: Seq<char>,
        query: Seq<(Seq<char>, Seq<char>)>,
        pages: Seq<Seq<R::Event>>,
    ) -> bool {
        &&& pages.len() >= 1
        &&& pages.last().len() < PAGE_LIMIT
        &&& forall|i: int| 0 <= i < pages.len() - 1 ==> #[trigger] pages[i].len() >= PAGE_LIMIT
        &&& forall|i: int|
            0 <= i < pages.len() ==> self.answered(
                transport,
                endpoint,
                query,
                (i + 1) as nat,
                #[trigger] pages[i],
            )
    }

    pub fn new(config: Configuration) -> (r: Api)
        ensures
            r.spec_config() == config,
            r.spec_base() == BASE_URL@,
    {
        Api { config, base: BASE_URL.to_owned() }
    }

    /// The URL of `endpoint`.
    pub fn url(&self, endpoint: &str) -> (r: String)
        ensures
            r@ == endpoint_url(self.spec_base(), endpoint@),
    {
        let mut url = self.base.clone();
        url.append("/");
        url.append(endpoint);
        url.append("/read");
        url
    }

    /// The parameters of the request for page `page`.
    pub fn request_parameters(&self, query: &Vec<(String, String)>, page: u64) -> (r: Vec<
        (String, String),
    >)
        ensures
            params_view(r@) == page_parameters(
                params_view(query@),
                self.spec_config().key@,
                self.spec_config().email@,
                page as nat,
            ),
    {
        let mut r: Vec<(String, String)> = Vec::new();
        let mut i: usize = 0;
        while i < query.len()
            invariant
                0 <= i <= query@.len(),
                params_view(r@) == params_view(query@.subrange(0, i as int)),
            decreases query@.len() - i,
        {
            let p = &query[i];
            let k = p.0.clone();
            let v = p.1.clone();
            let ghost prev = r@;
            r.push((k, v));
            proof {
                assert(k@ == query@[i as int].0@ && v@ == query@[i as int].1@);
                assert(r@ == prev.push((k, v)));
                assert(params_view(r@) =~= params_view(prev).push((k@, v@)));
                assert(query@.subrange(0, i + 1) =~= query@.subrange(0, i as int).push(query@[i as int]));
                assert(params_view(r@) =~= params_view(query@.subrange(0, i + 1)));
            }
            i = i + 1;
        }
        proof {
            assert(query@.subrange(0, i as int) =~= query@);
        }
        let ghost before = r@;
        r.push(("key".to_owned(), self.config.key.clone()));
        r.push(("email".to_owned(), self.config.email.clone()));
        if page > 1 {
            r.push(("page".to_owned(), u64_text(page)));
        }
        proof {
            assert(params_view(r@) =~= page_parameters(
                params_view(query@),
                self.spec_config().key@,
                self.spec_config().email@,
                page as nat,
            ));
        }
        r
    }

    /// Fetches every page of `endpoint` in turn until a short page, and
    /// returns the records of all pages in order. Any failure ends the fetch
    /// with that error and no records.
    pub fn fetch_all<R: RawRecord, F: Fn(Request) -> Result<RawEnvelope<R>, Error>>(
        &self,
        endpoint: &str,
        query: &Vec<(String, String)>,
        transport: &F,
    ) -> (r: Result<Vec<R::Event>, Error>)
        requires
            forall|req: Request| transport.requires((req,)),
        ensures
            r matches Ok(v) ==> exists|pages: Seq<Seq<R::Event>>|
                self.fetched(*transport, endpoint@, params_view(query@), pages)
                    && v@ == concat_pages(pages),
            r matches Err(e) ==> exists|done: Seq<Seq<R::Event>>|
                #[trigger] self.full_pages(*transport, endpoint@, params_view(query@), done) && (self.failed_on(
                    *transport,
                    endpoint@,
                    params_view(query@),
                    (done.len() + 1) as nat,
                    e@,
                ) || (e@ is ContractViolation && done.len() >= u64::MAX)),
    {
        let mut all: Vec<R::Event> = Vec::new();
        let ghost mut pages: Seq<Seq<R::Event>> = Seq::empty();
        let mut page: u64 = 1;
        loop
            invariant
                1 <= page,
                pages.len() == page - 1,
                all@ == concat_pages(pages),
                forall|i: int| 0 <= i < pages.len() ==> #[trigger] pages[i].len() >= PAGE_LIMIT,
                forall|i: int|
                    0 <= i < pages.len() ==> self.answered(
                        *transport,
                        endpoint@,
                        params_view(query@),
                        (i + 1) as nat,
                        #[trigger] pages[i],
                    ),
                forall|req: Request| transport.requires((req,)),
            decreases u64::MAX - page,
        {
            let req = Request { url: self.url(endpoint), parameters: self.request_parameters(query, page) };
            let ghost sent = req;
            let res = transport(req);
            let ghost answer = res;
            let env = match res {
                Ok(env) => env,
                Err(e) => {
                    proof {
                        assert(self.full_pages(*transport, endpoint@, params_view(query@), pages));
                        assert(self.failed_on(
                            *transport,
                            endpoint@,
                            params_view(query@),
                            page as nat,
                            e@,
                        ));
                    }
                    return Err(e);
                },
            };
            let ghost got = env;
            let mut events = match decode_page(env) {
                Ok(events) => events,
                Err(e) => {
                    proof {
                        assert(transport.ensures((sent,), answer));
                        assert(self.full_pages(*transport, endpoint@, params_view(query@), pages));
                        assert(self.failed_on(
                            *transport,
                            endpoint@,
                            params_view(query@),
                            page as nat,
                            e@,
                        ));
                    }
                    return Err(e);
                },
            };
            let short = events.len() < PAGE_LIMIT;
            proof {
                assert(transport.ensures((sent,), Ok::<RawEnvelope<R>, Error>(got)));
                assert(self.answered(
                    *transport,
                    endpoint@,
                    params_view(query@),
                    page as nat,
                    events@,
                ));
                let old_pages = pages;
                pages = pages.push(events@);
                assert(pages.drop_last() =~= old_pages);
                assert(forall|i: int| 0 <= i < old_pages.len() ==> pages[i] == old_pages[i]);
            }
            all.append(&mut events);
            if short {
                proof {
                    assert(self.fetched(*transport, endpoint@, params_view(query@), pages));
                    assert(all@ == concat_pages(pages));
                }
                return Ok(all);
            }
            if page == u64::MAX {
                proof {
                    assert(self.full_pages(*transport, endpoint@, params_view(query@), pages));
                }
                return Err(Error::ContractViolation("more pages than can be counted".to_owned()));
            }
            page = page + 1;
        }
    }

    /// Every event of the `acled` endpoint that `query` selects, over all
    /// pages; `transport` performs each request.
    pub fn get_acled<F: Fn(Request) -> Result<RawEnvelope<AcledData>, Error>>(
        &self,
        query: &AcledQuery,
        transport: &F,
    ) -> (r: Result<Vec<AcledEvent>, Error>)
        requires
            query.wf(),
            forall|req: Request| transport.requires((req,)),
        ensures
            r matches Ok(v) ==> exists|pages: Seq<Seq<AcledEvent>>|
                self.fetched(*transport, "acled"@, query.encode(), pages)
                    && v@ == concat_pages(pages),
            r matches Err(e) ==> exists|done: Seq<Seq<AcledEvent>>|
                #[trigger] self.full_pages(*transport, "acled"@, query.encode(), done) && (self.failed_on(
                    *transport,
                    "acled"@,
                    query.encode(),
                    (done.len() + 1) as nat,
                    e@,
                ) || (e@ is ContractViolation && done.len() >= u64::MAX)),
    {
        let parameters = query.as_parameters();
        self.fetch_all("acled", &parameters, transport)
    }

    /// Every deleted event that `query` selects, over all pages;
    /// `transport` performs each request.
    pub fn get_deleted<F: Fn(Request) -> Result<RawEnvelope<DeletedData>, Error>>(
        &self,
        query: &DeletedQuery,
        transport: &F,
    ) -> (r: Result<Vec<DeletedEvent>, Error>)
        requires
            forall|req: Request| transport.requires((req,)),
        ensures
            r matches Ok(v) ==> exists|pages: Seq<Seq<DeletedEvent>>|
                self.fetched(*transport, "deleted"@, query.encode(), pages)
                    && v@ == concat_pages(pages),
            r matches Err(e) ==> exists|done: Seq<Seq<DeletedEvent>>|
                #[trigger] self.full_pages(*transport, "deleted"@, query.encode(), done) && (self.failed_on(
                    *transport,
                    "deleted"@,
                    query.encode(),
                    (done.len() + 1) as nat,
                    e@,
                ) || (e@ is ContractViolation && done.len() >= u64::MAX)),
    {
        let parameters = query.as_parameters();
        self.fetch_all("deleted", &parameters, transport)
    }
}

} // verus!
