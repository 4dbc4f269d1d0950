//! The requests that the daemon's client sends about metrics.

use vstd::prelude::*;
use vstd::string::*;

use crate::text::text_concat;

verus! {

/// An HTTP method the client uses.
#[derive(PartialEq, Eq, Structural, Clone, Copy, Debug)]
pub enum HttpMethod {
    Get,
    Post,
}

/// A request to the daemon: `method` on `path` (relative to the daemon's
/// versioned API root), with a query string built from `query` and a JSON body
/// built from `body` when they are present.
pub struct ApiRequest<Q, B> {
    pub method: HttpMethod,
    pub path: String,
    pub query: Option<Q>,
    pub body: Option<B>,
}

/// An error raised by the client before any request leaves.
pub enum HttpClientError {
    /// The data given for `context` is invalid; `message` says why.
    InvalidData { context: String, message: String },
}

/// The path of the metrics collection.
pub open spec fn metric_path() -> Seq<char> {
    "/metrics"@
}

/// Whether `f` is the filter that a listing asked with `query` converts: the
/// given filter, or one that `F::default` gives.
pub open spec fn listed_filter<F: Default>(query: Option<F>, f: F) -> bool {
    match query {
        Some(g) => f == g,
        None => call_ensures(F::default, (), f),
    }
}

/// Whether `r` is the listing for the converted filter `q`: a GET of the
/// metrics collection with that query, or the error that names the query.
pub open spec fn listing<Q>(
    q: Result<Q, String>,
    r: Result<ApiRequest<Q, ()>, HttpClientError>,
) -> bool {
    match q {
        Ok(q) => r matches Ok(req) && req.method == HttpMethod::Get && req.path@ == metric_path()
            && req.query == Some(q) && req.body is None,
        Err(m) => r matches Err(HttpClientError::InvalidData { context, message }) && context@
            == "Query"@ && message@ == m@,
    }
}

/// Whether `r` is what listing with `query` and the conversion `to_query`
/// gives: the listing for a conversion of the filter it asks with.
pub open spec fn lists<F: Default, Q, C: Fn(F) -> Result<Q, String>>(
    query: Option<F>,
    to_query: C,
    r: Result<ApiRequest<Q, ()>, HttpClientError>,
) -> bool {
    exists|f: F, q: Result<Q, String>|
        #![trigger to_query.ensures((f,), q)]
        listed_filter(query, f) && to_query.ensures((f,), q) && listing(q, r)
}

/// Whether `r1` and `r2` send the same request, or fail the same way.
pub open spec fn same_listing<Q>(
    r1: Result<ApiRequest<Q, ()>, HttpClientError>,
    r2: Result<ApiRequest<Q, ()>, HttpClientError>,
) -> bool {
    match (r1, r2) {
        (Ok(a), Ok(b)) => a.method == b.method && a.path@ == b.path@ && a.query == b.query
            && a.body == b.body,
        (
            Err(HttpClientError::InvalidData { context: c1, message: m1 }),
            Err(HttpClientError::InvalidData { context: c2, message: m2 }),
        ) => c1@ == c2@ && m1@ == m2@,
        _ => false,
    }
}

/// Listing without a filter sends the same request as listing with the
/// default filter `d`, when the default filter is one value and the
/// conversion's result depends on the filter alone.
pub proof fn lemma_no_filter_is_default_filter<F: Default, Q, C: Fn(F) -> Result<Q, String>>(
    d: F,
    to_query: C,
    r1: Result<ApiRequest<Q, ()>, HttpClientError>,
    r2: Result<ApiRequest<Q, ()>, HttpClientError>,
)
    requires
        forall|x: F| #[trigger] call_ensures(F::default, (), x) <==> x == d,
        forall|f: F, q1: Result<Q, String>, q2: Result<Q, String>|
            #[trigger] to_query.ensures((f,), q1) && #[trigger] to_query.ensures((f,), q2) ==> q1
                == q2,
        lists(None::<F>, to_query, r1),
        lists(Some(d), to_query, r2),
    ensures
        same_listing(r1, r2),
{
    let (f1, q1) = choose|f: F, q: Result<Q, String>|
        #![trigger to_query.ensures((f,), q)]
        listed_filter(None::<F>, f) && to_query.ensures((f,), q) && listing(q, r1);
    let (f2, q2) = choose|f: F, q: Result<Q, String>|
        #![trigger to_query.ensures((f,), q)]
        listed_filter(Some(d), f) && to_query.ensures((f,), q) && listing(q, r2);
    assert(f1 == d);
    assert(f2 == d);
    assert(q1 == q2);
}

/// A client of the nanocl daemon at `url`.
pub struct NanocldClient {
    pub url: String,
}

impl NanocldClient {
    pub fn new(url: String) -> (c: NanocldClient)
        ensures
            c.url@ == url@,
    {
        NanocldClient { url }
    }

    /// The request that lists the metrics matching a filter: `query`, or the
    /// default filter when there is none. `to_query` puts the filter in its
    /// query-string form or says why it cannot; then no request is made and the
    /// error names the query.
    pub fn list_metric<F: Default, Q, C: Fn(F) -> Result<Q, String>>(
        &self,
        query: Option<F>,
        to_query: C,
    ) -> (r: Result<ApiRequest<Q, ()>, HttpClientError>)
        requires
            forall|f: F| #[trigger] to_query.requires((f,)),
        ensures
            lists(query, to_query, r),
    {
        let filter = match query {
            Some(f) => f,
            None => F::default(),
        };
        let converted = to_query(filter);
        let ghost q = converted;
        let r = match converted {
            Ok(q) => Ok(
                ApiRequest {
                    method: HttpMethod::Get,
                    path: String::from_str("/metrics"),
                    query: Some(q),
                    body: None,
                },
            ),
            Err(message) => Err(
                HttpClientError::InvalidData { context: String::from_str("Query"), message },
            ),
        };
        assert(listing(q, r));
        r
    }

    /// The request that creates a metric from `metric`.
    pub fn create_metric<B>(&self, metric: B) -> (r: ApiRequest<(), B>)
        ensures
            r.method == HttpMethod::Post,
            r.path@ == metric_path(),
            r.path@ == "/metrics"@,
            r.query is None,
            r.body == Some(metric),
    {
        ApiRequest {
            method: HttpMethod::Post,
            path: String::from_str("/metrics"),
            query: None,
            body: Some(metric),
        }
    }

    /// The request that inspects the metric with key `key`.
    pub fn inspect_metric(&self, key: &str) -> (r: ApiRequest<(), ()>)
        ensures
            r.method == HttpMethod::Get,
            r.path@ == metric_path() + "/"@ + key@ + "/inspect"@,
            r.path@ == "/metrics"@ + "/"@ + key@ + "/inspect"@,
            r.query is None,
            r.body is None,
    {
        let mut path = text_concat("/metrics", "/");
        path.append(key);
        path.append("/inspect");
        ApiRequest { method: HttpMethod::Get, path, query: None, body: None }
    }
}


/// A listing asked with a filter converts that filter; the converted filter
/// gives a GET of `/metrics` with that query and no body, and a filter that
/// cannot be converted gives the error that names the query, with the
/// conversion's message.
pub proof fn lemma_listing<F: Default, Q>(
    g: F,
    f: F,
    q: Result<Q, String>,
    r: Result<ApiRequest<Q, ()>, HttpClientError>,
)
    ensures
        listed_filter(Some(g), f) <==> f == g,
        metric_path() == "/metrics"@,
        listing(q, r) && q is Ok ==> (r matches Ok(req) && req.method == HttpMethod::Get && req.path@
            == "/metrics"@ && req.query == Some(q->Ok_0) && req.body is None),
        listing(q, r) && q is Err ==> (r matches Err(HttpClientError::InvalidData { context, message })
            && context@ == "Query"@ && message@ == q->Err_0@),
{
}

} // verus!
