//! Requests the library asks the transport to send, the outcomes the
//! transport hands back, and the errors every operation can report.
//!
//! The library never performs network traffic itself: each operation builds
//! a `Request`, an unverified shell sends it, and the shell reports a
//! `FetchResult` that the operation's interpreter turns into a typed result.

use crate::json::{Json, JsonV};
use vstd::prelude::*;

verus! {

broadcast use vstd::string::group_string_axioms, vstd::seq::group_seq_axioms, vstd::std_specs::vec::group_vec_axioms;

/// The HTTP method of a request.
#[derive(Clone, Copy, PartialEq, Eq, Structural, Debug)]
pub enum Method {
    Get,
    Post,
    Put,
    Delete,
}

impl DeepView for Method {
    type V = Method;

    open spec fn deep_view(&self) -> Method {
        *self
    }
}

/// One request to be sent: a bearer-authenticated call against a full URL,
/// with typed query parameters and an optional JSON body.
#[derive(Debug)]
pub struct Request {
    pub method: Method,
    pub url: String,
    pub query: Vec<(String, String)>,
    pub body: Option<Json>,
    pub bearer: String,
}

#[verifier::ext_equal]
pub struct RequestV {
    pub method: Method,
    pub url: Seq<char>,
    pub query: Seq<(Seq<char>, Seq<char>)>,
    pub body: Option<JsonV>,
    pub bearer: Seq<char>,
}

impl DeepView for Request {
    type V = RequestV;

    open spec fn deep_view(&self) -> RequestV {
        RequestV {
            method: self.method,
            url: self.url@,
            query: self.query.deep_view(),
            body: self.body.deep_view(),
            bearer: self.bearer@,
        }
    }
}

/// `key=value`.
pub open spec fn query_pair_text(p: (Seq<char>, Seq<char>)) -> Seq<char> {
    p.0 + seq!['='] + p.1
}

/// `k1=v1&k2=v2&...`.
pub open spec fn query_pairs_text(q: Seq<(Seq<char>, Seq<char>)>) -> Seq<char>
    decreases q.len(),
{
    if q.len() == 0 {
        Seq::empty()
    } else if q.len() == 1 {
        query_pair_text(q[0])
    } else {
        query_pair_text(q[0]) + seq!['&'] + query_pairs_text(q.drop_first())
    }
}

proof fn lemma_query_pairs_push(q: Seq<(Seq<char>, Seq<char>)>, p: (Seq<char>, Seq<char>))
    ensures
        q.len() == 0 ==> query_pairs_text(q.push(p)) == query_pair_text(p),
        q.len() > 0 ==> query_pairs_text(q.push(p)) == query_pairs_text(q) + seq!['&']
            + query_pair_text(p),
    decreases q.len(),
{
    if q.len() == 0 {
        assert(q.push(p) =~= seq![p]);
        assert(query_pairs_text(seq![p]) == query_pair_text(p));
    } else {
        assert(q.push(p).drop_first() =~= q.drop_first().push(p));
        lemma_query_pairs_push(q.drop_first(), p);
        if q.len() == 1 {
            assert(query_pairs_text(q.push(p)) =~= query_pairs_text(q) + seq!['&']
                + query_pair_text(p));
        } else {
            assert(query_pairs_text(q.push(p)) =~= query_pairs_text(q) + seq!['&']
                + query_pair_text(p));
        }
    }
}

/// The URL with the query string appended, a `?` before the first parameter.
pub open spec fn request_url_text(r: RequestV) -> Seq<char> {
    if r.query.len() == 0 {
        r.url
    } else {
        r.url + seq!['?'] + query_pairs_text(r.query)
    }
}

impl Request {
    /// The full URL of the request, query string included.
    pub fn full_url(&self) -> (s: String)
        ensures
            s@ == request_url_text(self.deep_view()),
    {
        let mut s = self.url.clone();
        let n = self.query.len();
        let ghost q = self.query.deep_view();
        for i in 0..n
            invariant
                n == self.query.len(),
                q == self.query.deep_view(),
                q.len() == n,
                i == 0 ==> s@ == self.url@,
                i > 0 ==> s@ == self.url@ + seq!['?'] + query_pairs_text(q.take(i as int)),
        {
            if i == 0 {
                s.append("?");
            } else {
                s.append("&");
            }
            s.append(self.query[i].0.as_str());
            s.append("=");
            s.append(self.query[i].1.as_str());
            proof {
                reveal_strlit("?");
                reveal_strlit("&");
                reveal_strlit("=");
                assert("?"@ =~= seq!['?']);
                assert("&"@ =~= seq!['&']);
                assert("="@ =~= seq!['=']);
                assert(q.take(i + 1) =~= q.take(i as int).push(q[i as int]));
                lemma_query_pairs_push(q.take(i as int), q[i as int]);
                if i == 0 {
                    assert(q.take(0) =~= Seq::empty());
                    assert(s@ =~= self.url@ + seq!['?'] + query_pairs_text(q.take(1)));
                } else {
                    assert(s@ =~= self.url@ + seq!['?'] + query_pairs_text(q.take(i + 1)));
                }
            }
        }
        proof {
            if n > 0 {
                assert(q.take(n as int) =~= q);
            }
        }
        s
    }
}

/// What one HTTP exchange produced: a status line, the raw body text, and
/// the body as a document where it parsed as JSON.
#[derive(Debug)]
pub struct HttpResponse {
    pub status: u16,
    pub body: String,
    pub json: Option<Json>,
}

#[verifier::ext_equal]
pub struct HttpResponseV {
    pub status: u16,
    pub body: Seq<char>,
    pub json: Option<JsonV>,
}

impl DeepView for HttpResponse {
    type V = HttpResponseV;

    open spec fn deep_view(&self) -> HttpResponseV {
        HttpResponseV { status: self.status, body: self.body@, json: self.json.deep_view() }
    }
}

/// What the transport reports for one request.  A timeout below the HTTP
/// layer is distinct from every other transport failure.
#[derive(Debug)]
pub enum FetchResult {
    /// The request could not be completed: connection failure, with a message.
    Failed(String),
    /// The request ran out of time before a response arrived.
    TimedOut,
    /// A response arrived.
    Response(HttpResponse),
}

#[verifier::ext_equal]
pub enum FetchResultV {
    Failed(Seq<char>),
    TimedOut,
    Response(HttpResponseV),
}

impl DeepView for FetchResult {
    type V = FetchResultV;

    open spec fn deep_view(&self) -> FetchResultV {
        match self {
            FetchResult::Failed(m) => FetchResultV::Failed(m@),
            FetchResult::TimedOut => FetchResultV::TimedOut,
            FetchResult::Response(r) => FetchResultV::Response(r.deep_view()),
        }
    }
}

/// Why an operation failed.
#[derive(Debug)]
pub enum ApiError {
    /// The transport could not complete the exchange; carries its message.
    Transport(String),
    /// The exchange ran out of time.
    TimedOut,
    /// The remote system answered with an unexpected status; carries the
    /// status code and the raw response body.
    Status(u16, String),
    /// The response did not have the expected shape; carries the raw body.
    Decode(String),
}

#[verifier::ext_equal]
pub enum ApiErrorV {
    Transport(Seq<char>),
    TimedOut,
    Status(u16, Seq<char>),
    Decode(Seq<char>),
}

impl DeepView for ApiError {
    type V = ApiErrorV;

    open spec fn deep_view(&self) -> ApiErrorV {
        match self {
            ApiError::Transport(m) => ApiErrorV::Transport(m@),
            ApiError::TimedOut => ApiErrorV::TimedOut,
            ApiError::Status(code, body) => ApiErrorV::Status(*code, body@),
            ApiError::Decode(body) => ApiErrorV::Decode(body@),
        }
    }
}

/// A status in the 2xx range.
pub open spec fn is_success(status: u16) -> bool {
    200 <= status < 300
}

/// The error for an outcome that is not a response with an accepted status:
/// transport failures, timeouts, and refused statuses map to their own
/// variants.  A response with an accepted status maps to `None`.
pub open spec fn outcome_error(r: FetchResultV, accepted: bool) -> Option<ApiErrorV> {
    match r {
        FetchResultV::Failed(m) => Some(ApiErrorV::Transport(m)),
        FetchResultV::TimedOut => Some(ApiErrorV::TimedOut),
        FetchResultV::Response(resp) => if accepted {
            None
        } else {
            Some(ApiErrorV::Status(resp.status, resp.body))
        },
    }
}

/// The typed result an interpreter owes for an outcome: transport failures
/// and timeouts keep their own error, a refused status carries the status
/// code and raw body, an accepted status without a decodable payload is a
/// decode error, and an accepted status with a payload succeeds.
pub open spec fn interpreted<T>(
    rv: FetchResultV,
    expect_exact: Option<u16>,
    payload: Option<T>,
) -> Result<T, ApiErrorV> {
    match rv {
        FetchResultV::Failed(m) => Err(ApiErrorV::Transport(m)),
        FetchResultV::TimedOut => Err(ApiErrorV::TimedOut),
        FetchResultV::Response(resp) => {
            let ok = match expect_exact {
                Some(code) => resp.status == code,
                None => is_success(resp.status),
            };
            if !ok {
                Err(ApiErrorV::Status(resp.status, resp.body))
            } else {
                match payload {
                    Some(v) => Ok(v),
                    None => Err(ApiErrorV::Decode(resp.body)),
                }
            }
        },
    }
}

/// The produced result agrees, value for value, with the owed one.
pub open spec fn result_matches<T: DeepView>(
    out: Result<T, ApiError>,
    owed: Result<T::V, ApiErrorV>,
) -> bool {
    match (out, owed) {
        (Ok(v), Ok(sv)) => v.deep_view() == sv,
        (Err(e), Err(se)) => e.deep_view() == se,
        _ => false,
    }
}

/// As `result_matches`, for operations that return no value.
pub open spec fn unit_result_matches(
    out: Result<(), ApiError>,
    owed: Result<(), ApiErrorV>,
) -> bool {
    match (out, owed) {
        (Ok(_), Ok(_)) => true,
        (Err(e), Err(se)) => e.deep_view() == se,
        _ => false,
    }
}

} // verus!
