//! Endpoints and the requests made of them.
use vstd::prelude::*;
use vstd::string::StringExecFns;
use crate::Error;
use crate::ErrorView;
use crate::api::json::{JsonValue, JsonView, encode, json_serialized};
use crate::api::query::{QueryParams, ParamValue, url_join, url_joined, url_with_query, pairs_view};
use crate::api::text::{decimal, push_decimal};

verus! {

/// The HTTP methods used by the Redmine API.
#[derive(Debug, Clone, Copy, PartialEq, Eq, Structural)]
pub enum HttpMethod {
    /// GET
    Get,
    /// POST
    Post,
    /// PUT
    Put,
    /// DELETE
    Delete,
}

/// The body of a request as an endpoint describes it.
pub enum BodySpec {
    /// a JSON document, sent as `application/json`
    Json(JsonView),
    /// the content of a file, sent with the given MIME type
    File { mime: Seq<char>, path: Seq<char> },
}

/// The body of a request.
#[derive(Debug)]
pub enum RequestBody {
    /// bytes sent with the given MIME type (`Content-Type`)
    Bytes { mime: String, data: Vec<u8> },
    /// the content of the file at `path`, sent with the given MIME type; the
    /// file is read by whoever sends the request
    File { mime: String, path: String },
}

/// The mathematical value of a [`RequestBody`].
pub enum RequestBodyView {
    Bytes { mime: Seq<char>, data: Seq<u8> },
    File { mime: Seq<char>, path: Seq<char> },
}

impl View for RequestBody {
    type V = RequestBodyView;

    open spec fn view(&self) -> RequestBodyView {
        match self {
            RequestBody::Bytes { mime, data } => RequestBodyView::Bytes { mime: mime@, data: data@ },
            RequestBody::File { mime, path } => RequestBodyView::File { mime: mime@, path: path@ },
        }
    }
}

/// What `body` gives for a body description: nothing; the JSON text of the
/// document as `application/json`, or the JSON library's error; or the file.
pub open spec fn body_outcome(b: Option<BodySpec>) -> Result<Option<RequestBodyView>, ErrorView> {
    match b {
        None => Ok(None),
        Some(BodySpec::Json(doc)) => match json_serialized(doc) {
            Ok(bytes) => Ok(Some(RequestBodyView::Bytes { mime: "application/json"@, data: bytes })),
            Err(m) => Err(ErrorView::SerdeJsonError(m)),
        },
        Some(BodySpec::File { mime, path }) => Ok(Some(RequestBodyView::File { mime, path })),
    }
}

/// The mathematical value of the result of `body`.
pub open spec fn body_result_view(r: Result<Option<RequestBody>, Error>) -> Result<
    Option<RequestBodyView>,
    ErrorView,
> {
    match r {
        Ok(Some(b)) => Ok(Some(b@)),
        Ok(None) => Ok(None),
        Err(e) => Err(e@),
    }
}

/// The body of an endpoint that sends the given JSON document.
pub fn json_body(doc: &JsonValue) -> (r: Result<Option<RequestBody>, Error>)
    ensures
        body_result_view(r) == body_outcome(Some(BodySpec::Json(doc@))),
{
    match encode(doc) {
        Ok(data) => Ok(Some(RequestBody::Bytes { mime: String::from_str("application/json"), data })),
        Err(m) => Err(Error::SerdeJsonError(m)),
    }
}


/// Error returned when building an endpoint from its builder fails.
#[derive(Debug, Clone)]
pub enum BuilderError {
    /// A required field was not set.
    UninitializedField(&'static str),
    /// A field value was not valid.
    ValidationError(String),
}

/// A trait providing the necessary information for a single REST API endpoint.
pub trait Endpoint {
    /// The HTTP method of the endpoint.
    spec fn method_spec(&self) -> HttpMethod;

    /// The path of the endpoint, relative to the Redmine base URL.
    spec fn endpoint_spec(&self) -> Seq<char>;

    /// The query parameters of the endpoint.
    spec fn parameters_spec(&self) -> Seq<(Seq<char>, Seq<char>)>;

    /// The body the endpoint sends, if any.
    spec fn body_spec(&self) -> Option<BodySpec>;

    /// Whether every value of the endpoint can be written in the form its
    /// parameters take (true of all but endpoints that carry date-times).
    open spec fn writable(&self) -> bool {
        true
    }

    /// The HTTP method to use for the endpoint.
    fn method(&self) -> (r: HttpMethod)
        ensures
            r == self.method_spec(),
    ;

    /// The path to the endpoint.
    fn endpoint(&self) -> (r: String)
        ensures
            r@ == self.endpoint_spec(),
    ;

    /// Whether every value of the endpoint can be written (see [`Endpoint::writable`]).
    fn check_writable(&self) -> (r: bool)
        ensures
            r == self.writable(),
    ;

    /// Query parameters for the endpoint.
    fn parameters(&self) -> (r: QueryParams)
        requires
            self.writable(),
        ensures
            r@ == self.parameters_spec(),
    ;

    /// The body for the endpoint.
    fn body(&self) -> (r: Result<Option<RequestBody>, Error>)
        ensures
            body_result_view(r) == body_outcome(self.body_spec()),
    ;
}

/// A trait to indicate that an endpoint is expected to return a JSON result
pub trait ReturnsJsonResponse {}

/// A trait to indicate that an endpoint requires pagination to yield all results
/// or in other words that the non-pagination API should not be used on it or one
/// might miss some results
pub trait NoPagination {}

/// A trait to indicate that an endpoint is pageable.
pub trait Pageable {
    /// The name of the key in the response that holds the list of results.
    spec fn wrapper_key_spec(&self) -> Seq<char>;

    /// returns the name of the key in the response that contains the list of results
    fn response_wrapper_key(&self) -> (r: String)
        ensures
            r@ == self.wrapper_key_spec(),
    ;
}

/// A request, ready to be sent.
#[derive(Debug)]
pub struct Request {
    /// the HTTP method
    pub method: HttpMethod,
    /// the full URL, query included
    pub url: String,
    /// the headers, in the order they are set
    pub headers: Vec<(String, String)>,
    /// the body
    pub body: Option<RequestBody>,
}

/// The mathematical value of a [`Request`].
pub struct RequestView {
    pub method: HttpMethod,
    pub url: Seq<char>,
    pub headers: Seq<(Seq<char>, Seq<char>)>,
    pub body: Option<RequestBodyView>,
}

impl View for Request {
    type V = RequestView;

    open spec fn view(&self) -> RequestView {
        RequestView {
            method: self.method,
            url: self.url@,
            headers: pairs_view(self.headers@),
            body: match self.body {
                Some(b) => Some(b@),
                None => None,
            },
        }
    }
}

/// The headers of a request: the API key, the user to impersonate if any,
/// and the content type of the body if there is one.
pub open spec fn headers_spec(
    api_key: Seq<char>,
    impersonate: Option<u64>,
    body: Option<RequestBodyView>,
) -> Seq<(Seq<char>, Seq<char>)> {
    let h = seq![("x-redmine-api-key"@, api_key)];
    let h = match impersonate {
        Some(id) => h.push(("X-Redmine-Switch-User"@, decimal(id as nat))),
        None => h,
    };
    match body {
        Some(RequestBodyView::Bytes { mime, data }) => h.push(("Content-Type"@, mime)),
        Some(RequestBodyView::File { mime, path }) => h.push(("Content-Type"@, mime)),
        None => h,
    }
}

/// The request made of a method, a path, query parameters and a body: the body
/// first (its error comes first), then the URL (the path resolved against the
/// base URL, the parameters appended), then the headers.
pub open spec fn request_outcome(
    base: Seq<char>,
    api_key: Seq<char>,
    impersonate: Option<u64>,
    method: HttpMethod,
    path: Seq<char>,
    params: Seq<(Seq<char>, Seq<char>)>,
    body: Option<BodySpec>,
) -> Result<RequestView, ErrorView> {
    match body_outcome(body) {
        Err(e) => Err(e),
        Ok(b) => match url_joined(base, path) {
            Err(m) => Err(ErrorView::UrlParseError(m)),
            Ok(joined) => match url_with_query(joined, params) {
                Err(m) => Err(ErrorView::UrlParseError(m)),
                Ok(url) => Ok(
                    RequestView { method, url, headers: headers_spec(api_key, impersonate, b), body: b },
                ),
            },
        },
    }
}

/// The mathematical value of a result holding a request.
pub open spec fn request_result_view(r: Result<Request, Error>) -> Result<RequestView, ErrorView> {
    match r {
        Ok(q) => Ok(q@),
        Err(e) => Err(e@),
    }
}

/// What a client needs to address a Redmine instance: its base URL, the API
/// key and the user to impersonate, if any.  (No `Debug`: the API key is
/// not to be printed.)
#[derive(Clone)]
pub struct ClientSettings {
    /// the redmine base url
    redmine_url: String,
    /// a redmine API key, usually 40 hex digits where the letters (a-f) are lower case
    api_key: String,
    /// the user id we want to impersonate, only works if the API key we use has admin privileges
    impersonate_user_id: Option<u64>,
}

impl ClientSettings {
    /// The base URL.
    pub closed spec fn url_spec(&self) -> Seq<char> {
        self.redmine_url@
    }

    /// The API key.
    pub closed spec fn api_key_spec(&self) -> Seq<char> {
        self.api_key@
    }

    /// The user to impersonate.
    pub closed spec fn impersonate_spec(&self) -> Option<u64> {
        self.impersonate_user_id
    }

    /// Settings for the Redmine instance at `redmine_url`, using `api_key`.
    pub fn new(redmine_url: &str, api_key: &str) -> (r: ClientSettings)
        ensures
            r.url_spec() == redmine_url@,
            r.api_key_spec() == api_key@,
            r.impersonate_spec() is None,
    {
        ClientSettings {
            redmine_url: String::from_str(redmine_url),
            api_key: String::from_str(api_key),
            impersonate_user_id: None,
        }
    }

    /// Sets the user id of a user to impersonate in all future API calls
    ///
    /// this requires Redmine admin privileges
    pub fn impersonate_user(&mut self, id: u64)
        ensures
            final(self).impersonate_spec() == Some(id),
            final(self).url_spec() == old(self).url_spec(),
            final(self).api_key_spec() == old(self).api_key_spec(),
    {
        self.impersonate_user_id = Some(id);
    }

    /// The base URL.
    pub fn redmine_url(&self) -> (r: &str)
        ensures
            r@ == self.url_spec(),
    {
        self.redmine_url.as_str()
    }

    /// returns the issue URL for a given issue id
    pub fn issue_url(&self, issue_id: u64) -> (r: Result<String, Error>)
        ensures
            match url_joined(self.url_spec(), "/issues/"@ + decimal(issue_id as nat)) {
                Ok(u) => r matches Ok(s) && s@ == u,
                Err(m) => r matches Err(e) && e@ == ErrorView::UrlParseError(m),
            },
    {
        let mut path = String::from_str("/issues/");
        push_decimal(&mut path, issue_id);
        match url_join(self.redmine_url.as_str(), path.as_str()) {
            Ok(u) => Ok(u),
            Err(m) => Err(Error::UrlParseError(m)),
        }
    }

    /// The headers of a request with the given body.
    fn headers(&self, body: &Option<RequestBody>) -> (r: Vec<(String, String)>)
        ensures
            pairs_view(r@) == headers_spec(
                self.api_key@,
                self.impersonate_user_id,
                match body {
                    Some(b) => Some(b@),
                    None => None,
                },
            ),
    {
        let mut h: Vec<(String, String)> = Vec::new();
        h.push((String::from_str("x-redmine-api-key"), self.api_key.clone()));
        let ghost h0 = pairs_view(h@);
        assert(h0 =~= seq![("x-redmine-api-key"@, self.api_key@)]);
        if let Some(user_id) = self.impersonate_user_id {
            let mut id = String::new();
            push_decimal(&mut id, user_id);
            assert(id@ =~= decimal(user_id as nat));
            h.push((String::from_str("X-Redmine-Switch-User"), id));
            assert(pairs_view(h@) =~= h0.push(("X-Redmine-Switch-User"@, decimal(user_id as nat))));
        }
        let ghost h1 = pairs_view(h@);
        match body {
            Some(RequestBody::Bytes { mime, data }) => {
                h.push((String::from_str("Content-Type"), mime.clone()));
                assert(pairs_view(h@) =~= h1.push(("Content-Type"@, mime@)));
            },
            Some(RequestBody::File { mime, path }) => {
                h.push((String::from_str("Content-Type"), mime.clone()));
                assert(pairs_view(h@) =~= h1.push(("Content-Type"@, mime@)));
            },
            None => {},
        }
        h
    }

    /// The request for a method, a path, parameters and a body.
    fn build_request(
        &self,
        method: HttpMethod,
        path: &str,
        params: &QueryParams,
        body: Result<Option<RequestBody>, Error>,
        Ghost(body_spec): Ghost<Option<BodySpec>>,
    ) -> (r: Result<Request, Error>)
        requires
            body_result_view(body) == body_outcome(body_spec),
        ensures
            request_result_view(r) == request_outcome(
                self.url_spec(),
                self.api_key_spec(),
                self.impersonate_spec(),
                method,
                path@,
                params@,
                body_spec,
            ),
    {
        let body = match body {
            Ok(b) => b,
            Err(e) => {
                return Err(e);
            },
        };
        let joined = match url_join(self.redmine_url.as_str(), path) {
            Ok(u) => u,
            Err(m) => {
                return Err(Error::UrlParseError(m));
            },
        };
        let url = match params.add_to_url(joined.as_str()) {
            Ok(u) => u,
            Err(m) => {
                return Err(Error::UrlParseError(m));
            },
        };
        let headers = self.headers(&body);
        Ok(Request { method, url, headers, body })
    }

    /// The request for an endpoint.
    pub fn request<E: Endpoint>(&self, endpoint: &E) -> (r: Result<Request, Error>)
        requires
            endpoint.writable(),
        ensures
            request_result_view(r) == request_outcome(
                self.url_spec(),
                self.api_key_spec(),
                self.impersonate_spec(),
                endpoint.method_spec(),
                endpoint.endpoint_spec(),
                endpoint.parameters_spec(),
                endpoint.body_spec(),
            ),
    {
        let method = endpoint.method();
        let path = endpoint.endpoint();
        let params = endpoint.parameters();
        let body = endpoint.body();
        self.build_request(method, path.as_str(), &params, body, Ghost(endpoint.body_spec()))
    }

    /// The request for one page of a pageable endpoint: its parameters
    /// followed by `offset` and `limit`.
    pub fn page_request<E: Endpoint + Pageable>(
        &self,
        endpoint: &E,
        offset: u64,
        limit: u64,
    ) -> (r: Result<Request, Error>)
        requires
            endpoint.writable(),
        ensures
            request_result_view(r) == request_outcome(
                self.url_spec(),
                self.api_key_spec(),
                self.impersonate_spec(),
                endpoint.method_spec(),
                endpoint.endpoint_spec(),
                endpoint.parameters_spec().push(("offset"@, decimal(offset as nat))).push(
                    ("limit"@, decimal(limit as nat)),
                ),
                endpoint.body_spec(),
            ),
    {
        let method = endpoint.method();
        let path = endpoint.endpoint();
        let mut params = endpoint.parameters();
        params.push("offset", &offset);
        params.push("limit", &limit);
        let body = endpoint.body();
        self.build_request(method, path.as_str(), &params, body, Ghost(endpoint.body_spec()))
    }
}

} // verus!
