//! Queries Rest API Endpoint definitions
//!
//! [Redmine Documentation](https://www.redmine.org/projects/redmine/wiki/Rest_Queries)
use vstd::prelude::*;
use vstd::string::StringExecFns;
use crate::Error;
use crate::api::endpoint::{
    BodySpec, BuilderError, Endpoint, HttpMethod, NoPagination, Pageable, RequestBody,
    ReturnsJsonResponse, json_body,
};
use crate::api::json::{
    JsonValue, JsonView, ObjectBuilder, ToJson, member_nullable, member_opt, single_member_object,
};
use crate::api::query::{ParamValue, QueryParams, opt_param_ok, push_opt_spec};
use crate::api::text::{decimal, push_decimal};

verus! {

/// The endpoint to retrieve all queries visible to the current user
#[derive(Debug, Clone)]
pub struct ListQueries {
}

/// Builder for [`ListQueries`].
#[derive(Debug, Clone)]
pub struct ListQueriesBuilder {
}

impl ListQueries {
    /// Create a builder for the endpoint.
    pub fn builder() -> (r: ListQueriesBuilder)
        ensures
    {
        ListQueriesBuilder {}
    }
}

impl ListQueriesBuilder {
    /// The first required field that has not been set, if any.
    pub open spec fn missing_field(&self) -> Option<Seq<char>> {
        None
    }

    /// Builds the endpoint; fails on the first required field that has not been set.
    pub fn build(self) -> (r: Result<ListQueries, BuilderError>)
        ensures
            match r {
                Ok(x) => self.missing_field() is None && x == (ListQueries {  }),
                Err(BuilderError::UninitializedField(n)) => self.missing_field() == Some(n@),
                Err(_) => false,
            },
    {
        Ok(ListQueries {})
    }
}

impl ReturnsJsonResponse for ListQueries {}

impl Pageable for ListQueries {
    open spec fn wrapper_key_spec(&self) -> Seq<char> {
        "queries"@
    }

    fn response_wrapper_key(&self) -> (r: String) {
        String::from_str("queries")
    }
}

impl Endpoint for ListQueries {
    open spec fn method_spec(&self) -> HttpMethod {
        HttpMethod::Get
    }

    open spec fn endpoint_spec(&self) -> Seq<char> {
        "queries.json"@
    }

    open spec fn parameters_spec(&self) -> Seq<(Seq<char>, Seq<char>)> {
        Seq::empty()
    }

    open spec fn body_spec(&self) -> Option<BodySpec> {
        None
    }

    fn method(&self) -> (r: HttpMethod) {
        HttpMethod::Get
    }

    fn endpoint(&self) -> (r: String) {
        String::from_str("queries.json")
    }

    fn check_writable(&self) -> (r: bool) {
        true
    }

    fn parameters(&self) -> (r: QueryParams) {
        let mut p = QueryParams::new();
        p
    }

    fn body(&self) -> (r: Result<Option<RequestBody>, Error>) {
        Ok(None)
    }
}

/// The requests of this module use the HTTP method that fits what they do:
/// `GET` to read, `POST` to create or add, `PUT` to change and `DELETE` to
/// remove.
pub proof fn lemma_queries_methods(list_queries: ListQueries)
    ensures
        list_queries.method_spec() == HttpMethod::Get,
{
}

/// The page of [`ListQueries`] holds its values under the name of the
/// collection that ends the request's path.
pub proof fn lemma_list_queries_wrapper_key(x: ListQueries)
    ensures
        x.endpoint_spec().len() >= x.wrapper_key_spec().len() + 5,
        x.endpoint_spec().subrange(x.endpoint_spec().len() - x.wrapper_key_spec().len() - 5, x.endpoint_spec().len() as int) == x.wrapper_key_spec() + ".json"@,
{
    reveal_strlit(".json");
    reveal_strlit("queries");
    reveal_strlit("queries.json");
    assert(x.endpoint_spec().subrange(x.endpoint_spec().len() - x.wrapper_key_spec().len() - 5, x.endpoint_spec().len() as int) =~= x.wrapper_key_spec() + ".json"@);
}

} // verus!
