//! Issue Relations Rest API Endpoint definitions
//!
//! [Redmine Documentation](https://www.redmine.org/projects/redmine/wiki/Rest_IssueRelations)
use vstd::prelude::*;
use vstd::string::StringExecFns;
use crate::Error;
use crate::api::endpoint::{
    BodySpec, BuilderError, Endpoint, HttpMethod, NoPagination, Pageable, RequestBody,
    ReturnsJsonResponse, json_body,
};
use crate::api::json::{
    JsonValue, JsonView, ObjectBuilder, ToJson, member_nullable, member_opt, single_member_object,
};
use crate::api::query::{ParamValue, QueryParams, opt_param_ok, push_opt_spec};
use crate::api::text::{decimal, push_decimal};

use crate::api::query::present;
use crate::api::bodies::wrapped_members;
use crate::api::text::{lemma_id_path_injective};
verus! {

/// The endpoint for all issue relations of an issue
#[derive(Debug, Clone)]
pub struct ListIssueRelations {
    /// the id of the issue to retrieve the relations for
    pub issue_id: u64,
}

/// Builder for [`ListIssueRelations`].
#[derive(Debug, Clone)]
pub struct ListIssueRelationsBuilder {
    /// the id of the issue to retrieve the relations for
    pub issue_id: Option<u64>,
}

impl ListIssueRelations {
    /// Create a builder for the endpoint.
    pub fn builder() -> (r: ListIssueRelationsBuilder)
        ensures
            r.issue_id is None,
    {
        ListIssueRelationsBuilder { issue_id: None }
    }
}

impl ListIssueRelationsBuilder {
    /// Sets `issue_id`: the id of the issue to retrieve the relations for
    pub fn issue_id(self, value: u64) -> (r: ListIssueRelationsBuilder)
        ensures
            r.issue_id == Some(value),
    {
        ListIssueRelationsBuilder { issue_id: Some(value) }
    }

    /// The first required field that has not been set, if any.
    pub open spec fn missing_field(&self) -> Option<Seq<char>> {
        if self.issue_id is None {
            Some("issue_id"@)
        } else {
            None
        }
    }

    /// Builds the endpoint; fails on the first required field that has not been set.
    pub fn build(self) -> (r: Result<ListIssueRelations, BuilderError>)
        ensures
            match r {
                Ok(x) => self.missing_field() is None && x == (ListIssueRelations { issue_id: self.issue_id->0 }),
                Err(BuilderError::UninitializedField(n)) => self.missing_field() == Some(n@),
                Err(_) => false,
            },
    {
        let issue_id = match self.issue_id {
            Some(v) => v,
            None => {
                return Err(BuilderError::UninitializedField("issue_id"));
            },
        };
        Ok(ListIssueRelations { issue_id })
    }
}

impl ReturnsJsonResponse for ListIssueRelations {}

impl NoPagination for ListIssueRelations {}

impl Endpoint for ListIssueRelations {
    open spec fn method_spec(&self) -> HttpMethod {
        HttpMethod::Get
    }

    open spec fn endpoint_spec(&self) -> Seq<char> {
        "issues/"@ + decimal(self.issue_id as nat) + "/relations.json"@
    }

    open spec fn parameters_spec(&self) -> Seq<(Seq<char>, Seq<char>)> {
        Seq::empty()
    }

    open spec fn body_spec(&self) -> Option<BodySpec> {
        None
    }

    fn method(&self) -> (r: HttpMethod) {
        HttpMethod::Get
    }

    fn endpoint(&self) -> (r: String) {
        let mut s = String::new();
        s.append("issues/");
        push_decimal(&mut s, self.issue_id);
        s.append("/relations.json");
        assert(s@ =~= self.endpoint_spec());
        s
    }

    fn check_writable(&self) -> (r: bool) {
        true
    }

    fn parameters(&self) -> (r: QueryParams) {
        let mut p = QueryParams::new();
        p
    }

    fn body(&self) -> (r: Result<Option<RequestBody>, Error>) {
        Ok(None)
    }
}

/// The endpoint for a specific issue relation
#[derive(Debug, Clone)]
pub struct GetIssueRelation {
    /// the id of the issue relation to retrieve
    pub id: u64,
}

/// Builder for [`GetIssueRelation`].
#[derive(Debug, Clone)]
pub struct GetIssueRelationBuilder {
    /// the id of the issue relation to retrieve
    pub id: Option<u64>,
}

impl GetIssueRelation {
    /// Create a builder for the endpoint.
    pub fn builder() -> (r: GetIssueRelationBuilder)
        ensures
            r.id is None,
    {
        GetIssueRelationBuilder { id: None }
    }
}

impl GetIssueRelationBuilder {
    /// Sets `id`: the id of the issue relation to retrieve
    pub fn id(self, value: u64) -> (r: GetIssueRelationBuilder)
        ensures
            r.id == Some(value),
    {
        GetIssueRelationBuilder { id: Some(value) }
    }

    /// The first required field that has not been set, if any.
    pub open spec fn missing_field(&self) -> Option<Seq<char>> {
        if self.id is None {
            Some("id"@)
        } else {
            None
        }
    }

    /// Builds the endpoint; fails on the first required field that has not been set.
    pub fn build(self) -> (r: Result<GetIssueRelation, BuilderError>)
        ensures
            match r {
                Ok(x) => self.missing_field() is None && x == (GetIssueRelation { id: self.id->0 }),
                Err(BuilderError::UninitializedField(n)) => self.missing_field() == Some(n@),
                Err(_) => false,
            },
    {
        let id = match self.id {
            Some(v) => v,
            None => {
                return Err(BuilderError::UninitializedField("id"));
            },
        };
        Ok(GetIssueRelation { id })
    }
}

impl ReturnsJsonResponse for GetIssueRelation {}

impl NoPagination for GetIssueRelation {}

impl Endpoint for GetIssueRelation {
    open spec fn method_spec(&self) -> HttpMethod {
        HttpMethod::Get
    }

    open spec fn endpoint_spec(&self) -> Seq<char> {
        "relations/"@ + decimal(self.id as nat) + ".json"@
    }

    open spec fn parameters_spec(&self) -> Seq<(Seq<char>, Seq<char>)> {
        Seq::empty()
    }

    open spec fn body_spec(&self) -> Option<BodySpec> {
        None
    }

    fn method(&self) -> (r: HttpMethod) {
        HttpMethod::Get
    }

    fn endpoint(&self) -> (r: String) {
        let mut s = String::new();
        s.append("relations/");
        push_decimal(&mut s, self.id);
        s.append(".json");
        assert(s@ =~= self.endpoint_spec());
        s
    }

    fn check_writable(&self) -> (r: bool) {
        true
    }

    fn parameters(&self) -> (r: QueryParams) {
        let mut p = QueryParams::new();
        p
    }

    fn body(&self) -> (r: Result<Option<RequestBody>, Error>) {
        Ok(None)
    }
}

/// Type of issue relation
#[derive(Debug, Clone, Copy, PartialEq, Eq, Structural)]
pub enum IssueRelationType {
    /// The most general type of issue relation
    Relates,
    /// Indicates that this issue duplicates another issue
    Duplicates,
    /// Indicates that this issue is duplicated by another issue
    Duplicated,
    /// Indicates that this issue blocks another issue
    Blocks,
    /// Indicates that this issue is blocked by another issue
    Blocked,
    /// Indicates that this issue precedes another issue
    Precedes,
    /// Indicates that this issue follows another issue
    Follows,
    /// Indicates that this issue was copied to another issue
    CopiedTo,
    /// Indicates that this issue was copied from another issue
    CopiedFrom,
}

impl IssueRelationType {
    /// The text of the value.
    pub open spec fn text(&self) -> Seq<char> {
        match self {
            IssueRelationType::Relates => "relates"@,
            IssueRelationType::Duplicates => "duplicates"@,
            IssueRelationType::Duplicated => "duplicated"@,
            IssueRelationType::Blocks => "blocks"@,
            IssueRelationType::Blocked => "blocked"@,
            IssueRelationType::Precedes => "precedes"@,
            IssueRelationType::Follows => "follows"@,
            IssueRelationType::CopiedTo => "copied_to"@,
            IssueRelationType::CopiedFrom => "copied_from"@,
        }
    }

    /// The text of the value.
    pub fn to_string(&self) -> (r: String)
        ensures
            r@ == self.text(),
    {
        match self {
            IssueRelationType::Relates => String::from_str("relates"),
            IssueRelationType::Duplicates => String::from_str("duplicates"),
            IssueRelationType::Duplicated => String::from_str("duplicated"),
            IssueRelationType::Blocks => String::from_str("blocks"),
            IssueRelationType::Blocked => String::from_str("blocked"),
            IssueRelationType::Precedes => String::from_str("precedes"),
            IssueRelationType::Follows => String::from_str("follows"),
            IssueRelationType::CopiedTo => String::from_str("copied_to"),
            IssueRelationType::CopiedFrom => String::from_str("copied_from"),
        }
    }
}

impl ToJson for IssueRelationType {
    open spec fn json(&self) -> JsonView {
        JsonView::Str(self.text())
    }

    fn to_json(&self) -> (r: JsonValue) {
        JsonValue::Str(self.to_string())
    }
}

/// The endpoint to create an issue relation
#[derive(Debug, Clone)]
pub struct CreateIssueRelation {
    /// id of the issue where the relation is created
    pub issue_id: u64,
    /// id of the issue the relation is created to
    pub issue_to_id: u64,
    /// the type of the relation
    pub relation_type: IssueRelationType,
    /// Delay in days for precedes and follows relation types
    pub delay: Option<u64>,
}

/// Builder for [`CreateIssueRelation`].
#[derive(Debug, Clone)]
pub struct CreateIssueRelationBuilder {
    /// id of the issue where the relation is created
    pub issue_id: Option<u64>,
    /// id of the issue the relation is created to
    pub issue_to_id: Option<u64>,
    /// the type of the relation
    pub relation_type: Option<IssueRelationType>,
    /// Delay in days for precedes and follows relation types
    pub delay: Option<u64>,
}

impl CreateIssueRelation {
    /// Create a builder for the endpoint.
    pub fn builder() -> (r: CreateIssueRelationBuilder)
        ensures
            r.issue_id is None,
            r.issue_to_id is None,
            r.relation_type is None,
            r.delay is None,
    {
        CreateIssueRelationBuilder { issue_id: None, issue_to_id: None, relation_type: None, delay: None }
    }
}

impl CreateIssueRelationBuilder {
    /// Sets `issue_id`: id of the issue where the relation is created
    pub fn issue_id(self, value: u64) -> (r: CreateIssueRelationBuilder)
        ensures
            r.issue_id == Some(value),
            r.issue_to_id == self.issue_to_id,
            r.relation_type == self.relation_type,
            r.delay == self.delay,
    {
        CreateIssueRelationBuilder { issue_id: Some(value), issue_to_id: self.issue_to_id, relation_type: self.relation_type, delay: self.delay }
    }

    /// Sets `issue_to_id`: id of the issue the relation is created to
    pub fn issue_to_id(self, value: u64) -> (r: CreateIssueRelationBuilder)
        ensures
            r.issue_to_id == Some(value),
            r.issue_id == self.issue_id,
            r.relation_type == self.relation_type,
            r.delay == self.delay,
    {
        CreateIssueRelationBuilder { issue_id: self.issue_id, issue_to_id: Some(value), relation_type: self.relation_type, delay: self.delay }
    }

    /// Sets `relation_type`: the type of the relation
    pub fn relation_type(self, value: IssueRelationType) -> (r: CreateIssueRelationBuilder)
        ensures
            r.relation_type == Some(value),
            r.issue_id == self.issue_id,
            r.issue_to_id == self.issue_to_id,
            r.delay == self.delay,
    {
        CreateIssueRelationBuilder { issue_id: self.issue_id, issue_to_id: self.issue_to_id, relation_type: Some(value), delay: self.delay }
    }

    /// Sets `delay`: delay in days for precedes and follows relation types
    pub fn delay(self, value: u64) -> (r: CreateIssueRelationBuilder)
        ensures
            r.delay == Some(value),
            r.issue_id == self.issue_id,
            r.issue_to_id == self.issue_to_id,
            r.relation_type == self.relation_type,
    {
        CreateIssueRelationBuilder { issue_id: self.issue_id, issue_to_id: self.issue_to_id, relation_type: self.relation_type, delay: Some(value) }
    }

    /// The first required field that has not been set, if any.
    pub open spec fn missing_field(&self) -> Option<Seq<char>> {
        if self.issue_id is None {
            Some("issue_id"@)
        } else if self.issue_to_id is None {
            Some("issue_to_id"@)
        } else if self.relation_type is None {
            Some("relation_type"@)
        } else {
            None
        }
    }

    /// Builds the endpoint; fails on the first required field that has not been set.
    pub fn build(self) -> (r: Result<CreateIssueRelation, BuilderError>)
        ensures
            match r {
                Ok(x) => self.missing_field() is None && x == (CreateIssueRelation { issue_id: self.issue_id->0, issue_to_id: self.issue_to_id->0, relation_type: self.relation_type->0, delay: self.delay }),
                Err(BuilderError::UninitializedField(n)) => self.missing_field() == Some(n@),
                Err(_) => false,
            },
    {
        let issue_id = match self.issue_id {
            Some(v) => v,
            None => {
                return Err(BuilderError::UninitializedField("issue_id"));
            },
        };
        let issue_to_id = match self.issue_to_id {
            Some(v) => v,
            None => {
                return Err(BuilderError::UninitializedField("issue_to_id"));
            },
        };
        let relation_type = match self.relation_type {
            Some(v) => v,
            None => {
                return Err(BuilderError::UninitializedField("relation_type"));
            },
        };
        Ok(CreateIssueRelation { issue_id, issue_to_id, relation_type, delay: self.delay })
    }
}

impl ReturnsJsonResponse for CreateIssueRelation {}

impl NoPagination for CreateIssueRelation {}

impl Endpoint for CreateIssueRelation {
    open spec fn method_spec(&self) -> HttpMethod {
        HttpMethod::Post
    }

    open spec fn endpoint_spec(&self) -> Seq<char> {
        "issues/"@ + decimal(self.issue_id as nat) + "/relations.json"@
    }

    open spec fn parameters_spec(&self) -> Seq<(Seq<char>, Seq<char>)> {
        Seq::empty()
    }

    open spec fn body_spec(&self) -> Option<BodySpec> {
        let inner = {
            let m = Seq::<(Seq<char>, JsonView)>::empty();
            let m = m.push(("issue_to_id"@, self.issue_to_id.json()));
            let m = m.push(("relation_type"@, self.relation_type.json()));
            let m = member_opt(m, "delay"@, self.delay);
            m
        };
        Some(BodySpec::Json(JsonView::Object(seq![("relation"@, JsonView::Object(inner))])))
    }

    fn method(&self) -> (r: HttpMethod) {
        HttpMethod::Post
    }

    fn endpoint(&self) -> (r: String) {
        let mut s = String::new();
        s.append("issues/");
        push_decimal(&mut s, self.issue_id);
        s.append("/relations.json");
        assert(s@ =~= self.endpoint_spec());
        s
    }

    fn check_writable(&self) -> (r: bool) {
        true
    }

    fn parameters(&self) -> (r: QueryParams) {
        let mut p = QueryParams::new();
        p
    }

    fn body(&self) -> (r: Result<Option<RequestBody>, Error>) {
        let mut b = ObjectBuilder::new();
        b.insert_value("issue_to_id", &self.issue_to_id);
        b.insert_value("relation_type", &self.relation_type);
        b.insert_opt("delay", &self.delay);
        let doc = single_member_object("relation", b.build());
        json_body(&doc)
    }
}

/// The endpoint to delete an issue relation
#[derive(Debug, Clone)]
pub struct DeleteIssueRelation {
    /// the id of the issue relation to delete
    pub id: u64,
}

/// Builder for [`DeleteIssueRelation`].
#[derive(Debug, Clone)]
pub struct DeleteIssueRelationBuilder {
    /// the id of the issue relation to delete
    pub id: Option<u64>,
}

impl DeleteIssueRelation {
    /// Create a builder for the endpoint.
    pub fn builder() -> (r: DeleteIssueRelationBuilder)
        ensures
            r.id is None,
    {
        DeleteIssueRelationBuilder { id: None }
    }
}

impl DeleteIssueRelationBuilder {
    /// Sets `id`: the id of the issue relation to delete
    pub fn id(self, value: u64) -> (r: DeleteIssueRelationBuilder)
        ensures
            r.id == Some(value),
    {
        DeleteIssueRelationBuilder { id: Some(value) }
    }

    /// The first required field that has not been set, if any.
    pub open spec fn missing_field(&self) -> Option<Seq<char>> {
        if self.id is None {
            Some("id"@)
        } else {
            None
        }
    }

    /// Builds the endpoint; fails on the first required field that has not been set.
    pub fn build(self) -> (r: Result<DeleteIssueRelation, BuilderError>)
        ensures
            match r {
                Ok(x) => self.missing_field() is None && x == (DeleteIssueRelation { id: self.id->0 }),
                Err(BuilderError::UninitializedField(n)) => self.missing_field() == Some(n@),
                Err(_) => false,
            },
    {
        let id = match self.id {
            Some(v) => v,
            None => {
                return Err(BuilderError::UninitializedField("id"));
            },
        };
        Ok(DeleteIssueRelation { id })
    }
}

impl Endpoint for DeleteIssueRelation {
    open spec fn method_spec(&self) -> HttpMethod {
        HttpMethod::Delete
    }

    open spec fn endpoint_spec(&self) -> Seq<char> {
        "relations/"@ + decimal(self.id as nat) + ".json"@
    }

    open spec fn parameters_spec(&self) -> Seq<(Seq<char>, Seq<char>)> {
        Seq::empty()
    }

    open spec fn body_spec(&self) -> Option<BodySpec> {
        None
    }

    fn method(&self) -> (r: HttpMethod) {
        HttpMethod::Delete
    }

    fn endpoint(&self) -> (r: String) {
        let mut s = String::new();
        s.append("relations/");
        push_decimal(&mut s, self.id);
        s.append(".json");
        assert(s@ =~= self.endpoint_spec());
        s
    }

    fn check_writable(&self) -> (r: bool) {
        true
    }

    fn parameters(&self) -> (r: QueryParams) {
        let mut p = QueryParams::new();
        p
    }

    fn body(&self) -> (r: Result<Option<RequestBody>, Error>) {
        Ok(None)
    }
}

/// The body of [`CreateIssueRelation`] holds, under `relation`, each attribute that is set
/// under its Redmine name, with the attribute's document as the value, and
/// nothing else.
pub proof fn lemma_create_issue_relation_body_members(x: CreateIssueRelation)
    ensures
        wrapped_members(x.body_spec()).contains(("issue_to_id"@, x.issue_to_id.json())),
        wrapped_members(x.body_spec()).contains(("relation_type"@, x.relation_type.json())),
        x.delay matches Some(v) ==> wrapped_members(x.body_spec()).contains(("delay"@, v.json())),
        wrapped_members(x.body_spec()).len() == 2 + present(x.delay),
{
    broadcast use crate::api::json::lemma_member_opt_contains, crate::api::json::lemma_member_opt_len,
        crate::api::json::lemma_member_nullable_contains, crate::api::json::lemma_member_nullable_len,
        crate::api::json::lemma_push_member_contains;
}

/// The path of [`ListIssueRelations`] names the object by the decimal of its id, and two
/// requests share a path only when they name the same id.
pub proof fn lemma_list_issue_relations_path(x: ListIssueRelations, y: ListIssueRelations)
    ensures
        x.endpoint_spec() == "issues/"@ + decimal(x.issue_id as nat) + "/relations.json"@,
        x.endpoint_spec() == y.endpoint_spec() <==> x.issue_id == y.issue_id,
{
    lemma_id_path_injective("issues/"@, "/relations.json"@, x.issue_id as nat, y.issue_id as nat);
}

/// The path of [`GetIssueRelation`] names the object by the decimal of its id, and two
/// requests share a path only when they name the same id.
pub proof fn lemma_get_issue_relation_path(x: GetIssueRelation, y: GetIssueRelation)
    ensures
        x.endpoint_spec() == "relations/"@ + decimal(x.id as nat) + ".json"@,
        x.endpoint_spec() == y.endpoint_spec() <==> x.id == y.id,
{
    lemma_id_path_injective("relations/"@, ".json"@, x.id as nat, y.id as nat);
}

/// The path of [`CreateIssueRelation`] names the object by the decimal of its id, and two
/// requests share a path only when they name the same id.
pub proof fn lemma_create_issue_relation_path(x: CreateIssueRelation, y: CreateIssueRelation)
    ensures
        x.endpoint_spec() == "issues/"@ + decimal(x.issue_id as nat) + "/relations.json"@,
        x.endpoint_spec() == y.endpoint_spec() <==> x.issue_id == y.issue_id,
{
    lemma_id_path_injective("issues/"@, "/relations.json"@, x.issue_id as nat, y.issue_id as nat);
}

/// The path of [`DeleteIssueRelation`] names the object by the decimal of its id, and two
/// requests share a path only when they name the same id.
pub proof fn lemma_delete_issue_relation_path(x: DeleteIssueRelation, y: DeleteIssueRelation)
    ensures
        x.endpoint_spec() == "relations/"@ + decimal(x.id as nat) + ".json"@,
        x.endpoint_spec() == y.endpoint_spec() <==> x.id == y.id,
{
    lemma_id_path_injective("relations/"@, ".json"@, x.id as nat, y.id as nat);
}

/// Different values of [`IssueRelationType`] are sent as different texts.
pub proof fn lemma_issue_relation_type_text_injective(x: IssueRelationType, y: IssueRelationType)
    ensures
        x.text() == y.text() ==> x == y,
{
    reveal_strlit("blocked");
    reveal_strlit("blocks");
    reveal_strlit("copied_from");
    reveal_strlit("copied_to");
    reveal_strlit("duplicated");
    reveal_strlit("duplicates");
    reveal_strlit("follows");
    reveal_strlit("precedes");
    reveal_strlit("relates");
    assert("relates"@.len() != "duplicates"@.len());
    assert("relates"@.len() != "duplicated"@.len());
    assert("relates"@.len() != "blocks"@.len());
    assert("relates"@[0] != "blocked"@[0]);
    assert("relates"@.len() != "precedes"@.len());
    assert("relates"@[0] != "follows"@[0]);
    assert("relates"@.len() != "copied_to"@.len());
    assert("relates"@.len() != "copied_from"@.len());
    assert("duplicates"@[9] != "duplicated"@[9]);
    assert("duplicates"@.len() != "blocks"@.len());
    assert("duplicates"@.len() != "blocked"@.len());
    assert("duplicates"@.len() != "precedes"@.len());
    assert("duplicates"@.len() != "follows"@.len());
    assert("duplicates"@.len() != "copied_to"@.len());
    assert("duplicates"@.len() != "copied_from"@.len());
    assert("duplicated"@.len() != "blocks"@.len());
    assert("duplicated"@.len() != "blocked"@.len());
    assert("duplicated"@.len() != "precedes"@.len());
    assert("duplicated"@.len() != "follows"@.len());
    assert("duplicated"@.len() != "copied_to"@.len());
    assert("duplicated"@.len() != "copied_from"@.len());
    assert("blocks"@.len() != "blocked"@.len());
    assert("blocks"@.len() != "precedes"@.len());
    assert("blocks"@.len() != "follows"@.len());
    assert("blocks"@.len() != "copied_to"@.len());
    assert("blocks"@.len() != "copied_from"@.len());
    assert("blocked"@.len() != "precedes"@.len());
    assert("blocked"@[0] != "follows"@[0]);
    assert("blocked"@.len() != "copied_to"@.len());
    assert("blocked"@.len() != "copied_from"@.len());
    assert("precedes"@.len() != "follows"@.len());
    assert("precedes"@.len() != "copied_to"@.len());
    assert("precedes"@.len() != "copied_from"@.len());
    assert("follows"@.len() != "copied_to"@.len());
    assert("follows"@.len() != "copied_from"@.len());
    assert("copied_to"@.len() != "copied_from"@.len());
}

/// The requests of this module use the HTTP method that fits what they do:
/// `GET` to read, `POST` to create or add, `PUT` to change and `DELETE` to
/// remove.
pub proof fn lemma_issue_relations_methods(list_issue_relations: ListIssueRelations, get_issue_relation: GetIssueRelation, create_issue_relation: CreateIssueRelation, delete_issue_relation: DeleteIssueRelation)
    ensures
        list_issue_relations.method_spec() == HttpMethod::Get,
        get_issue_relation.method_spec() == HttpMethod::Get,
        create_issue_relation.method_spec() == HttpMethod::Post,
        delete_issue_relation.method_spec() == HttpMethod::Delete,
{
}

/// The requests of this module that address the same collection, or the
/// same object, use the same path: listing and creating share the
/// collection's path, and reading, changing and removing an object share
/// the object's path.
pub proof fn lemma_issue_relations_shared_paths(list_issue_relations: ListIssueRelations, create_issue_relation: CreateIssueRelation, get_issue_relation: GetIssueRelation, delete_issue_relation: DeleteIssueRelation)
    ensures
        list_issue_relations.issue_id == create_issue_relation.issue_id ==> list_issue_relations.endpoint_spec() == create_issue_relation.endpoint_spec(),
        get_issue_relation.id == delete_issue_relation.id ==> get_issue_relation.endpoint_spec() == delete_issue_relation.endpoint_spec(),
{
}

} // verus!
