//! Attachments Rest API Endpoint definitions
//!
//! [Redmine Documentation](https://www.redmine.org/projects/redmine/wiki/Rest_Attachments)
use vstd::prelude::*;
use vstd::string::StringExecFns;
use crate::Error;
use crate::api::endpoint::{
    BodySpec, BuilderError, Endpoint, HttpMethod, NoPagination, Pageable, RequestBody,
    ReturnsJsonResponse, json_body,
};
use crate::api::json::{
    JsonValue, JsonView, ObjectBuilder, ToJson, member_nullable, member_opt, single_member_object,
};
use crate::api::query::{ParamValue, QueryParams, opt_param_ok, push_opt_spec};
use crate::api::text::{decimal, push_decimal};

use crate::api::bodies::object_members;
use crate::api::text::{lemma_id_path_injective};
use crate::api::query::present;
verus! {

/// The endpoint for a specific Redmine attachment
#[derive(Debug, Clone)]
pub struct GetAttachment {
    /// id of the attachment to retrieve
    pub id: u64,
}

/// Builder for [`GetAttachment`].
#[derive(Debug, Clone)]
pub struct GetAttachmentBuilder {
    /// id of the attachment to retrieve
    pub id: Option<u64>,
}

impl GetAttachment {
    /// Create a builder for the endpoint.
    pub fn builder() -> (r: GetAttachmentBuilder)
        ensures
            r.id is None,
    {
        GetAttachmentBuilder { id: None }
    }
}

impl GetAttachmentBuilder {
    /// Sets `id`: id of the attachment to retrieve
    pub fn id(self, value: u64) -> (r: GetAttachmentBuilder)
        ensures
            r.id == Some(value),
    {
        GetAttachmentBuilder { id: Some(value) }
    }

    /// The first required field that has not been set, if any.
    pub open spec fn missing_field(&self) -> Option<Seq<char>> {
        if self.id is None {
            Some("id"@)
        } else {
            None
        }
    }

    /// Builds the endpoint; fails on the first required field that has not been set.
    pub fn build(self) -> (r: Result<GetAttachment, BuilderError>)
        ensures
            match r {
                Ok(x) => self.missing_field() is None && x == (GetAttachment { id: self.id->0 }),
                Err(BuilderError::UninitializedField(n)) => self.missing_field() == Some(n@),
                Err(_) => false,
            },
    {
        let id = match self.id {
            Some(v) => v,
            None => {
                return Err(BuilderError::UninitializedField("id"));
            },
        };
        Ok(GetAttachment { id })
    }
}

impl ReturnsJsonResponse for GetAttachment {}

impl NoPagination for GetAttachment {}

impl Endpoint for GetAttachment {
    open spec fn method_spec(&self) -> HttpMethod {
        HttpMethod::Get
    }

    open spec fn endpoint_spec(&self) -> Seq<char> {
        "attachments/"@ + decimal(self.id as nat) + ".json"@
    }

    open spec fn parameters_spec(&self) -> Seq<(Seq<char>, Seq<char>)> {
        Seq::empty()
    }

    open spec fn body_spec(&self) -> Option<BodySpec> {
        None
    }

    fn method(&self) -> (r: HttpMethod) {
        HttpMethod::Get
    }

    fn endpoint(&self) -> (r: String) {
        let mut s = String::new();
        s.append("attachments/");
        push_decimal(&mut s, self.id);
        s.append(".json");
        assert(s@ =~= self.endpoint_spec());
        s
    }

    fn check_writable(&self) -> (r: bool) {
        true
    }

    fn parameters(&self) -> (r: QueryParams) {
        let mut p = QueryParams::new();
        p
    }

    fn body(&self) -> (r: Result<Option<RequestBody>, Error>) {
        Ok(None)
    }
}

/// The changes to an attachment
#[derive(Debug, Clone)]
pub struct AttachmentUpdate {
    /// the new filename
    pub filename: Option<String>,
    /// the new description
    pub description: Option<String>,
}

impl Default for AttachmentUpdate {
    fn default() -> (r: AttachmentUpdate)
        ensures
            r.filename is None,
            r.description is None,
    {
        AttachmentUpdate { filename: None, description: None }
    }
}

impl ToJson for AttachmentUpdate {
    open spec fn json(&self) -> JsonView {
        let m = Seq::<(Seq<char>, JsonView)>::empty();
        let m = member_opt(m, "filename"@, self.filename);
        let m = member_opt(m, "description"@, self.description);
        JsonView::Object(m)
    }

    fn to_json(&self) -> (r: JsonValue) {
        let mut b = ObjectBuilder::new();
        b.insert_opt("filename", &self.filename);
        b.insert_opt("description", &self.description);
        b.build()
    }
}

/// The endpoint to update an attachment
#[derive(Debug, Clone)]
pub struct UpdateAttachment {
    /// id of the attachment to update
    pub id: u64,
    /// the changes
    pub attachment: AttachmentUpdate,
}

/// Builder for [`UpdateAttachment`].
#[derive(Debug, Clone)]
pub struct UpdateAttachmentBuilder {
    /// id of the attachment to update
    pub id: Option<u64>,
    /// the changes
    pub attachment: Option<AttachmentUpdate>,
}

impl UpdateAttachment {
    /// Create a builder for the endpoint.
    pub fn builder() -> (r: UpdateAttachmentBuilder)
        ensures
            r.id is None,
            r.attachment is None,
    {
        UpdateAttachmentBuilder { id: None, attachment: None }
    }
}

impl UpdateAttachmentBuilder {
    /// Sets `id`: id of the attachment to update
    pub fn id(self, value: u64) -> (r: UpdateAttachmentBuilder)
        ensures
            r.id == Some(value),
            r.attachment == self.attachment,
    {
        UpdateAttachmentBuilder { id: Some(value), attachment: self.attachment }
    }

    /// Sets `attachment`: the changes
    pub fn attachment(self, value: AttachmentUpdate) -> (r: UpdateAttachmentBuilder)
        ensures
            r.attachment == Some(value),
            r.id == self.id,
    {
        UpdateAttachmentBuilder { id: self.id, attachment: Some(value) }
    }

    /// The first required field that has not been set, if any.
    pub open spec fn missing_field(&self) -> Option<Seq<char>> {
        if self.id is None {
            Some("id"@)
        } else if self.attachment is None {
            Some("attachment"@)
        } else {
            None
        }
    }

    /// Builds the endpoint; fails on the first required field that has not been set.
    pub fn build(self) -> (r: Result<UpdateAttachment, BuilderError>)
        ensures
            match r {
                Ok(x) => self.missing_field() is None && x == (UpdateAttachment { id: self.id->0, attachment: self.attachment->0 }),
                Err(BuilderError::UninitializedField(n)) => self.missing_field() == Some(n@),
                Err(_) => false,
            },
    {
        let id = match self.id {
            Some(v) => v,
            None => {
                return Err(BuilderError::UninitializedField("id"));
            },
        };
        let attachment = match self.attachment {
            Some(v) => v,
            None => {
                return Err(BuilderError::UninitializedField("attachment"));
            },
        };
        Ok(UpdateAttachment { id, attachment })
    }
}

impl ReturnsJsonResponse for UpdateAttachment {}

impl NoPagination for UpdateAttachment {}

impl Endpoint for UpdateAttachment {
    open spec fn method_spec(&self) -> HttpMethod {
        HttpMethod::Put
    }

    open spec fn endpoint_spec(&self) -> Seq<char> {
        "attachments/"@ + decimal(self.id as nat) + ".json"@
    }

    open spec fn parameters_spec(&self) -> Seq<(Seq<char>, Seq<char>)> {
        Seq::empty()
    }

    open spec fn body_spec(&self) -> Option<BodySpec> {
        let inner = {
            let m = Seq::<(Seq<char>, JsonView)>::empty();
            let m = m.push(("attachment"@, self.attachment.json()));
            m
        };
        Some(BodySpec::Json(JsonView::Object(inner)))
    }

    fn method(&self) -> (r: HttpMethod) {
        HttpMethod::Put
    }

    fn endpoint(&self) -> (r: String) {
        let mut s = String::new();
        s.append("attachments/");
        push_decimal(&mut s, self.id);
        s.append(".json");
        assert(s@ =~= self.endpoint_spec());
        s
    }

    fn check_writable(&self) -> (r: bool) {
        true
    }

    fn parameters(&self) -> (r: QueryParams) {
        let mut p = QueryParams::new();
        p
    }

    fn body(&self) -> (r: Result<Option<RequestBody>, Error>) {
        let mut b = ObjectBuilder::new();
        b.insert_value("attachment", &self.attachment);
        let doc = b.build();
        json_body(&doc)
    }
}

/// The endpoint to delete a Redmine attachment
#[derive(Debug, Clone)]
pub struct DeleteAttachment {
    /// id of the attachment to delete
    pub id: u64,
}

/// Builder for [`DeleteAttachment`].
#[derive(Debug, Clone)]
pub struct DeleteAttachmentBuilder {
    /// id of the attachment to delete
    pub id: Option<u64>,
}

impl DeleteAttachment {
    /// Create a builder for the endpoint.
    pub fn builder() -> (r: DeleteAttachmentBuilder)
        ensures
            r.id is None,
    {
        DeleteAttachmentBuilder { id: None }
    }
}

impl DeleteAttachmentBuilder {
    /// Sets `id`: id of the attachment to delete
    pub fn id(self, value: u64) -> (r: DeleteAttachmentBuilder)
        ensures
            r.id == Some(value),
    {
        DeleteAttachmentBuilder { id: Some(value) }
    }

    /// The first required field that has not been set, if any.
    pub open spec fn missing_field(&self) -> Option<Seq<char>> {
        if self.id is None {
            Some("id"@)
        } else {
            None
        }
    }

    /// Builds the endpoint; fails on the first required field that has not been set.
    pub fn build(self) -> (r: Result<DeleteAttachment, BuilderError>)
        ensures
            match r {
                Ok(x) => self.missing_field() is None && x == (DeleteAttachment { id: self.id->0 }),
                Err(BuilderError::UninitializedField(n)) => self.missing_field() == Some(n@),
                Err(_) => false,
            },
    {
        let id = match self.id {
            Some(v) => v,
            None => {
                return Err(BuilderError::UninitializedField("id"));
            },
        };
        Ok(DeleteAttachment { id })
    }
}

impl Endpoint for DeleteAttachment {
    open spec fn method_spec(&self) -> HttpMethod {
        HttpMethod::Delete
    }

    open spec fn endpoint_spec(&self) -> Seq<char> {
        "attachments/"@ + decimal(self.id as nat) + ".json"@
    }

    open spec fn parameters_spec(&self) -> Seq<(Seq<char>, Seq<char>)> {
        Seq::empty()
    }

    open spec fn body_spec(&self) -> Option<BodySpec> {
        None
    }

    fn method(&self) -> (r: HttpMethod) {
        HttpMethod::Delete
    }

    fn endpoint(&self) -> (r: String) {
        let mut s = String::new();
        s.append("attachments/");
        push_decimal(&mut s, self.id);
        s.append(".json");
        assert(s@ =~= self.endpoint_spec());
        s
    }

    fn check_writable(&self) -> (r: bool) {
        true
    }

    fn parameters(&self) -> (r: QueryParams) {
        let mut p = QueryParams::new();
        p
    }

    fn body(&self) -> (r: Result<Option<RequestBody>, Error>) {
        Ok(None)
    }
}

/// The body of [`UpdateAttachment`] holds, in the body, each attribute that is set
/// under its Redmine name, with the attribute's document as the value, and
/// nothing else.
pub proof fn lemma_update_attachment_body_members(x: UpdateAttachment)
    ensures
        object_members(x.body_spec()).contains(("attachment"@, x.attachment.json())),
        object_members(x.body_spec()).len() == 1,
{
    broadcast use crate::api::json::lemma_member_opt_contains, crate::api::json::lemma_member_opt_len,
        crate::api::json::lemma_member_nullable_contains, crate::api::json::lemma_member_nullable_len,
        crate::api::json::lemma_push_member_contains;
}

/// The path of [`GetAttachment`] names the object by the decimal of its id, and two
/// requests share a path only when they name the same id.
pub proof fn lemma_get_attachment_path(x: GetAttachment, y: GetAttachment)
    ensures
        x.endpoint_spec() == "attachments/"@ + decimal(x.id as nat) + ".json"@,
        x.endpoint_spec() == y.endpoint_spec() <==> x.id == y.id,
{
    lemma_id_path_injective("attachments/"@, ".json"@, x.id as nat, y.id as nat);
}

/// The path of [`UpdateAttachment`] names the object by the decimal of its id, and two
/// requests share a path only when they name the same id.
pub proof fn lemma_update_attachment_path(x: UpdateAttachment, y: UpdateAttachment)
    ensures
        x.endpoint_spec() == "attachments/"@ + decimal(x.id as nat) + ".json"@,
        x.endpoint_spec() == y.endpoint_spec() <==> x.id == y.id,
{
    lemma_id_path_injective("attachments/"@, ".json"@, x.id as nat, y.id as nat);
}

/// The path of [`DeleteAttachment`] names the object by the decimal of its id, and two
/// requests share a path only when they name the same id.
pub proof fn lemma_delete_attachment_path(x: DeleteAttachment, y: DeleteAttachment)
    ensures
        x.endpoint_spec() == "attachments/"@ + decimal(x.id as nat) + ".json"@,
        x.endpoint_spec() == y.endpoint_spec() <==> x.id == y.id,
{
    lemma_id_path_injective("attachments/"@, ".json"@, x.id as nat, y.id as nat);
}

/// The requests of this module use the HTTP method that fits what they do:
/// `GET` to read, `POST` to create or add, `PUT` to change and `DELETE` to
/// remove.
pub proof fn lemma_attachments_methods(get_attachment: GetAttachment, update_attachment: UpdateAttachment, delete_attachment: DeleteAttachment)
    ensures
        get_attachment.method_spec() == HttpMethod::Get,
        update_attachment.method_spec() == HttpMethod::Put,
        delete_attachment.method_spec() == HttpMethod::Delete,
{
}

/// The requests of this module that address the same collection, or the
/// same object, use the same path: listing and creating share the
/// collection's path, and reading, changing and removing an object share
/// the object's path.
pub proof fn lemma_attachments_shared_paths(get_attachment: GetAttachment, update_attachment: UpdateAttachment, delete_attachment: DeleteAttachment)
    ensures
        get_attachment.id == update_attachment.id ==> get_attachment.endpoint_spec() == update_attachment.endpoint_spec(),
        get_attachment.id == delete_attachment.id ==> get_attachment.endpoint_spec() == delete_attachment.endpoint_spec(),
{
}

/// The document of an attachment update holds each attribute that is set
/// under its Redmine name, and nothing else.
pub proof fn lemma_attachment_update_members(x: AttachmentUpdate)
    ensures
        x.json() is Object,
        x.filename matches Some(v) ==> x.json()->Object_0.contains(("filename"@, v.json())),
        x.description matches Some(v) ==> x.json()->Object_0.contains(("description"@, v.json())),
        x.json()->Object_0.len() == present(x.filename) + present(x.description),
{
    broadcast use crate::api::json::lemma_member_opt_contains, crate::api::json::lemma_member_opt_len,
        crate::api::json::lemma_member_nullable_contains, crate::api::json::lemma_member_nullable_len,
        crate::api::json::lemma_push_member_contains;
}

} // verus!
