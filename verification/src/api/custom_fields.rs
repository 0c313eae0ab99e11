//! Custom Fields Rest API Endpoint definitions
//!
//! [Redmine Documentation](https://www.redmine.org/projects/redmine/wiki/Rest_CustomFields)
use vstd::prelude::*;
use vstd::string::StringExecFns;
use crate::Error;
use crate::api::endpoint::{
    BodySpec, BuilderError, Endpoint, HttpMethod, NoPagination, Pageable, RequestBody,
    ReturnsJsonResponse, json_body,
};
use crate::api::json::{
    JsonValue, JsonView, ObjectBuilder, ToJson, json_view, member_nullable, member_opt, members_view,
    single_member_object,
};
use crate::api::query::{ParamValue, QueryParams, opt_param_ok, push_opt_spec};
use crate::api::text::{decimal, push_decimal};

use crate::api::query::present;
verus! {

/// The endpoint for all custom fields
#[derive(Debug, Clone)]
pub struct ListCustomFields {
}

/// Builder for [`ListCustomFields`].
#[derive(Debug, Clone)]
pub struct ListCustomFieldsBuilder {
}

impl ListCustomFields {
    /// Create a builder for the endpoint.
    pub fn builder() -> (r: ListCustomFieldsBuilder)
        ensures
    {
        ListCustomFieldsBuilder {}
    }
}

impl ListCustomFieldsBuilder {
    /// The first required field that has not been set, if any.
    pub open spec fn missing_field(&self) -> Option<Seq<char>> {
        None
    }

    /// Builds the endpoint; fails on the first required field that has not been set.
    pub fn build(self) -> (r: Result<ListCustomFields, BuilderError>)
        ensures
            match r {
                Ok(x) => self.missing_field() is None && x == (ListCustomFields {  }),
                Err(BuilderError::UninitializedField(n)) => self.missing_field() == Some(n@),
                Err(_) => false,
            },
    {
        Ok(ListCustomFields {})
    }
}

impl ReturnsJsonResponse for ListCustomFields {}

impl NoPagination for ListCustomFields {}

impl Endpoint for ListCustomFields {
    open spec fn method_spec(&self) -> HttpMethod {
        HttpMethod::Get
    }

    open spec fn endpoint_spec(&self) -> Seq<char> {
        "custom_fields.json"@
    }

    open spec fn parameters_spec(&self) -> Seq<(Seq<char>, Seq<char>)> {
        Seq::empty()
    }

    open spec fn body_spec(&self) -> Option<BodySpec> {
        None
    }

    fn method(&self) -> (r: HttpMethod) {
        HttpMethod::Get
    }

    fn endpoint(&self) -> (r: String) {
        String::from_str("custom_fields.json")
    }

    fn check_writable(&self) -> (r: bool) {
        true
    }

    fn parameters(&self) -> (r: QueryParams) {
        let mut p = QueryParams::new();
        p
    }

    fn body(&self) -> (r: Result<Option<RequestBody>, Error>) {
        Ok(None)
    }
}

/// The style of the edit tag for a custom field.
#[derive(Debug, Clone, Copy, PartialEq, Eq, Structural)]
pub enum EditTagStyle {
    /// Dropdown list style.
    DropDown,
    /// Checkbox style.
    CheckBox,
    /// Radio button style.
    Radio,
}

impl EditTagStyle {
    /// The text of the style in Redmine's documents.
    pub open spec fn text(&self) -> Seq<char> {
        match self {
            EditTagStyle::DropDown => ""@,
            EditTagStyle::CheckBox => "check_box"@,
            EditTagStyle::Radio => "radio"@,
        }
    }

    /// The text of the style in Redmine's documents.
    pub fn to_text(&self) -> (r: &'static str)
        ensures
            r@ == self.text(),
    {
        match self {
            EditTagStyle::DropDown => "",
            EditTagStyle::CheckBox => "check_box",
            EditTagStyle::Radio => "radio",
        }
    }

    /// The style of a text; `None` for a text that names no style.
    pub fn from_text(s: &str) -> (r: Option<EditTagStyle>)
        ensures
            match r {
                Some(t) => t.text() == s@,
                None => forall|t: EditTagStyle| #[trigger] t.text() != s@,
            },
    {
        let owned = String::from_str(s);
        let drop_down = String::from_str("");
        let check_box = String::from_str("check_box");
        let radio = String::from_str("radio");
        if owned == drop_down {
            Some(EditTagStyle::DropDown)
        } else if owned == check_box {
            Some(EditTagStyle::CheckBox)
        } else if owned == radio {
            Some(EditTagStyle::Radio)
        } else {
            proof {
                assert forall|t: EditTagStyle| #[trigger] t.text() != s@ by {
                    match t {
                        EditTagStyle::DropDown => {},
                        EditTagStyle::CheckBox => {},
                        EditTagStyle::Radio => {},
                    }
                }
            }
            None
        }
    }
}

/// a type for custom field essentials with values used in other Redmine
/// objects (e.g. issues)
#[derive(Debug, Clone)]
pub struct CustomFieldEssentialsWithValue {
    /// numeric id
    pub id: u64,
    /// display name
    pub name: String,
    /// if this is true the value is serialized as an array
    pub multiple: Option<bool>,
    /// value
    pub value: Option<Vec<String>>,
}

/// The mathematical value of a [`CustomFieldEssentialsWithValue`].
pub struct CustomFieldView {
    /// numeric id
    pub id: u64,
    /// display name
    pub name: Seq<char>,
    /// whether the value is an array
    pub multiple: Option<bool>,
    /// the values
    pub value: Option<Seq<Seq<char>>>,
}

/// The texts of a list of strings.
pub open spec fn texts(v: Seq<String>) -> Seq<Seq<char>> {
    v.map_values(|s: String| s@)
}

impl View for CustomFieldEssentialsWithValue {
    type V = CustomFieldView;

    open spec fn view(&self) -> CustomFieldView {
        CustomFieldView {
            id: self.id,
            name: self.name@,
            multiple: self.multiple,
            value: match self.value {
                Some(v) => Some(texts(v@)),
                None => None,
            },
        }
    }
}

/// Why a custom field value could not be written or read.
#[derive(Debug, Clone)]
pub enum CustomFieldError {
    /// the document is not an object
    NotAnObject,
    /// the object has a member of another name than `id`, `name`, `multiple` and `value`
    UnknownField(String),
    /// a member occurs twice
    DuplicateField(String),
    /// a member holds a value of the wrong type
    InvalidType(String),
    /// a required member is missing
    MissingField(String),
    /// `multiple` and `value` do not fit together
    InvalidCombination,
    /// `multiple` is not set but there is more than one value
    TooManyValues,
}

/// The mathematical value of a [`CustomFieldError`].
pub enum CustomFieldErrorView {
    NotAnObject,
    UnknownField(Seq<char>),
    DuplicateField(Seq<char>),
    InvalidType(Seq<char>),
    MissingField(Seq<char>),
    InvalidCombination,
    TooManyValues,
}

impl View for CustomFieldError {
    type V = CustomFieldErrorView;

    open spec fn view(&self) -> CustomFieldErrorView {
        match self {
            CustomFieldError::NotAnObject => CustomFieldErrorView::NotAnObject,
            CustomFieldError::UnknownField(s) => CustomFieldErrorView::UnknownField(s@),
            CustomFieldError::DuplicateField(s) => CustomFieldErrorView::DuplicateField(s@),
            CustomFieldError::InvalidType(s) => CustomFieldErrorView::InvalidType(s@),
            CustomFieldError::MissingField(s) => CustomFieldErrorView::MissingField(s@),
            CustomFieldError::InvalidCombination => CustomFieldErrorView::InvalidCombination,
            CustomFieldError::TooManyValues => CustomFieldErrorView::TooManyValues,
        }
    }
}

/// The array of the given strings.
pub open spec fn strings_json(v: Seq<Seq<char>>) -> JsonView {
    JsonView::Array(v.map_values(|s: Seq<char>| JsonView::Str(s)))
}

/// The document of a custom field value: `id` and `name`, then `multiple`
/// (when set) and `value`.  With `multiple` set, `value` is the array of
/// the values (or `null`); without it, `value` is the single value, or
/// `null` for none; more than one value is refused.
pub open spec fn custom_field_json(c: CustomFieldView) -> Result<JsonView, CustomFieldErrorView> {
    let head = seq![("id"@, JsonView::UInt(c.id)), ("name"@, JsonView::Str(c.name))];
    match c.multiple {
        Some(m) => Ok(
            JsonView::Object(
                head.push(("multiple"@, JsonView::Bool(m))).push(
                    (
                        "value"@,
                        match c.value {
                            Some(v) => strings_json(v),
                            None => JsonView::Null,
                        },
                    ),
                ),
            ),
        ),
        None => match c.value {
            Some(v) => if v.len() == 0 {
                Ok(JsonView::Object(head.push(("value"@, JsonView::Null))))
            } else if v.len() == 1 {
                Ok(JsonView::Object(head.push(("value"@, JsonView::Str(v[0])))))
            } else {
                Err(CustomFieldErrorView::TooManyValues)
            },
            None => Ok(JsonView::Object(head.push(("value"@, JsonView::Null)))),
        },
    }
}

/// What has been read of the members of a custom field value so far.
pub struct FieldsRead {
    pub id: Option<u64>,
    pub name: Option<Seq<char>>,
    pub multiple: Option<bool>,
    pub string_value: Option<Seq<char>>,
    pub vec_value: Option<Seq<Seq<char>>>,
}

/// Nothing read yet.
pub open spec fn nothing_read() -> FieldsRead {
    FieldsRead { id: None, name: None, multiple: None, string_value: None, vec_value: None }
}

/// The strings of an array of strings; `None` for any other document.
pub open spec fn string_list_view(v: JsonView) -> Option<Seq<Seq<char>>> {
    match v {
        JsonView::Array(a) => if forall|i: int| 0 <= i < a.len() ==> (#[trigger] a[i]) is Str {
            Some(a.map_values(|e: JsonView| e->Str_0))
        } else {
            None
        },
        _ => None,
    }
}

/// Reads one member: `id` must hold a number, `name` a string, `multiple` a
/// boolean, each at most once; `value` (at most once) must hold an array of
/// strings when `multiple` was read as true before it, else a string or
/// `null` (a `null` value is not remembered); any other name is refused.
pub open spec fn read_member(st: FieldsRead, key: Seq<char>, val: JsonView) -> Result<
    FieldsRead,
    CustomFieldErrorView,
> {
    if key == "id"@ {
        if st.id is Some {
            Err(CustomFieldErrorView::DuplicateField("id"@))
        } else {
            match val {
                JsonView::UInt(n) => Ok(
                    FieldsRead {
                        id: Some(n),
                        name: st.name,
                        multiple: st.multiple,
                        string_value: st.string_value,
                        vec_value: st.vec_value,
                    },
                ),
                _ => Err(CustomFieldErrorView::InvalidType("id"@)),
            }
        }
    } else if key == "name"@ {
        if st.name is Some {
            Err(CustomFieldErrorView::DuplicateField("name"@))
        } else {
            match val {
                JsonView::Str(s) => Ok(
                    FieldsRead {
                        id: st.id,
                        name: Some(s),
                        multiple: st.multiple,
                        string_value: st.string_value,
                        vec_value: st.vec_value,
                    },
                ),
                _ => Err(CustomFieldErrorView::InvalidType("name"@)),
            }
        }
    } else if key == "multiple"@ {
        if st.multiple is Some {
            Err(CustomFieldErrorView::DuplicateField("multiple"@))
        } else {
            match val {
                JsonView::Bool(b) => Ok(
                    FieldsRead {
                        id: st.id,
                        name: st.name,
                        multiple: Some(b),
                        string_value: st.string_value,
                        vec_value: st.vec_value,
                    },
                ),
                _ => Err(CustomFieldErrorView::InvalidType("multiple"@)),
            }
        }
    } else if key == "value"@ {
        if st.string_value is Some || st.vec_value is Some {
            Err(CustomFieldErrorView::DuplicateField("value"@))
        } else if st.multiple == Some(true) {
            match string_list_view(val) {
                Some(l) => Ok(
                    FieldsRead {
                        id: st.id,
                        name: st.name,
                        multiple: st.multiple,
                        string_value: st.string_value,
                        vec_value: Some(l),
                    },
                ),
                None => Err(CustomFieldErrorView::InvalidType("value"@)),
            }
        } else {
            match val {
                JsonView::Null => Ok(st),
                JsonView::Str(s) => Ok(
                    FieldsRead {
                        id: st.id,
                        name: st.name,
                        multiple: st.multiple,
                        string_value: Some(s),
                        vec_value: st.vec_value,
                    },
                ),
                _ => Err(CustomFieldErrorView::InvalidType("value"@)),
            }
        }
    } else {
        Err(CustomFieldErrorView::UnknownField(key))
    }
}

/// Reads the members in order, stopping at the first error.
pub open spec fn read_members(st: FieldsRead, ms: Seq<(Seq<char>, JsonView)>) -> Result<
    FieldsRead,
    CustomFieldErrorView,
>
    decreases ms.len(),
{
    if ms.len() == 0 {
        Ok(st)
    } else {
        match read_member(st, ms[0].0, ms[0].1) {
            Ok(next) => read_members(next, ms.drop_first()),
            Err(e) => Err(e),
        }
    }
}

/// The custom field value of what was read: `id` and `name` are required;
/// without `multiple` the value is absent or the single string; with
/// `multiple` true the array is required; every other combination is refused.
pub open spec fn fields_result(st: FieldsRead) -> Result<CustomFieldView, CustomFieldErrorView> {
    if st.id is None {
        Err(CustomFieldErrorView::MissingField("id"@))
    } else if st.name is None {
        Err(CustomFieldErrorView::MissingField("name"@))
    } else {
        let id = st.id->0;
        let name = st.name->0;
        match (st.multiple, st.string_value, st.vec_value) {
            (None, None, None) => Ok(CustomFieldView { id, name, multiple: None, value: None }),
            (None, Some(s), None) => Ok(
                CustomFieldView { id, name, multiple: None, value: Some(seq![s]) },
            ),
            (Some(true), None, Some(v)) => Ok(
                CustomFieldView { id, name, multiple: Some(true), value: Some(v) },
            ),
            _ => Err(CustomFieldErrorView::InvalidCombination),
        }
    }
}

/// The custom field value a document holds.
pub open spec fn custom_field_read(doc: JsonView) -> Result<CustomFieldView, CustomFieldErrorView> {
    match doc {
        JsonView::Object(ms) => match read_members(nothing_read(), ms) {
            Ok(st) => fields_result(st),
            Err(e) => Err(e),
        },
        _ => Err(CustomFieldErrorView::NotAnObject),
    }
}

/// The result of [`CustomFieldEssentialsWithValue::from_json`], taken by views.
pub open spec fn custom_field_result_view(
    r: Result<CustomFieldEssentialsWithValue, CustomFieldError>,
) -> Result<CustomFieldView, CustomFieldErrorView> {
    match r {
        Ok(c) => Ok(c@),
        Err(e) => Err(e@),
    }
}

/// The result of [`CustomFieldEssentialsWithValue::to_json`], taken by views.
pub open spec fn json_result_view(r: Result<JsonValue, CustomFieldError>) -> Result<
    JsonView,
    CustomFieldErrorView,
> {
    match r {
        Ok(v) => Ok(v@),
        Err(e) => Err(e@),
    }
}

struct ReadState {
    id: Option<u64>,
    name: Option<String>,
    multiple: Option<bool>,
    string_value: Option<String>,
    vec_value: Option<Vec<String>>,
}

impl View for ReadState {
    type V = FieldsRead;

    closed spec fn view(&self) -> FieldsRead {
        FieldsRead {
            id: self.id,
            name: match self.name {
                Some(s) => Some(s@),
                None => None,
            },
            multiple: self.multiple,
            string_value: match self.string_value {
                Some(s) => Some(s@),
                None => None,
            },
            vec_value: match self.vec_value {
                Some(v) => Some(texts(v@)),
                None => None,
            },
        }
    }
}

fn string_list(v: &JsonValue) -> (r: Option<Vec<String>>)
    ensures
        match r {
            Some(l) => string_list_view(v@) == Some(texts(l@)),
            None => string_list_view(v@) is None,
        },
{
    match v {
        JsonValue::Array(a) => {
            let ghost av = v@->Array_0;
            assert(v@ == JsonView::Array(av));
            assert(av.len() == a@.len());
            let mut out: Vec<String> = Vec::new();
            let mut i: usize = 0;
            while i < a.len()
                invariant
                    i <= a.len(),
                    v@ == JsonView::Array(av),
                    av.len() == a@.len(),
                    forall|j: int| 0 <= j < a@.len() ==> #[trigger] av[j] == json_view(a@[j]),
                    out@.len() == i,
                    forall|j: int| 0 <= j < i ==> (#[trigger] av[j]) is Str && av[j]->Str_0
                        == out@[j]@,
                decreases a.len() - i,
            {
                match &a[i] {
                    JsonValue::Str(s) => {
                        out.push(s.clone());
                    },
                    _ => {
                        assert(!(av[i as int] is Str));
                        assert(!(forall|j: int| 0 <= j < av.len() ==> (#[trigger] av[j]) is Str));
                        assert(string_list_view(v@) is None);
                        return None;
                    },
                }
                i = i + 1;
            }
            assert(texts(out@) =~= av.map_values(|e: JsonView| e->Str_0));
            Some(out)
        },
        _ => None,
    }
}

fn read_member_exec(st: ReadState, key: &String, val: &JsonValue) -> (r: Result<
    ReadState,
    CustomFieldError,
>)
    ensures
        match r {
            Ok(next) => read_member(st@, key@, val@) == Ok::<FieldsRead, CustomFieldErrorView>(
                next@,
            ),
            Err(e) => read_member(st@, key@, val@) == Err::<FieldsRead, CustomFieldErrorView>(
                e@,
            ),
        },
{
    let id_key = String::from_str("id");
    let name_key = String::from_str("name");
    let multiple_key = String::from_str("multiple");
    let value_key = String::from_str("value");
    let ReadState { id, name, multiple, string_value, vec_value } = st;
    if *key == id_key {
        if id.is_some() {
            return Err(CustomFieldError::DuplicateField(id_key));
        }
        match val {
            JsonValue::UInt(n) => Ok(
                ReadState { id: Some(*n), name, multiple, string_value, vec_value },
            ),
            _ => Err(CustomFieldError::InvalidType(id_key)),
        }
    } else if *key == name_key {
        if name.is_some() {
            return Err(CustomFieldError::DuplicateField(name_key));
        }
        match val {
            JsonValue::Str(s) => Ok(
                ReadState { id, name: Some(s.clone()), multiple, string_value, vec_value },
            ),
            _ => Err(CustomFieldError::InvalidType(name_key)),
        }
    } else if *key == multiple_key {
        if multiple.is_some() {
            return Err(CustomFieldError::DuplicateField(multiple_key));
        }
        match val {
            JsonValue::Bool(b) => Ok(
                ReadState { id, name, multiple: Some(*b), string_value, vec_value },
            ),
            _ => Err(CustomFieldError::InvalidType(multiple_key)),
        }
    } else if *key == value_key {
        if string_value.is_some() || vec_value.is_some() {
            return Err(CustomFieldError::DuplicateField(value_key));
        }
        if multiple == Some(true) {
            match string_list(val) {
                Some(l) => Ok(ReadState { id, name, multiple, string_value, vec_value: Some(l) }),
                None => Err(CustomFieldError::InvalidType(value_key)),
            }
        } else {
            match val {
                JsonValue::Null => Ok(ReadState { id, name, multiple, string_value, vec_value }),
                JsonValue::Str(s) => Ok(
                    ReadState { id, name, multiple, string_value: Some(s.clone()), vec_value },
                ),
                _ => Err(CustomFieldError::InvalidType(value_key)),
            }
        }
    } else {
        Err(CustomFieldError::UnknownField(key.clone()))
    }
}

impl CustomFieldEssentialsWithValue {
    /// The document of the value (see [`custom_field_json`]).
    pub fn to_json(&self) -> (r: Result<JsonValue, CustomFieldError>)
        ensures
            json_result_view(r) == custom_field_json(self@),
    {
        let mut b = ObjectBuilder::new();
        b.insert("id", JsonValue::UInt(self.id));
        b.insert("name", JsonValue::Str(self.name.clone()));
        let ghost head = seq![("id"@, JsonView::UInt(self.id)), ("name"@, JsonView::Str(self.name@))];
        assert(b@ =~= head);
        match self.multiple {
            Some(m) => {
                b.insert("multiple", JsonValue::Bool(m));
                match &self.value {
                    Some(v) => {
                        let doc = v.to_json();
                        assert(v@.map_values(|x: String| x.json()) =~= texts(v@).map_values(
                            |s: Seq<char>| JsonView::Str(s),
                        ));
                        b.insert("value", doc);
                    },
                    None => {
                        b.insert("value", JsonValue::Null);
                    },
                }
            },
            None => {
                match &self.value {
                    Some(v) => {
                        if v.len() == 0 {
                            b.insert("value", JsonValue::Null);
                        } else if v.len() == 1 {
                            b.insert("value", JsonValue::Str(v[0].clone()));
                        } else {
                            return Err(CustomFieldError::TooManyValues);
                        }
                    },
                    None => {
                        b.insert("value", JsonValue::Null);
                    },
                }
            },
        }
        let r = b.build();
        assert(custom_field_json(self@) is Ok);
        assert(r@ =~~= custom_field_json(self@)->Ok_0);
        Ok(r)
    }

    /// The custom field value a document holds (see [`custom_field_read`]).
    pub fn from_json(doc: &JsonValue) -> (r: Result<CustomFieldEssentialsWithValue, CustomFieldError>)
        ensures
            custom_field_result_view(r) == custom_field_read(doc@),
    {
        let members = match doc {
            JsonValue::Object(m) => m,
            _ => {
                return Err(CustomFieldError::NotAnObject);
            },
        };
        let ghost ms = doc@->Object_0;
        assert(doc@ == JsonView::Object(ms));
        assert(ms =~= members_view(members@));
        let mut st = ReadState {
            id: None,
            name: None,
            multiple: None,
            string_value: None,
            vec_value: None,
        };
        let mut i: usize = 0;
        assert(ms.skip(0) =~= ms);
        while i < members.len()
            invariant
                i <= members.len(),
                doc@ == JsonView::Object(ms),
                ms == members_view(members@),
                read_members(nothing_read(), ms) == read_members(st@, ms.skip(i as int)),
            decreases members.len() - i,
        {
            let (key, val) = &members[i];
            let ghost rest = ms.skip(i as int);
            let ghost before = st@;
            assert(rest[0] == ms[i as int]);
            assert(rest[0] == (key@, val@));
            assert(rest.drop_first() =~= ms.skip(i + 1));
            st = match read_member_exec(st, key, val) {
                Ok(next) => next,
                Err(e) => {
                    assert(read_members(before, rest) == Err::<FieldsRead, CustomFieldErrorView>(
                        e@,
                    ));
                    return Err(e);
                },
            };
            i = i + 1;
        }
        assert(ms.skip(i as int).len() == 0);
        let ReadState { id, name, multiple, string_value, vec_value } = st;
        let id = match id {
            Some(n) => n,
            None => {
                return Err(CustomFieldError::MissingField(String::from_str("id")));
            },
        };
        let name = match name {
            Some(n) => n,
            None => {
                return Err(CustomFieldError::MissingField(String::from_str("name")));
            },
        };
        match (multiple, string_value, vec_value) {
            (None, None, None) => Ok(
                CustomFieldEssentialsWithValue { id, name, multiple: None, value: None },
            ),
            (None, Some(s), None) => {
                let value = vec![s];
                assert(texts(value@) =~= seq![value@[0]@]);
                Ok(CustomFieldEssentialsWithValue { id, name, multiple: None, value: Some(value) })
            },
            (Some(true), None, Some(v)) => Ok(
                CustomFieldEssentialsWithValue { id, name, multiple: Some(true), value: Some(v) },
            ),
            _ => Err(CustomFieldError::InvalidCombination),
        }
    }
}

/// Reading back the document written for a custom field value gives the
/// value again, for every value whose form the document shows: an array of
/// values with `multiple` true, or no `multiple` and at most one value
/// given as an absent value or a single one.
pub proof fn lemma_custom_field_round_trip(c: CustomFieldView)
    requires
        (c.multiple == Some(true) && c.value is Some) || (c.multiple is None && (c.value is None
            || c.value->0.len() == 1)),
    ensures
        custom_field_json(c) is Ok,
        custom_field_read(custom_field_json(c)->Ok_0) == Ok::<CustomFieldView, CustomFieldErrorView>(
            c,
        ),
{
    let doc = custom_field_json(c)->Ok_0;
    let ms = doc->Object_0;
    let st0 = nothing_read();
    let st1 = FieldsRead { id: Some(c.id), name: None, multiple: None, string_value: None, vec_value: None };
    let st2 = FieldsRead { id: Some(c.id), name: Some(c.name), multiple: None, string_value: None, vec_value: None };
    reveal_strlit("id");
    reveal_strlit("name");
    reveal_strlit("multiple");
    reveal_strlit("value");
    assert(read_member(st0, ms[0].0, ms[0].1) == Ok::<FieldsRead, CustomFieldErrorView>(st1));
    assert(ms[1].0 == "name"@);
    assert("name"@ != "id"@);
    assert("id"@.len() == 2);
    assert("name"@.len() == 4);
    assert("multiple"@.len() == 8);
    assert("value"@.len() == 5);
    assert(ms[1].1 == JsonView::Str(c.name));
    assert(read_member(st1, ms[1].0, ms[1].1) == Ok::<FieldsRead, CustomFieldErrorView>(st2));
    if c.multiple == Some(true) {
        let v = c.value->0;
        let st3 = FieldsRead { multiple: Some(true), ..st2 };
        let st4 = FieldsRead { vec_value: Some(v), ..st3 };
        let arr = v.map_values(|t: Seq<char>| JsonView::Str(t));
        assert(arr.map_values(|e: JsonView| e->Str_0) =~= v);
        assert(string_list_view(strings_json(v)) == Some(v));
        assert(ms[2] == ("multiple"@, JsonView::Bool(true)));
        assert(ms[3] == ("value"@, strings_json(v)));
        assert(read_member(st2, ms[2].0, ms[2].1) == Ok::<FieldsRead, CustomFieldErrorView>(st3));
        assert(read_member(st3, ms[3].0, ms[3].1) == Ok::<FieldsRead, CustomFieldErrorView>(st4));
        let m1 = ms.drop_first();
        let m2 = m1.drop_first();
        let m3 = m2.drop_first();
        let m4 = m3.drop_first();
        assert(m4.len() == 0);
        assert(m1[0] == ms[1] && m2[0] == ms[2] && m3[0] == ms[3]);
        assert(read_members(st4, m4) == Ok::<FieldsRead, CustomFieldErrorView>(st4));
        assert(read_members(st3, m3) == read_members(st4, m4));
        assert(read_members(st2, m2) == read_members(st3, m3));
        assert(read_members(st1, m1) == read_members(st2, m2));
        assert(read_members(st0, ms) == read_members(st1, m1));
    } else if c.value is None {
        assert(ms[2] == ("value"@, JsonView::Null));
        assert(read_member(st2, ms[2].0, ms[2].1) == Ok::<FieldsRead, CustomFieldErrorView>(st2));
        let m1 = ms.drop_first();
        let m2 = m1.drop_first();
        let m3 = m2.drop_first();
        assert(m3.len() == 0);
        assert(m1[0] == ms[1] && m2[0] == ms[2]);
        assert(read_members(st2, m3) == Ok::<FieldsRead, CustomFieldErrorView>(st2));
        assert(read_members(st2, m2) == read_members(st2, m3));
        assert(read_members(st1, m1) == read_members(st2, m2));
        assert(read_members(st0, ms) == read_members(st1, m1));
    } else {
        let v = c.value->0;
        let st3 = FieldsRead { string_value: Some(v[0]), ..st2 };
        assert(ms[2] == ("value"@, JsonView::Str(v[0])));
        assert(read_member(st2, ms[2].0, ms[2].1) == Ok::<FieldsRead, CustomFieldErrorView>(st3));
        let m1 = ms.drop_first();
        let m2 = m1.drop_first();
        let m3 = m2.drop_first();
        assert(m3.len() == 0);
        assert(m1[0] == ms[1] && m2[0] == ms[2]);
        assert(read_members(st3, m3) == Ok::<FieldsRead, CustomFieldErrorView>(st3));
        assert(read_members(st2, m2) == read_members(st3, m3));
        assert(read_members(st1, m1) == read_members(st2, m2));
        assert(read_members(st0, ms) == read_members(st1, m1));
        assert(seq![v[0]] =~= v);
    }
}

/// A custom field value read from a document has one of the two forms the
/// documents can show: `multiple` true with an array of values, or no
/// `multiple` and at most one value; `multiple` false is never accepted.
pub proof fn lemma_custom_field_read_forms(doc: JsonView)
    ensures
        custom_field_read(doc) matches Ok(c) ==> (c.multiple == Some(true) && c.value is Some) || (
        c.multiple is None && (c.value is None || c.value->0.len() == 1)),
{
}

/// Whether a document has one of the shapes in which Redmine reports a
/// custom field value: the members `id` (a number), `name` (a string) and
/// `value` (a string or `null`), in this order; or `id`, `name`, `multiple`
/// (true) and `value` (an array of strings), in this order.
pub open spec fn redmine_custom_field_document(doc: JsonView) -> bool {
    match doc {
        JsonView::Object(ms) => {
            &&& ms.len() == 3 || ms.len() == 4
            &&& ms[0].0 == "id"@
            &&& ms[0].1 is UInt
            &&& ms[1].0 == "name"@
            &&& ms[1].1 is Str
            &&& ms.len() == 3 ==> ms[2].0 == "value"@ && (ms[2].1 is Null || ms[2].1 is Str)
            &&& ms.len() == 4 ==> {
                &&& ms[2] == ("multiple"@, JsonView::Bool(true))
                &&& ms[3].0 == "value"@
                &&& string_list_view(ms[3].1) is Some
            }
        },
        _ => false,
    }
}

/// Reading a custom field value from a document in one of Redmine's shapes
/// and writing the value back gives the same document.
pub proof fn lemma_custom_field_document_round_trip(doc: JsonView)
    requires
        redmine_custom_field_document(doc),
    ensures
        custom_field_read(doc) is Ok,
        custom_field_json(custom_field_read(doc)->Ok_0) == Ok::<JsonView, CustomFieldErrorView>(
            doc,
        ),
{
    let ms = doc->Object_0;
    let id = ms[0].1->UInt_0;
    let name = ms[1].1->Str_0;
    let head = seq![("id"@, JsonView::UInt(id)), ("name"@, JsonView::Str(name))];
    let c = if ms.len() == 4 {
        CustomFieldView {
            id,
            name,
            multiple: Some(true),
            value: Some(string_list_view(ms[3].1)->0),
        }
    } else if ms[2].1 is Str {
        CustomFieldView { id, name, multiple: None, value: Some(seq![ms[2].1->Str_0]) }
    } else {
        CustomFieldView { id, name, multiple: None, value: None }
    };
    if ms.len() == 4 {
        let a = ms[3].1->Array_0;
        let l = string_list_view(ms[3].1)->0;
        assert(l.map_values(|t: Seq<char>| JsonView::Str(t)) =~= a);
        assert(strings_json(l) == ms[3].1);
        assert(head.push(("multiple"@, JsonView::Bool(true))).push(("value"@, strings_json(l)))
            =~= ms);
    } else {
        assert(head.push(ms[2]) =~= ms);
    }
    assert(custom_field_json(c) == Ok::<JsonView, CustomFieldErrorView>(doc));
    lemma_custom_field_round_trip(c);
}

/// a custom field
#[derive(Debug, Clone)]
pub struct CustomField {
    /// the custom field's id
    pub id: u64,
    /// is usually present in contexts where it is returned by Redmine but can be omitted when it is sent by the client
    pub name: Option<String>,
    /// the custom field's value
    pub value: String,
}

impl ToJson for CustomField {
    open spec fn json(&self) -> JsonView {
        let inner = {
            let m = Seq::<(Seq<char>, JsonView)>::empty();
            let m = m.push(("id"@, self.id.json()));
            let m = member_nullable(m, "name"@, self.name);
            let m = m.push(("value"@, self.value.json()));
            m
        };
        JsonView::Object(inner)
    }

    fn to_json(&self) -> (r: JsonValue) {
        let mut b = ObjectBuilder::new();
        b.insert_value("id", &self.id);
        b.insert_nullable("name", &self.name);
        b.insert_value("value", &self.value);
        b.build()
    }
}

/// Different values of [`EditTagStyle`] are sent as different texts.
pub proof fn lemma_edit_tag_style_text_injective(x: EditTagStyle, y: EditTagStyle)
    ensures
        x.text() == y.text() ==> x == y,
{
    reveal_strlit("");
    reveal_strlit("check_box");
    reveal_strlit("radio");
    assert(""@.len() != "check_box"@.len());
    assert(""@.len() != "radio"@.len());
    assert("check_box"@.len() != "radio"@.len());
}

/// The requests of this module use the HTTP method that fits what they do:
/// `GET` to read, `POST` to create or add, `PUT` to change and `DELETE` to
/// remove.
pub proof fn lemma_custom_fields_methods(list_custom_fields: ListCustomFields)
    ensures
        list_custom_fields.method_spec() == HttpMethod::Get,
{
}

/// The document of a custom field holds its id as `id`, its name as `name`
/// (`null` when absent) and its value as `value`, and nothing else.
pub proof fn lemma_custom_field_members(x: CustomField)
    ensures
        x.json() is Object,
        x.json()->Object_0.contains(("id"@, JsonView::UInt(x.id))),
        x.name matches Some(n) ==> x.json()->Object_0.contains(("name"@, JsonView::Str(n@))),
        x.name is None ==> x.json()->Object_0.contains(("name"@, JsonView::Null)),
        x.json()->Object_0.contains(("value"@, JsonView::Str(x.value@))),
        x.json()->Object_0.len() == 3,
{
    broadcast use crate::api::json::lemma_member_opt_contains, crate::api::json::lemma_member_opt_len,
        crate::api::json::lemma_member_nullable_contains, crate::api::json::lemma_member_nullable_len,
        crate::api::json::lemma_push_member_contains;
}

} // verus!
