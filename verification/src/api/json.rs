//! A model of JSON documents, the documents sent to and received from Redmine.
//!
//! [`JsonValue`] is the executable document and [`JsonView`] its mathematical
//! value.  Turning documents into text and text into documents is done by the
//! `serde_json` crate; the two functions that call it are [`encode`] and
//! [`decode`].
use vstd::prelude::*;
use vstd::string::StringExecFns;

verus! {

/// `serde_json`'s document type, handled only inside the two conversions below.
#[verifier::external_type_specification]
#[verifier::external_body]
pub struct ExSerdeJsonValue(serde_json::Value);

/// The mathematical value of a JSON document.
///
/// Numbers that are non-negative integers fitting into a `u64` are `UInt`;
/// every other number is `Num`, holding its textual form.
#[verifier::ext_equal]
pub enum JsonView {
    Null,
    Bool(bool),
    UInt(u64),
    Num(Seq<char>),
    Str(Seq<char>),
    Array(Seq<JsonView>),
    Object(Seq<(Seq<char>, JsonView)>),
}

/// A JSON document.  Object members keep their order.
#[derive(Debug)]
pub enum JsonValue {
    Null,
    Bool(bool),
    UInt(u64),
    Num(String),
    Str(String),
    Array(Vec<JsonValue>),
    Object(Vec<(String, JsonValue)>),
}

/// The mathematical value of a document.
pub open spec fn json_view(v: JsonValue) -> JsonView
    decreases v,
{
    match v {
        JsonValue::Null => JsonView::Null,
        JsonValue::Bool(b) => JsonView::Bool(b),
        JsonValue::UInt(n) => JsonView::UInt(n),
        JsonValue::Num(s) => JsonView::Num(s@),
        JsonValue::Str(s) => JsonView::Str(s@),
        JsonValue::Array(a) => JsonView::Array(
            Seq::new(
                a@.len(),
                |i: int|
                    if 0 <= i < a@.len() {
                        json_view(a@[i])
                    } else {
                        JsonView::Null
                    },
            ),
        ),
        JsonValue::Object(o) => JsonView::Object(
            Seq::new(
                o@.len(),
                |i: int|
                    if 0 <= i < o@.len() {
                        (o@[i].0@, json_view(o@[i].1))
                    } else {
                        (Seq::empty(), JsonView::Null)
                    },
            ),
        ),
    }
}

impl View for JsonValue {
    type V = JsonView;

    open spec fn view(&self) -> JsonView {
        json_view(*self)
    }
}

/// The mathematical value of a list of object members.
pub open spec fn members_view(o: Seq<(String, JsonValue)>) -> Seq<(Seq<char>, JsonView)> {
    Seq::new(o.len(), |i: int| (o[i].0@, json_view(o[i].1)))
}

/// The value of the first member named `key`, if any.
pub open spec fn find_member(ms: Seq<(Seq<char>, JsonView)>, key: Seq<char>) -> Option<JsonView>
    decreases ms.len(),
{
    if ms.len() == 0 {
        None
    } else if ms[0].0 == key {
        Some(ms[0].1)
    } else {
        find_member(ms.drop_first(), key)
    }
}

/// A string document holding a copy of `s`.
pub fn string_value(s: &String) -> (r: JsonValue)
    ensures
        r@ == JsonView::Str(s@),
{
    JsonValue::Str(s.clone())
}

/// Collects the members of a JSON object in order.
pub struct ObjectBuilder {
    members: Vec<(String, JsonValue)>,
}

impl View for ObjectBuilder {
    type V = Seq<(Seq<char>, JsonView)>;

    closed spec fn view(&self) -> Seq<(Seq<char>, JsonView)> {
        members_view(self.members@)
    }
}

impl ObjectBuilder {
    /// An object without members.
    pub fn new() -> (r: ObjectBuilder)
        ensures
            r@ == Seq::<(Seq<char>, JsonView)>::empty(),
    {
        let r = ObjectBuilder { members: Vec::new() };
        assert(r@ =~= Seq::<(Seq<char>, JsonView)>::empty());
        r
    }

    /// Appends the member `key: value`.
    pub fn insert(&mut self, key: &str, value: JsonValue)
        ensures
            final(self)@ == old(self)@.push((key@, value@)),
    {
        self.members.push((String::from_str(key), value));
        assert(members_view(self.members@) =~= members_view(old(self).members@).push(
            (key@, value@),
        ));
    }

    /// Whether no member has been added.
    pub fn is_empty(&self) -> (r: bool)
        ensures
            r == (self@.len() == 0),
    {
        self.members.len() == 0
    }

    /// The object holding the members added so far.
    pub fn build(self) -> (r: JsonValue)
        ensures
            r@ == JsonView::Object(self@),
    {
        let ghost m = self.members@;
        let r = JsonValue::Object(self.members);
        assert(r@->Object_0 =~= members_view(m));
        r
    }
}

/// The object `{ key: value }`.
pub fn single_member_object(key: &str, value: JsonValue) -> (r: JsonValue)
    ensures
        r@ == JsonView::Object(seq![(key@, value@)]),
{
    let mut b = ObjectBuilder::new();
    b.insert(key, value);
    assert(b@ =~= seq![(key@, value@)]);
    b.build()
}

/// The position of the first member of an object named `key`.
pub fn member_index(members: &Vec<(String, JsonValue)>, key: &str) -> (r: Option<usize>)
    ensures
        match r {
            Some(i) => i < members@.len() && find_member(members_view(members@), key@) == Some(
                json_view(members@[i as int].1),
            ),
            None => find_member(members_view(members@), key@) is None,
        },
{
    let k = String::from_str(key);
    let ghost ms = members_view(members@);
    let mut i: usize = 0;
    assert(ms.skip(0) =~= ms);
    while i < members.len()
        invariant
            i <= members.len(),
            ms == members_view(members@),
            k@ == key@,
            find_member(ms, key@) == find_member(ms.skip(i as int), key@),
        decreases members.len() - i,
    {
        assert(ms.skip(i as int)[0] == ms[i as int]);
        assert(ms.skip(i as int).drop_first() =~= ms.skip(i + 1));
        if members[i].0 == k {
            return Some(i);
        }
        i = i + 1;
    }
    assert(ms.skip(i as int).len() == 0);
    None
}

/// The members of an object document, taken apart.
pub fn object_members(v: JsonValue) -> (r: Option<Vec<(String, JsonValue)>>)
    ensures
        match r {
            Some(m) => v@ == JsonView::Object(members_view(m@)),
            None => !(v@ is Object),
        },
{
    match v {
        JsonValue::Object(m) => {
            assert(json_view(JsonValue::Object(m))->Object_0 =~= members_view(m@));
            Some(m)
        },
        _ => None,
    }
}


/// A value that is sent as part of a JSON document.
pub trait ToJson {
    /// The document of the value.
    spec fn json(&self) -> JsonView;

    /// The document of the value.
    fn to_json(&self) -> (r: JsonValue)
        ensures
            r@ == self.json(),
    ;
}

impl ToJson for u64 {
    open spec fn json(&self) -> JsonView {
        JsonView::UInt(*self)
    }

    fn to_json(&self) -> (r: JsonValue) {
        JsonValue::UInt(*self)
    }
}

impl ToJson for bool {
    open spec fn json(&self) -> JsonView {
        JsonView::Bool(*self)
    }

    fn to_json(&self) -> (r: JsonValue) {
        JsonValue::Bool(*self)
    }
}

impl ToJson for String {
    open spec fn json(&self) -> JsonView {
        JsonView::Str(self@)
    }

    fn to_json(&self) -> (r: JsonValue) {
        JsonValue::Str(self.clone())
    }
}

/// A JSON number, held as its text (as `serde_json` writes it).
#[derive(Debug, Clone)]
pub struct JsonNumber {
    /// the text of the number, such as `1.5`
    pub text: String,
}

/// A number is sent as a JSON number.
impl ToJson for JsonNumber {
    open spec fn json(&self) -> JsonView {
        JsonView::Num(self.text@)
    }

    fn to_json(&self) -> (r: JsonValue) {
        JsonValue::Num(self.text.clone())
    }
}

/// A list is sent as an array of the documents of its elements.
impl<T: ToJson> ToJson for Vec<T> {
    open spec fn json(&self) -> JsonView {
        JsonView::Array(self@.map_values(|x: T| x.json()))
    }

    fn to_json(&self) -> (r: JsonValue) {
        let mut a: Vec<JsonValue> = Vec::new();
        let mut i: usize = 0;
        while i < self.len()
            invariant
                i <= self.len(),
                a@.len() == i,
                forall|j: int| 0 <= j < i ==> json_view(#[trigger] a@[j]) == self@[j].json(),
            decreases self.len() - i,
        {
            a.push(self[i].to_json());
            i = i + 1;
        }
        let r = JsonValue::Array(a);
        assert(r@->Array_0 =~= self@.map_values(|x: T| x.json()));
        r
    }
}

/// The members with `key: value` appended when `value` is present.
pub open spec fn member_opt<T: ToJson>(
    ms: Seq<(Seq<char>, JsonView)>,
    key: Seq<char>,
    value: Option<T>,
) -> Seq<(Seq<char>, JsonView)> {
    match value {
        Some(v) => ms.push((key, v.json())),
        None => ms,
    }
}

/// Appending an optional member keeps every member there was, and adds
/// `key` with the value's document when the value is present.
pub broadcast proof fn lemma_member_opt_contains<T: ToJson>(
    ms: Seq<(Seq<char>, JsonView)>,
    key: Seq<char>,
    value: Option<T>,
    x: (Seq<char>, JsonView),
)
    requires
        ms.contains(x) || (value is Some && x == (key, value->0.json())),
    ensures
        #[trigger] member_opt(ms, key, value).contains(x),
{
    let r = member_opt(ms, key, value);
    if ms.contains(x) {
        let i = choose|i: int| 0 <= i < ms.len() && ms[i] == x;
        assert(r[i] == x);
    } else {
        assert(r[ms.len() as int] == x);
    }
}

/// Appending an optional member adds one member when the value is present
/// and none when it is absent.
pub broadcast proof fn lemma_member_opt_len<T: ToJson>(
    ms: Seq<(Seq<char>, JsonView)>,
    key: Seq<char>,
    value: Option<T>,
)
    ensures
        #[trigger] member_opt(ms, key, value).len() == ms.len() + (if value is Some {
            1int
        } else {
            0int
        }),
{
}

/// Appending a member that is `null` when absent keeps every member there
/// was and adds `key` with the value's document, or with `null`.
pub broadcast proof fn lemma_member_nullable_contains<T: ToJson>(
    ms: Seq<(Seq<char>, JsonView)>,
    key: Seq<char>,
    value: Option<T>,
    x: (Seq<char>, JsonView),
)
    requires
        ms.contains(x) || (value is Some && x == (key, value->0.json())) || (value is None && x
            == (key, JsonView::Null)),
    ensures
        #[trigger] member_nullable(ms, key, value).contains(x),
{
    let r = member_nullable(ms, key, value);
    if ms.contains(x) {
        let i = choose|i: int| 0 <= i < ms.len() && ms[i] == x;
        assert(r[i] == x);
    } else {
        assert(r[ms.len() as int] == x);
    }
}

/// Appending a member that is `null` when absent adds one member.
pub broadcast proof fn lemma_member_nullable_len<T: ToJson>(
    ms: Seq<(Seq<char>, JsonView)>,
    key: Seq<char>,
    value: Option<T>,
)
    ensures
        #[trigger] member_nullable(ms, key, value).len() == ms.len() + 1,
{
}

/// Appending a member keeps every member there was and adds the new one.
pub broadcast proof fn lemma_push_member_contains(
    ms: Seq<(Seq<char>, JsonView)>,
    m: (Seq<char>, JsonView),
    x: (Seq<char>, JsonView),
)
    requires
        ms.contains(x) || x == m,
    ensures
        #[trigger] ms.push(m).contains(x),
{
    if ms.contains(x) {
        let i = choose|i: int| 0 <= i < ms.len() && ms[i] == x;
        assert(ms.push(m)[i] == x);
    } else {
        assert(ms.push(m)[ms.len() as int] == x);
    }
}

/// The members with `key: value` appended, `value` being `null` when absent.
pub open spec fn member_nullable<T: ToJson>(
    ms: Seq<(Seq<char>, JsonView)>,
    key: Seq<char>,
    value: Option<T>,
) -> Seq<(Seq<char>, JsonView)> {
    ms.push(
        (
            key,
            match value {
                Some(v) => v.json(),
                None => JsonView::Null,
            },
        ),
    )
}

impl ObjectBuilder {
    /// Appends the member `key: value`.
    pub fn insert_value<T: ToJson>(&mut self, key: &str, value: &T)
        ensures
            final(self)@ == old(self)@.push((key@, value.json())),
    {
        self.insert(key, value.to_json());
    }

    /// Appends the member `key: value` when `value` is present.
    pub fn insert_opt<T: ToJson>(&mut self, key: &str, value: &Option<T>)
        ensures
            final(self)@ == member_opt(old(self)@, key@, *value),
    {
        if let Some(v) = value {
            self.insert(key, v.to_json());
        }
    }

    /// Appends the member `key: value`, `null` when `value` is absent.
    pub fn insert_nullable<T: ToJson>(&mut self, key: &str, value: &Option<T>)
        ensures
            final(self)@ == member_nullable(old(self)@, key@, *value),
    {
        match value {
            Some(v) => self.insert(key, v.to_json()),
            None => self.insert(key, JsonValue::Null),
        }
    }
}

/// The text that `serde_json` writes for a document.
pub uninterp spec fn json_serialized(doc: JsonView) -> Result<Seq<u8>, Seq<char>>;

/// The document that `serde_json` reads from bytes, or its error message.
pub uninterp spec fn json_parsed(bytes: Seq<u8>) -> Result<JsonView, Seq<char>>;

/// One-for-one conversion of a document into `serde_json`'s document type;
/// a `Num` whose text `serde_json` can not read as a number becomes `null`.
#[verifier::external_body]
fn into_serde(v: &JsonValue) -> serde_json::Value {
    match v {
        JsonValue::Null => serde_json::Value::Null,
        JsonValue::Bool(b) => serde_json::Value::Bool(*b),
        JsonValue::UInt(n) => serde_json::Value::from(*n),
        JsonValue::Num(t) => t.parse::<serde_json::Number>().map_or(serde_json::Value::Null, serde_json::Value::Number),
        JsonValue::Str(s) => serde_json::Value::String(s.clone()),
        JsonValue::Array(a) => serde_json::Value::Array(a.iter().map(into_serde).collect()),
        JsonValue::Object(o) => serde_json::Value::Object(o.iter().map(|(k, x)| (k.clone(), into_serde(x))).collect()),
    }
}

/// One-for-one conversion of `serde_json`'s document type into a document.
#[verifier::external_body]
fn from_serde(v: serde_json::Value) -> JsonValue {
    match v {
        serde_json::Value::Null => JsonValue::Null,
        serde_json::Value::Bool(b) => JsonValue::Bool(b),
        serde_json::Value::Number(n) => n.as_u64().map_or_else(|| JsonValue::Num(n.to_string()), JsonValue::UInt),
        serde_json::Value::String(s) => JsonValue::Str(s),
        serde_json::Value::Array(a) => JsonValue::Array(a.into_iter().map(from_serde).collect()),
        serde_json::Value::Object(o) => JsonValue::Object(o.into_iter().map(|(k, x)| (k, from_serde(x))).collect()),
    }
}

/// Writes a document as compact JSON text with `serde_json::to_vec`.
///
/// Trusted: the bytes, or the message of the error, are what `serde_json`
/// produces for the document (a `Num` whose text is no JSON number is written
/// as `null`); what that text is, is left to `serde_json`.
#[verifier::external_body]
pub(crate) fn encode(v: &JsonValue) -> (r: Result<Vec<u8>, String>)
    ensures
        match r {
            Ok(b) => json_serialized(v@) == Ok::<Seq<u8>, Seq<char>>(b@),
            Err(e) => json_serialized(v@) == Err::<Seq<u8>, Seq<char>>(e@),
        },
{
    serde_json::to_vec(&into_serde(v)).map_err(|e| e.to_string())
}

/// Reads a document from JSON text with `serde_json::from_slice`.
///
/// Trusted: the document, or the message of the error, are what `serde_json`
/// reads from the bytes; which texts are accepted is left to `serde_json`.
#[verifier::external_body]
pub(crate) fn decode(bytes: &[u8]) -> (r: Result<JsonValue, String>)
    ensures
        match r {
            Ok(v) => json_parsed(bytes@) == Ok::<JsonView, Seq<char>>(v@),
            Err(e) => json_parsed(bytes@) == Err::<JsonView, Seq<char>>(e@),
        },
{
    serde_json::from_slice::<serde_json::Value>(bytes).map(from_serde).map_err(|e| e.to_string())
}

} // verus!
