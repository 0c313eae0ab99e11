//! Query parameters of a request.
use vstd::prelude::*;
use vstd::string::StringExecFns;
use crate::api::text::{decimal, join, push_joined, u64_to_string};

verus! {

/// A value that can be sent as a query parameter.
pub trait ParamValue {
    /// The text that is sent for the value.
    spec fn param_text(&self) -> Seq<char>;

    /// Whether the value can be written (true of all but values that carry
    /// date-times which the form of the parameter cannot express).
    open spec fn param_ok(&self) -> bool {
        true
    }

    /// The parameter value as a string.
    fn as_value(&self) -> (r: String)
        requires
            self.param_ok(),
        ensures
            r@ == self.param_text(),
    ;
}

impl ParamValue for bool {
    open spec fn param_text(&self) -> Seq<char> {
        if *self {
            "true"@
        } else {
            "false"@
        }
    }

    fn as_value(&self) -> (r: String) {
        if *self {
            String::from_str("true")
        } else {
            String::from_str("false")
        }
    }
}

impl ParamValue for u64 {
    open spec fn param_text(&self) -> Seq<char> {
        decimal(*self as nat)
    }

    fn as_value(&self) -> (r: String) {
        u64_to_string(*self)
    }
}

impl ParamValue for String {
    open spec fn param_text(&self) -> Seq<char> {
        self@
    }

    fn as_value(&self) -> (r: String) {
        self.clone()
    }
}

impl<'a> ParamValue for &'a str {
    open spec fn param_text(&self) -> Seq<char> {
        (*self)@
    }

    fn as_value(&self) -> (r: String) {
        String::from_str(*self)
    }
}

/// A list is sent as the comma separated texts of its elements.
impl<T: ParamValue> ParamValue for Vec<T> {
    open spec fn param_text(&self) -> Seq<char> {
        join(self@.map_values(|e: T| e.param_text()), ","@)
    }

    open spec fn param_ok(&self) -> bool {
        forall|i: int| 0 <= i < self@.len() ==> (#[trigger] self@[i]).param_ok()
    }

    fn as_value(&self) -> (r: String) {
        let mut parts: Vec<String> = Vec::new();
        let mut i: usize = 0;
        while i < self.len()
            invariant
                i <= self.len(),
                self.param_ok(),
                parts@.len() == i,
                forall|j: int| 0 <= j < i ==> (#[trigger] parts@[j])@ == self@[j].param_text(),
            decreases self.len() - i,
        {
            parts.push(self[i].as_value());
            i = i + 1;
        }
        let mut r = String::new();
        push_joined(&mut r, &parts, ",");
        assert(parts@.map_values(|p: String| p@) =~= self@.map_values(|e: T| e.param_text()));
        assert(r@ =~= join(self@.map_values(|e: T| e.param_text()), ","@));
        r
    }
}

/// The pairs of a list of parameters, taken by their texts.
pub open spec fn pairs_view(p: Seq<(String, String)>) -> Seq<(Seq<char>, Seq<char>)> {
    p.map_values(|e: (String, String)| (e.0@, e.1@))
}


/// Whether an optional value is absent or can be written.
pub open spec fn opt_param_ok<V: ParamValue>(value: Option<V>) -> bool {
    match value {
        Some(v) => v.param_ok(),
        None => true,
    }
}

/// The parameters with `key=value` appended when `value` is present.
pub open spec fn push_opt_spec<V: ParamValue>(
    ps: Seq<(Seq<char>, Seq<char>)>,
    key: Seq<char>,
    value: Option<V>,
) -> Seq<(Seq<char>, Seq<char>)> {
    match value {
        Some(v) => ps.push((key, v.param_text())),
        None => ps,
    }
}

/// `1` for a present value, `0` for an absent one.
pub open spec fn present<T>(value: Option<T>) -> int {
    if value is Some {
        1
    } else {
        0
    }
}

/// Pushing an optional parameter keeps every parameter there was, and adds
/// `key` with the value's text when the value is present.
pub broadcast proof fn lemma_push_opt_contains<V: ParamValue>(
    ps: Seq<(Seq<char>, Seq<char>)>,
    key: Seq<char>,
    value: Option<V>,
    x: (Seq<char>, Seq<char>),
)
    requires
        ps.contains(x) || (value is Some && x == (key, value->0.param_text())),
    ensures
        #[trigger] push_opt_spec(ps, key, value).contains(x),
{
    let r = push_opt_spec(ps, key, value);
    if ps.contains(x) {
        let i = choose|i: int| 0 <= i < ps.len() && ps[i] == x;
        assert(r[i] == x);
    } else {
        assert(r[ps.len() as int] == x);
    }
}

/// Appending parameters keeps the parameters of both parts.
pub broadcast proof fn lemma_concat_contains(
    a: Seq<(Seq<char>, Seq<char>)>,
    b: Seq<(Seq<char>, Seq<char>)>,
    x: (Seq<char>, Seq<char>),
)
    requires
        a.contains(x) || b.contains(x),
    ensures
        #[trigger] (a + b).contains(x),
{
    if a.contains(x) {
        let i = choose|i: int| 0 <= i < a.len() && a[i] == x;
        assert((a + b)[i] == x);
    } else {
        let i = choose|i: int| 0 <= i < b.len() && b[i] == x;
        assert((a + b)[a.len() + i] == x);
    }
}

/// Pushing an optional parameter adds one parameter when the value is
/// present and none when it is absent.
pub broadcast proof fn lemma_push_opt_len<V: ParamValue>(
    ps: Seq<(Seq<char>, Seq<char>)>,
    key: Seq<char>,
    value: Option<V>,
)
    ensures
        #[trigger] push_opt_spec(ps, key, value).len() == ps.len() + present(value),
{
}

/// A structure for query parameters.
#[derive(Debug, Clone)]
pub struct QueryParams {
    /// the actual parameters
    params: Vec<(String, String)>,
}

impl View for QueryParams {
    type V = Seq<(Seq<char>, Seq<char>)>;

    closed spec fn view(&self) -> Seq<(Seq<char>, Seq<char>)> {
        pairs_view(self.params@)
    }
}

impl Default for QueryParams {
    fn default() -> (r: QueryParams)
        ensures
            r@ == Seq::<(Seq<char>, Seq<char>)>::empty(),
    {
        QueryParams::new()
    }
}

impl QueryParams {
    /// No parameters.
    pub fn new() -> (r: QueryParams)
        ensures
            r@ == Seq::<(Seq<char>, Seq<char>)>::empty(),
    {
        let r = QueryParams { params: Vec::new() };
        assert(r@ =~= Seq::<(Seq<char>, Seq<char>)>::empty());
        r
    }

    /// Push a single parameter.
    pub fn push<V: ParamValue>(&mut self, key: &str, value: &V) -> (r: &mut QueryParams)
        requires
            value.param_ok(),
        ensures
            r@ == old(self)@.push((key@, value.param_text())),
            *final(self) == *final(r),
    {
        let v = value.as_value();
        self.params.push((String::from_str(key), v));
        assert(pairs_view(self.params@) =~= pairs_view(old(self).params@).push(
            (key@, value.param_text()),
        ));
        self
    }

    /// Push a single parameter if it is present.
    pub fn push_opt<V: ParamValue>(&mut self, key: &str, value: &Option<V>) -> (r:
        &mut QueryParams)
        requires
            opt_param_ok(*value),
        ensures
            r@ == push_opt_spec(old(self)@, key@, *value),
            *final(self) == *final(r),
    {
        if let Some(v) = value {
            self.push(key, v);
        }
        self
    }

    /// Push a set of parameters.
    pub fn extend<V: ParamValue>(&mut self, pairs: &Vec<(String, V)>) -> (r: &mut QueryParams)
        requires
            forall|i: int| 0 <= i < pairs@.len() ==> (#[trigger] pairs@[i]).1.param_ok(),
        ensures
            r@ == old(self)@ + pairs@.map_values(|p: (String, V)| (p.0@, p.1.param_text())),
            *final(self) == *final(r),
    {
        let ghost added = pairs@.map_values(|p: (String, V)| (p.0@, p.1.param_text()));
        let mut i: usize = 0;
        while i < pairs.len()
            invariant
                i <= pairs.len(),
                forall|j: int| 0 <= j < pairs@.len() ==> (#[trigger] pairs@[j]).1.param_ok(),
                added == pairs@.map_values(|p: (String, V)| (p.0@, p.1.param_text())),
                self@ == old(self)@ + added.take(i as int),
            decreases pairs.len() - i,
        {
            let (k, v) = &pairs[i];
            self.push(k.as_str(), v);
            assert(added.take(i + 1) =~= added.take(i as int).push(added[i as int]));
            i = i + 1;
        }
        assert(added.take(pairs.len() as int) =~= added);
        self
    }

    /// The parameters in the order they were pushed.
    pub fn pairs(&self) -> (r: &Vec<(String, String)>)
        ensures
            pairs_view(r@) == self@,
    {
        &self.params
    }

    /// Add the parameters to a URL.
    pub fn add_to_url(&self, url: &str) -> (r: Result<String, String>)
        ensures
            match r {
                Ok(u) => url_with_query(url@, self@) == Ok::<Seq<char>, Seq<char>>(u@),
                Err(e) => url_with_query(url@, self@) == Err::<Seq<char>, Seq<char>>(e@),
            },
    {
        append_query_pairs(url, &self.params)
    }
}

/// The URL that the `url` crate makes of `url` with the pairs appended to its
/// query (`Url::parse` followed by `query_pairs_mut().extend_pairs(..)`), or the
/// message of its parse error.
pub uninterp spec fn url_with_query(
    url: Seq<char>,
    pairs: Seq<(Seq<char>, Seq<char>)>,
) -> Result<Seq<char>, Seq<char>>;

/// The URL that the `url` crate makes of `input` resolved against `base`
/// (`Url::parse(base)` followed by `join(input)`), or the message of its parse
/// error.
pub uninterp spec fn url_joined(base: Seq<char>, input: Seq<char>) -> Result<Seq<char>, Seq<char>>;

/// Appends form-urlencoded pairs to the query of a URL with the `url` crate.
///
/// Trusted: the result is what `url::Url::parse` and
/// `query_pairs_mut().extend_pairs` give for these strings; the encoding
/// itself is left to the `url` crate.
#[verifier::external_body]
fn append_query_pairs(url: &str, pairs: &Vec<(String, String)>) -> (r: Result<String, String>)
    ensures
        match r {
            Ok(u) => url_with_query(url@, pairs_view(pairs@)) == Ok::<Seq<char>, Seq<char>>(u@),
            Err(e) => url_with_query(url@, pairs_view(pairs@)) == Err::<Seq<char>, Seq<char>>(e@),
        },
{
    let mut u = url::Url::parse(url).map_err(|e| e.to_string())?;
    u.query_pairs_mut().extend_pairs(pairs.iter());
    Ok(u.into())
}

/// Resolves a (relative) reference against a base URL with the `url` crate.
///
/// Trusted: the result is what `url::Url::parse(base)` followed by
/// `Url::join(input)` gives for these strings; the resolution itself is left
/// to the `url` crate.
#[verifier::external_body]
pub(crate) fn url_join(base: &str, input: &str) -> (r: Result<String, String>)
    ensures
        match r {
            Ok(u) => url_joined(base@, input@) == Ok::<Seq<char>, Seq<char>>(u@),
            Err(e) => url_joined(base@, input@) == Err::<Seq<char>, Seq<char>>(e@),
        },
{
    url::Url::parse(base).and_then(|b| b.join(input)).map(String::from).map_err(|e| e.to_string())
}

} // verus!
