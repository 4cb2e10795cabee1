//! A JSON document model with a mathematical view.
//!
//! The gateway reads and builds JSON-RPC and platform payloads; every such
//! payload is held as a [`JsonValue`] whose meaning is its [`JsonView`].

use vstd::prelude::*;
use vstd::string::*;
use crate::text::str_eq;

verus! {

/// A JSON number, as `serde_json` distinguishes them: a non-negative integer,
/// a negative integer, or a floating-point number kept as its decimal text.
#[derive(Debug)]
pub enum JsonNumber {
    PosInt(u64),
    NegInt(i64),
    Float(String),
}

/// The meaning of a [`JsonNumber`].
pub enum NumberView {
    PosInt(u64),
    NegInt(i64),
    Float(Seq<char>),
}

/// A JSON value. Objects keep their members in order; a lookup finds the
/// first member with the key.
#[derive(Debug)]
pub enum JsonValue {
    Null,
    Bool(bool),
    Number(JsonNumber),
    Str(String),
    Array(Vec<JsonValue>),
    Object(Vec<(String, JsonValue)>),
}

/// The meaning of a [`JsonValue`].
#[verifier::ext_equal]
pub enum JsonView {
    Null,
    Bool(bool),
    Number(NumberView),
    Str(Seq<char>),
    Array(Seq<JsonView>),
    Object(Seq<(Seq<char>, JsonView)>),
}

impl View for JsonNumber {
    type V = NumberView;

    open spec fn view(&self) -> NumberView {
        match self {
            JsonNumber::PosInt(u) => NumberView::PosInt(*u),
            JsonNumber::NegInt(i) => NumberView::NegInt(*i),
            JsonNumber::Float(s) => NumberView::Float(s@),
        }
    }
}

impl JsonValue {
    /// The meaning of this value.
    pub open spec fn spec_view(self) -> JsonView
        decreases self,
    {
        match self {
            JsonValue::Null => JsonView::Null,
            JsonValue::Bool(b) => JsonView::Bool(b),
            JsonValue::Number(n) => JsonView::Number(n@),
            JsonValue::Str(s) => JsonView::Str(s@),
            JsonValue::Array(items) => JsonView::Array(
                Seq::new(
                    items@.len(),
                    |i: int|
                        if 0 <= i < items@.len() {
                            items@[i].spec_view()
                        } else {
                            JsonView::Null
                        },
                ),
            ),
            JsonValue::Object(fields) => JsonView::Object(
                Seq::new(
                    fields@.len(),
                    |i: int|
                        if 0 <= i < fields@.len() {
                            (fields@[i].0@, fields@[i].1.spec_view())
                        } else {
                            (Seq::empty(), JsonView::Null)
                        },
                ),
            ),
        }
    }
}

impl View for JsonValue {
    type V = JsonView;

    open spec fn view(&self) -> JsonView {
        self.spec_view()
    }
}

/// The value of the first member named `key`, if any.
pub open spec fn assoc_get(fields: Seq<(Seq<char>, JsonView)>, key: Seq<char>) -> Option<JsonView>
    decreases fields.len(),
{
    if fields.len() == 0 {
        None
    } else if fields[0].0 == key {
        Some(fields[0].1)
    } else {
        assoc_get(fields.drop_first(), key)
    }
}

impl JsonView {
    /// `Value::get(key)`: the member of an object, `None` for anything else.
    pub open spec fn get(self, key: Seq<char>) -> Option<JsonView> {
        match self {
            JsonView::Object(fields) => assoc_get(fields, key),
            _ => None,
        }
    }

    pub open spec fn as_str(self) -> Option<Seq<char>> {
        match self {
            JsonView::Str(s) => Some(s),
            _ => None,
        }
    }

    pub open spec fn as_bool(self) -> Option<bool> {
        match self {
            JsonView::Bool(b) => Some(b),
            _ => None,
        }
    }

    pub open spec fn as_u64(self) -> Option<u64> {
        match self {
            JsonView::Number(NumberView::PosInt(u)) => Some(u),
            _ => None,
        }
    }

    pub open spec fn as_i64(self) -> Option<i64> {
        match self {
            JsonView::Number(NumberView::PosInt(u)) => if u <= i64::MAX {
                Some(u as i64)
            } else {
                None
            },
            JsonView::Number(NumberView::NegInt(i)) => Some(i),
            _ => None,
        }
    }

    pub open spec fn as_array(self) -> Option<Seq<JsonView>> {
        match self {
            JsonView::Array(items) => Some(items),
            _ => None,
        }
    }

    /// `value[key]`: the member of an object, `Null` when there is none.
    pub open spec fn index(self, key: Seq<char>) -> JsonView {
        match self.get(key) {
            Some(v) => v,
            None => JsonView::Null,
        }
    }

    /// The string member `key`, if the member exists and is a string.
    pub open spec fn str_at(self, key: Seq<char>) -> Option<Seq<char>> {
        self.index(key).as_str()
    }

    /// The boolean member `key`, if the member exists and is a boolean.
    pub open spec fn bool_at(self, key: Seq<char>) -> Option<bool> {
        self.index(key).as_bool()
    }

    /// The member `key` as a `u64`, if it exists and is a non-negative integer.
    pub open spec fn u64_at(self, key: Seq<char>) -> Option<u64> {
        self.index(key).as_u64()
    }

    /// The member `key` as an `i64`, if it exists and is an integer in range.
    pub open spec fn i64_at(self, key: Seq<char>) -> Option<i64> {
        self.index(key).as_i64()
    }
}

/// An object view built from members.
pub open spec fn obj(fields: Seq<(Seq<char>, JsonView)>) -> JsonView {
    JsonView::Object(fields)
}

/// A string view.
pub open spec fn jstr(s: Seq<char>) -> JsonView {
    JsonView::Str(s)
}

/// A non-negative integer view.
pub open spec fn juint(u: u64) -> JsonView {
    JsonView::Number(NumberView::PosInt(u))
}

/// `null` for `None`, the string for `Some`.
pub open spec fn jopt_str(s: Option<Seq<char>>) -> JsonView {
    match s {
        Some(t) => JsonView::Str(t),
        None => JsonView::Null,
    }
}

/// `null` for `None`, the number for `Some`.
pub open spec fn jopt_uint(u: Option<u64>) -> JsonView {
    match u {
        Some(t) => juint(t),
        None => JsonView::Null,
    }
}

/// How `serde_json` represents an `i64`: non-negative values as unsigned integers.
pub open spec fn jint(i: i64) -> JsonView {
    if i >= 0 {
        JsonView::Number(NumberView::PosInt(i as u64))
    } else {
        JsonView::Number(NumberView::NegInt(i))
    }
}

/// `serde_json::Value`, carried through opaquely while a parse result is converted.
#[verifier::external_type_specification]
#[verifier::external_body]
pub struct ExSerdeJsonValue(serde_json::Value);

/// The result of parsing `text` as JSON with `serde_json::from_str`, as a view;
/// the error is the text of `serde_json`'s error.
pub uninterp spec fn json_parse(text: Seq<char>) -> Result<JsonView, Seq<char>>;

/// Parses `text` with `serde_json::from_str` into a `serde_json::Value` and
/// carries it over into a [`JsonValue`]; on failure, the text of the error.
/// Claimed: the outcome is `json_parse(text@)`, a function of the text alone.
#[verifier::external_body]
pub(crate) fn parse_json_text(text: &str) -> (r: Result<JsonValue, String>)
    ensures
        match r {
            Ok(v) => json_parse(text@) == Ok::<JsonView, Seq<char>>(v@),
            Err(e) => json_parse(text@) == Err::<JsonView, Seq<char>>(e@),
        },
{
    match serde_json::from_str::<serde_json::Value>(text) {
        Ok(v) => Ok(from_serde_value(v)),
        Err(e) => Err(e.to_string()),
    }
}

/// The text `serde_json::to_string` writes for the value with view `v`:
/// compact JSON, object members in `serde_json`'s map order.
pub uninterp spec fn json_text(v: JsonView) -> Seq<char>;

/// Carries `v` over into a `serde_json::Value` and writes it with
/// `serde_json::to_string`. Claimed: the text is `json_text(v@)`, a function
/// of the view alone, and it holds no line break, since the compact writer
/// puts no whitespace between tokens and escapes control characters, the
/// line feed among them, inside strings. `to_string` cannot fail on a
/// `Value`, whose keys are strings.
#[verifier::external_body]
pub(crate) fn render_json(v: &JsonValue) -> (r: String)
    ensures
        r@ == json_text(v@),
        !r@.contains('\n'),
{
    serde_json::to_string(&to_serde_value(v)).unwrap_or_default()
}

/// Carries a [`JsonValue`] over into a `serde_json::Value`, variant by
/// variant: where an object repeats a key the first member is kept (as
/// lookups find it), and a float is its decimal text read back as JSON
/// (`null` if that text is not JSON).
/// Only `render_json` uses it; nothing is claimed of it on its own.
#[verifier::external_body]
fn to_serde_value(v: &JsonValue) -> serde_json::Value {
    match v {
        JsonValue::Null => serde_json::Value::Null,
        JsonValue::Bool(b) => serde_json::Value::Bool(*b),
        JsonValue::Number(JsonNumber::PosInt(u)) => serde_json::Value::from(*u),
        JsonValue::Number(JsonNumber::NegInt(i)) => serde_json::Value::from(*i),
        JsonValue::Number(JsonNumber::Float(t)) => serde_json::from_str(t).unwrap_or_default(),
        JsonValue::Str(s) => serde_json::Value::String(s.clone()),
        JsonValue::Array(items) => serde_json::Value::Array(items.iter().map(to_serde_value).collect()),
        JsonValue::Object(fields) => serde_json::Value::Object(
            fields.iter().rev().map(|(k, x)| (k.clone(), to_serde_value(x))).collect(),
        ),
    }
}

/// The JSON text of `v` followed by a line feed: one line, the framing of a
/// message on a line-delimited stream.
pub fn json_line(v: &JsonValue) -> (r: String)
    ensures
        r@ == json_text(v@) + "\n"@,
        r@.len() >= 1,
        r@.last() == '\n',
        !r@.drop_last().contains('\n'),
{
    let mut r = render_json(v);
    let ghost body = r@;
    r.append("\n");
    proof {
        reveal_strlit("\n");
        assert(r@.drop_last() =~= body);
    }
    r
}

/// Carries a `serde_json::Value` over into a [`JsonValue`], variant by variant;
/// numbers become `PosInt`, `NegInt` or the decimal text of a float, as
/// `serde_json::Number::as_u64`, `as_i64` and its `Display` give them.
/// Only `parse_json_text` uses it; nothing is claimed of it on its own.
#[verifier::external_body]
fn from_serde_value(v: serde_json::Value) -> JsonValue {
    match v {
        serde_json::Value::Null => JsonValue::Null,
        serde_json::Value::Bool(b) => JsonValue::Bool(b),
        serde_json::Value::Number(n) => JsonValue::Number(
            match (n.as_u64(), n.as_i64()) {
                (Some(u), _) => JsonNumber::PosInt(u),
                (None, Some(i)) => JsonNumber::NegInt(i),
                (None, None) => JsonNumber::Float(n.to_string()),
            },
        ),
        serde_json::Value::String(s) => JsonValue::Str(s),
        serde_json::Value::Array(items) => JsonValue::Array(items.into_iter().map(from_serde_value).collect()),
        serde_json::Value::Object(m) => JsonValue::Object(m.into_iter().map(|(k, x)| (k, from_serde_value(x))).collect()),
    }
}

impl JsonNumber {
    /// A copy of this number with the same meaning.
    pub fn clone_number(&self) -> (r: JsonNumber)
        ensures
            r@ == self@,
    {
        match self {
            JsonNumber::PosInt(u) => JsonNumber::PosInt(*u),
            JsonNumber::NegInt(i) => JsonNumber::NegInt(*i),
            JsonNumber::Float(s) => JsonNumber::Float(s.clone()),
        }
    }
}

impl JsonValue {
    /// A copy of this value with the same meaning.
    pub fn clone_value(&self) -> (r: JsonValue)
        ensures
            r@ == self@,
        decreases self,
    {
        match self {
            JsonValue::Null => JsonValue::Null,
            JsonValue::Bool(b) => JsonValue::Bool(*b),
            JsonValue::Number(n) => JsonValue::Number(n.clone_number()),
            JsonValue::Str(s) => JsonValue::Str(s.clone()),
            JsonValue::Array(items) => {
                let mut out: Vec<JsonValue> = Vec::new();
                let mut i: usize = 0;
                while i < items.len()
                    invariant
                        *self == JsonValue::Array(*items),
                        i <= items@.len(),
                        out@.len() == i,
                        forall|j: int| 0 <= j < i ==> (#[trigger] out@[j]).spec_view() == items@[j].spec_view(),
                    decreases items@.len() - i,
                {
                    proof {
                        assert(decreases_to!(*self => self->Array_0));
                        assert(self->Array_0 == *items);
                        assert(decreases_to!(*items => items@));
                        assert(decreases_to!(items@ => items@[i as int]));
                    }
                    let c = items[i].clone_value();
                    out.push(c);
                    i = i + 1;
                }
                let r = JsonValue::Array(out);
                assert(r.spec_view() =~= self.spec_view()) by {
                    if let JsonView::Array(a) = r.spec_view() {
                        if let JsonView::Array(b) = self.spec_view() {
                            assert(a =~= b);
                        }
                    }
                }
                r
            },
            JsonValue::Object(fields) => {
                let mut out: Vec<(String, JsonValue)> = Vec::new();
                let mut i: usize = 0;
                while i < fields.len()
                    invariant
                        *self == JsonValue::Object(*fields),
                        i <= fields@.len(),
                        out@.len() == i,
                        forall|j: int|
                            0 <= j < i ==> (#[trigger] out@[j]).0@ == fields@[j].0@ && out@[j].1.spec_view()
                                == fields@[j].1.spec_view(),
                    decreases fields@.len() - i,
                {
                    proof {
                        assert(decreases_to!(*self => self->Object_0));
                        assert(self->Object_0 == *fields);
                        assert(decreases_to!(*fields => fields@));
                        assert(decreases_to!(fields@ => fields@[i as int]));
                        assert(decreases_to!(fields@[i as int] => fields@[i as int].1));
                    }
                    let k = fields[i].0.clone();
                    let c = fields[i].1.clone_value();
                    out.push((k, c));
                    i = i + 1;
                }
                let r = JsonValue::Object(out);
                assert(r.spec_view() =~= self.spec_view()) by {
                    if let JsonView::Object(a) = r.spec_view() {
                        if let JsonView::Object(b) = self.spec_view() {
                            assert(a =~= b);
                        }
                    }
                }
                r
            },
        }
    }

    /// `Value::get(key)`: the first member named `key` of an object.
    pub fn get(&self, key: &str) -> (r: Option<&JsonValue>)
        ensures
            match r {
                Some(v) => self@.get(key@) == Some(v@),
                None => self@.get(key@) is None,
            },
    {
        match self {
            JsonValue::Object(fields) => {
                let ghost vf = match self@ {
                    JsonView::Object(f) => f,
                    _ => Seq::empty(),
                };
                assert(vf.len() == fields@.len());
                assert(self@ == JsonView::Object(vf));
                let mut i: usize = 0;
                assert(vf.skip(0) =~= vf);
                while i < fields.len()
                    invariant
                        self@ == JsonView::Object(vf),
                        i <= fields@.len(),
                        vf.len() == fields@.len(),
                        forall|j: int|
                            0 <= j < fields@.len() ==> #[trigger] vf[j] == (
                                fields@[j].0@,
                                fields@[j].1@,
                            ),
                        assoc_get(vf, key@) == assoc_get(vf.skip(i as int), key@),
                    decreases fields@.len() - i,
                {
                    let ghost rest = vf.skip(i as int);
                    assert(rest[0] == vf[i as int]);
                    if str_eq(fields[i].0.as_str(), key) {
                        assert(rest.len() > 0);
                        assert(assoc_get(rest, key@) == Some(rest[0].1));
                        assert(self@ == JsonView::Object(vf));
                        assert(self@.get(key@) == assoc_get(vf, key@));
                        assert(rest[0].1 == fields@[i as int].1@);
                        return Some(&fields[i].1);
                    }
                    assert(rest.drop_first() =~= vf.skip(i + 1));
                    i = i + 1;
                }
                None
            },
            _ => None,
        }
    }

    /// The string inside, if this is a string.
    pub fn as_str(&self) -> (r: Option<&String>)
        ensures
            match r {
                Some(s) => self@.as_str() == Some(s@),
                None => self@.as_str() is None,
            },
    {
        match self {
            JsonValue::Str(s) => Some(s),
            _ => None,
        }
    }

    /// The boolean inside, if this is a boolean.
    pub fn as_bool(&self) -> (r: Option<bool>)
        ensures
            r == self@.as_bool(),
    {
        match self {
            JsonValue::Bool(b) => Some(*b),
            _ => None,
        }
    }

    /// The number as a `u64`, if it is a non-negative integer.
    pub fn as_u64(&self) -> (r: Option<u64>)
        ensures
            r == self@.as_u64(),
    {
        match self {
            JsonValue::Number(JsonNumber::PosInt(u)) => Some(*u),
            _ => None,
        }
    }

    /// The number as an `i64`, if it is an integer in range.
    pub fn as_i64(&self) -> (r: Option<i64>)
        ensures
            r == self@.as_i64(),
    {
        match self {
            JsonValue::Number(JsonNumber::PosInt(u)) => {
                if *u <= 9223372036854775807u64 {
                    Some(*u as i64)
                } else {
                    None
                }
            },
            JsonValue::Number(JsonNumber::NegInt(i)) => Some(*i),
            _ => None,
        }
    }

    /// The items inside, if this is an array.
    pub fn as_array(&self) -> (r: Option<&Vec<JsonValue>>)
        ensures
            match r {
                Some(items) => self@.as_array() == Some(
                    Seq::new(items@.len(), |i: int| items@[i]@),
                ),
                None => self@.as_array() is None,
            },
    {
        match self {
            JsonValue::Array(items) => {
                assert(self@.as_array()->0 =~= Seq::new(items@.len(), |i: int| items@[i]@));
                Some(items)
            },
            _ => None,
        }
    }

    /// A copy of the string member `key`, if it exists and is a string.
    pub fn str_at(&self, key: &str) -> (r: Option<String>)
        ensures
            match r {
                Some(s) => self@.str_at(key@) == Some(s@),
                None => self@.str_at(key@) is None,
            },
    {
        match self.get(key) {
            Some(v) => match v.as_str() {
                Some(s) => Some(s.clone()),
                None => None,
            },
            None => None,
        }
    }

    /// The boolean member `key`, if it exists and is a boolean.
    pub fn bool_at(&self, key: &str) -> (r: Option<bool>)
        ensures
            r == self@.bool_at(key@),
    {
        match self.get(key) {
            Some(v) => v.as_bool(),
            None => None,
        }
    }

    /// The member `key` as a `u64`, if it exists and is a non-negative integer.
    pub fn u64_at(&self, key: &str) -> (r: Option<u64>)
        ensures
            r == self@.u64_at(key@),
    {
        match self.get(key) {
            Some(v) => v.as_u64(),
            None => None,
        }
    }

    /// The member `key` as an `i64`, if it exists and is an integer in range.
    pub fn i64_at(&self, key: &str) -> (r: Option<i64>)
        ensures
            r == self@.i64_at(key@),
    {
        match self.get(key) {
            Some(v) => v.as_i64(),
            None => None,
        }
    }

    /// `value[key]`, copied: the member, or `null` when there is none.
    pub fn index_clone(&self, key: &str) -> (r: JsonValue)
        ensures
            r@ == self@.index(key@),
    {
        match self.get(key) {
            Some(v) => v.clone_value(),
            None => JsonValue::Null,
        }
    }
}

/// A string value holding a copy of `s`.
pub fn json_str(s: &str) -> (r: JsonValue)
    ensures
        r@ == jstr(s@),
{
    JsonValue::Str(String::from_str(s))
}

/// `null` for `None`, the string for `Some`.
pub fn json_opt_str(s: &Option<String>) -> (r: JsonValue)
    ensures
        r@ == jopt_str(
            match s {
                Some(t) => Some(t@),
                None => None,
            },
        ),
{
    match s {
        Some(t) => JsonValue::Str(t.clone()),
        None => JsonValue::Null,
    }
}

/// The JSON number for an `i64`, as `serde_json` represents it.
pub fn json_int(i: i64) -> (r: JsonValue)
    ensures
        r@ == jint(i),
{
    if i >= 0 {
        JsonValue::Number(JsonNumber::PosInt(i as u64))
    } else {
        JsonValue::Number(JsonNumber::NegInt(i))
    }
}

impl JsonView {
    /// `true` for an object.
    pub open spec fn is_object(self) -> bool {
        self is Object
    }

    /// An optional member of any type: absent or `null` is `None`.
    pub open spec fn field_opt(self, key: Seq<char>) -> Option<JsonView> {
        match self.get(key) {
            None => None,
            Some(JsonView::Null) => None,
            Some(x) => Some(x),
        }
    }
}

impl JsonValue {
    /// `true` when this is an object.
    pub fn is_object(&self) -> (r: bool)
        ensures
            r == self@.is_object(),
    {
        match self {
            JsonValue::Object(_) => true,
            _ => false,
        }
    }

    /// A copy of the optional member `key`: absent or `null` is `None`.
    pub fn field_opt(&self, key: &str) -> (r: Option<JsonValue>)
        ensures
            match r {
                Some(x) => self@.field_opt(key@) == Some(x@),
                None => self@.field_opt(key@) is None,
            },
    {
        match self.get(key) {
            None => None,
            Some(v) => match v {
                JsonValue::Null => None,
                _ => Some(v.clone_value()),
            },
        }
    }
}

/// The members of an object under construction, as views.
pub open spec fn fields_view(f: Seq<(String, JsonValue)>) -> Seq<(Seq<char>, JsonView)> {
    Seq::new(f.len(), |i: int| (f[i].0@, f[i].1@))
}

/// Appends the member `key: value`.
pub fn push_field(fields: &mut Vec<(String, JsonValue)>, key: &str, value: JsonValue)
    ensures
        fields_view(final(fields)@) == fields_view(old(fields)@).push((key@, value@)),
{
    fields.push((String::from_str(key), value));
    assert(fields_view(fields@) =~= fields_view(old(fields)@).push((key@, value@)));
}

/// The object with these members, in this order.
pub fn make_object(fields: Vec<(String, JsonValue)>) -> (r: JsonValue)
    ensures
        r@ == JsonView::Object(fields_view(fields@)),
{
    let r = JsonValue::Object(fields);
    assert(r@ =~= JsonView::Object(fields_view(fields@))) by {
        if let JsonView::Object(a) = r@ {
            assert(a =~= fields_view(fields@));
        }
    }
    r
}

/// A string value that takes `s`.
pub fn json_string(s: String) -> (r: JsonValue)
    ensures
        r@ == jstr(s@),
{
    JsonValue::Str(s)
}

/// The number `u`.
pub fn json_uint(u: u64) -> (r: JsonValue)
    ensures
        r@ == juint(u),
{
    JsonValue::Number(JsonNumber::PosInt(u))
}

/// The boolean `b`.
pub fn json_bool(b: bool) -> (r: JsonValue)
    ensures
        r@ == JsonView::Bool(b),
{
    JsonValue::Bool(b)
}

} // verus!
