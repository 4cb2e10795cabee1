//! Reading a JSON value as a record with typed fields, with the outcome and
//! the error texts of `serde_json::from_value` into a struct that derives
//! `Deserialize`: an object is read member by member in its order (unknown
//! members ignored, a repeated field refused), then absent fields are
//! reported in declaration order (an absent optional field is `None`); an
//! array is read position by position; anything else is refused.

use vstd::prelude::*;
use vstd::string::*;
use crate::json::{JsonValue, JsonView, JsonNumber, NumberView, assoc_get};
use crate::text::{decimal, signed_decimal, u64_to_decimal, i64_to_decimal, str_eq};

verus! {

/// The type of a record field.
#[derive(Debug, Clone, Copy)]
pub enum FieldKind {
    /// A string.
    Str,
    /// A `u32`.
    U32,
    /// A `u64`.
    U64,
    /// An `Option<u64>`.
    OptU64,
    /// A nested token-usage record (`input` and `output`, both `u64`).
    Tokens,
}

/// The text `format!("{:?}", s)` gives for the string `s`: `s` between double
/// quotes, with the escapes of `str`'s `Debug`.
pub uninterp spec fn str_debug(s: Seq<char>) -> Seq<char>;

/// Calls `<str as Debug>::fmt` through `format!("{:?}", s)`; the text is
/// named [`str_debug`], a function of `s` alone.
#[verifier::external_body]
fn debug_text(s: &str) -> (r: String)
    ensures
        r@ == str_debug(s@),
{
    format!("{:?}", s)
}

/// How an unexpected value is described in an error.
pub open spec fn unexpected(v: JsonView) -> Seq<char> {
    match v {
        JsonView::Null => "null"@,
        JsonView::Bool(b) => "boolean `"@ + (if b {
            "true"@
        } else {
            "false"@
        }) + "`"@,
        JsonView::Number(NumberView::PosInt(u)) => "integer `"@ + decimal(u as nat) + "`"@,
        JsonView::Number(NumberView::NegInt(i)) => "integer `"@ + signed_decimal(i as int) + "`"@,
        JsonView::Number(NumberView::Float(t)) => "floating point `"@ + t + "`"@,
        JsonView::Str(s) => "string "@ + str_debug(s),
        JsonView::Array(_) => "sequence"@,
        JsonView::Object(_) => "map"@,
    }
}

/// "invalid type: <unexpected>, expected <exp>".
pub open spec fn invalid_type(v: JsonView, exp: Seq<char>) -> Seq<char> {
    "invalid type: "@ + unexpected(v) + ", expected "@ + exp
}

/// "invalid value: <unexpected>, expected <exp>".
pub open spec fn invalid_value(v: JsonView, exp: Seq<char>) -> Seq<char> {
    "invalid value: "@ + unexpected(v) + ", expected "@ + exp
}

/// "invalid length <n>, expected <exp>".
pub open spec fn invalid_length(n: nat, exp: Seq<char>) -> Seq<char> {
    "invalid length "@ + decimal(n) + ", expected "@ + exp
}

/// Why `v` is not a string.
pub open spec fn str_error(v: JsonView) -> Option<Seq<char>> {
    match v {
        JsonView::Str(_) => None,
        _ => Some(invalid_type(v, "a string"@)),
    }
}

/// Why `v` is not a `u64`: a negative integer is an invalid value, anything
/// but an integer an invalid type.
pub open spec fn u64_error(v: JsonView) -> Option<Seq<char>> {
    match v {
        JsonView::Number(NumberView::PosInt(_)) => None,
        JsonView::Number(NumberView::NegInt(_)) => Some(invalid_value(v, "u64"@)),
        _ => Some(invalid_type(v, "u64"@)),
    }
}

/// Why `v` is not a `u32`: an integer out of range is an invalid value,
/// anything but an integer an invalid type.
pub open spec fn u32_error(v: JsonView) -> Option<Seq<char>> {
    match v {
        JsonView::Number(NumberView::PosInt(u)) => if u <= u32::MAX {
            None
        } else {
            Some(invalid_value(v, "u32"@))
        },
        JsonView::Number(NumberView::NegInt(_)) => Some(invalid_value(v, "u32"@)),
        _ => Some(invalid_type(v, "u32"@)),
    }
}

/// Why `v` is not a value of a field of kind `k` other than a nested record
/// (for which it says nothing).
pub open spec fn scalar_error(k: FieldKind, v: JsonView) -> Option<Seq<char>> {
    match k {
        FieldKind::Str => str_error(v),
        FieldKind::U32 => u32_error(v),
        FieldKind::U64 => u64_error(v),
        FieldKind::OptU64 => match v {
            JsonView::Null => None,
            _ => u64_error(v),
        },
        FieldKind::Tokens => None,
    }
}

/// The fields of a record: each name with its kind, in declaration order.
pub open spec fn table(f: Seq<(&str, FieldKind)>) -> Seq<(Seq<char>, FieldKind)> {
    Seq::new(f.len(), |i: int| (f[i].0@, f[i].1))
}

/// No two fields share a name.
pub open spec fn names_distinct(t: Seq<(Seq<char>, FieldKind)>) -> bool {
    forall|i: int, j: int| 0 <= i < t.len() && 0 <= j < t.len() && i != j ==> t[i].0 != t[j].0
}

/// The index of the first field named `k` from index `j` on.
pub open spec fn field_index(t: Seq<(Seq<char>, FieldKind)>, k: Seq<char>, j: int) -> Option<int>
    decreases t.len() - j,
{
    if j < 0 || j >= t.len() {
        None
    } else if t[j].0 == k {
        Some(j)
    } else {
        field_index(t, k, j + 1)
    }
}

/// Reading the members `m` of an object in order, with the fields `seen`
/// already read: the set of fields read, or the first error. A member that
/// names no field is skipped; a field named twice is a duplicate.
pub open spec fn scan(
    t: Seq<(Seq<char>, FieldKind)>,
    m: Seq<(Seq<char>, JsonView)>,
    seen: Set<Seq<char>>,
    elem: spec_fn(FieldKind, JsonView) -> Option<Seq<char>>,
) -> Result<Set<Seq<char>>, Seq<char>>
    decreases m.len(),
{
    if m.len() == 0 {
        Ok(seen)
    } else {
        let k = m[0].0;
        match field_index(t, k, 0) {
            None => scan(t, m.drop_first(), seen, elem),
            Some(j) => if seen.contains(k) {
                Err("duplicate field `"@ + k + "`"@)
            } else {
                match elem(t[j].1, m[0].1) {
                    Some(e) => Err(e),
                    None => scan(t, m.drop_first(), seen.insert(k), elem),
                }
            },
        }
    }
}

/// The first required field from index `j` on that was not read.
pub open spec fn first_absent(t: Seq<(Seq<char>, FieldKind)>, seen: Set<Seq<char>>, j: int) -> Option<Seq<char>>
    decreases t.len() - j,
{
    if j < 0 || j >= t.len() {
        None
    } else if !(t[j].1 is OptU64) && !seen.contains(t[j].0) {
        Some("missing field `"@ + t[j].0 + "`"@)
    } else {
        first_absent(t, seen, j + 1)
    }
}

/// The text for a record of `n` fields read from an array.
pub open spec fn with_elements(name: Seq<char>, n: nat) -> Seq<char> {
    "struct "@ + name + " with "@ + decimal(n) + (if n == 1 {
        " element"@
    } else {
        " elements"@
    })
}

/// Reading the items of an array as the fields from index `j` on.
pub open spec fn items_error(
    name: Seq<char>,
    t: Seq<(Seq<char>, FieldKind)>,
    items: Seq<JsonView>,
    elem: spec_fn(FieldKind, JsonView) -> Option<Seq<char>>,
    j: int,
) -> Option<Seq<char>>
    decreases t.len() - j,
{
    if j < 0 || j >= t.len() {
        if items.len() > t.len() {
            Some(invalid_length(items.len(), "fewer elements in array"@))
        } else {
            None
        }
    } else if j >= items.len() {
        Some(invalid_length(j as nat, with_elements(name, t.len())))
    } else {
        match elem(t[j].1, items[j]) {
            Some(e) => Some(e),
            None => items_error(name, t, items, elem, j + 1),
        }
    }
}

/// Why `v` does not read as the record `name` with fields `t`, each value
/// judged by `elem`; `None` when it reads.
pub open spec fn struct_error(
    name: Seq<char>,
    t: Seq<(Seq<char>, FieldKind)>,
    v: JsonView,
    elem: spec_fn(FieldKind, JsonView) -> Option<Seq<char>>,
) -> Option<Seq<char>> {
    match v {
        JsonView::Object(m) => match scan(t, m, Set::empty(), elem) {
            Err(e) => Some(e),
            Ok(seen) => first_absent(t, seen, 0),
        },
        JsonView::Array(items) => items_error(name, t, items, elem, 0),
        _ => Some(invalid_type(v, "struct "@ + name)),
    }
}

/// The value of field `key` at position `j`: the member `key` of an object,
/// the item `j` of an array.
pub open spec fn member(v: JsonView, key: Seq<char>, j: int) -> Option<JsonView> {
    match v {
        JsonView::Object(m) => assoc_get(m, key),
        JsonView::Array(items) => if 0 <= j < items.len() {
            Some(items[j])
        } else {
            None
        },
        _ => None,
    }
}

/// The fields of a token-usage record.
pub open spec fn token_fields() -> Seq<(Seq<char>, FieldKind)> {
    seq![("input"@, FieldKind::U64), ("output"@, FieldKind::U64)]
}

/// Judging values of fields that are not nested records.
pub open spec fn scalar_judge() -> spec_fn(FieldKind, JsonView) -> Option<Seq<char>> {
    |k: FieldKind, v: JsonView| scalar_error(k, v)
}

/// Why `v` does not read as a token-usage record.
pub open spec fn tokens_error(v: JsonView) -> Option<Seq<char>> {
    struct_error("TokenUsage"@, token_fields(), v, scalar_judge())
}

/// Judging values of fields of any kind.
pub open spec fn full_judge() -> spec_fn(FieldKind, JsonView) -> Option<Seq<char>> {
    |k: FieldKind, v: JsonView| match k {
        FieldKind::Tokens => tokens_error(v),
        _ => scalar_error(k, v),
    }
}

/// The judge a record's fields are read with: `full_judge` when a field may
/// be a nested record, else `scalar_judge`.
pub open spec fn judge(nested: bool) -> spec_fn(FieldKind, JsonView) -> Option<Seq<char>> {
    if nested {
        full_judge()
    } else {
        scalar_judge()
    }
}

/// The view of an optional text.
pub open spec fn text_opt(r: Option<String>) -> Option<Seq<char>> {
    match r {
        Some(s) => Some(s@),
        None => None,
    }
}

fn joined3(a: &str, b: &str, c: &str) -> (r: String)
    ensures
        r@ == a@ + b@ + c@,
{
    let mut s = String::from_str(a);
    s.append(b);
    s.append(c);
    s
}

/// The description of an unexpected value.
pub fn unexpected_text(v: &JsonValue) -> (r: String)
    ensures
        r@ == unexpected(v@),
{
    match v {
        JsonValue::Null => String::from_str("null"),
        JsonValue::Bool(b) => {
            if *b {
                joined3("boolean `", "true", "`")
            } else {
                joined3("boolean `", "false", "`")
            }
        },
        JsonValue::Number(JsonNumber::PosInt(u)) => {
            let d = u64_to_decimal(*u);
            joined3("integer `", d.as_str(), "`")
        },
        JsonValue::Number(JsonNumber::NegInt(i)) => {
            let d = i64_to_decimal(*i);
            joined3("integer `", d.as_str(), "`")
        },
        JsonValue::Number(JsonNumber::Float(t)) => joined3("floating point `", t.as_str(), "`"),
        JsonValue::Str(s) => {
            let d = debug_text(s.as_str());
            let mut r = String::from_str("string ");
            r.append(d.as_str());
            r
        },
        JsonValue::Array(_) => String::from_str("sequence"),
        JsonValue::Object(_) => String::from_str("map"),
    }
}

fn invalid_type_text(v: &JsonValue, exp: &str) -> (r: String)
    ensures
        r@ == invalid_type(v@, exp@),
{
    let u = unexpected_text(v);
    let mut s = String::from_str("invalid type: ");
    s.append(u.as_str());
    s.append(", expected ");
    s.append(exp);
    s
}

fn invalid_value_text(v: &JsonValue, exp: &str) -> (r: String)
    ensures
        r@ == invalid_value(v@, exp@),
{
    let u = unexpected_text(v);
    let mut s = String::from_str("invalid value: ");
    s.append(u.as_str());
    s.append(", expected ");
    s.append(exp);
    s
}

fn invalid_length_text(n: usize, exp: &str) -> (r: String)
    ensures
        r@ == invalid_length(n as nat, exp@),
{
    let d = u64_to_decimal(n as u64);
    let mut s = String::from_str("invalid length ");
    s.append(d.as_str());
    s.append(", expected ");
    s.append(exp);
    s
}

/// Checks a value of a field of kind `k` other than a nested record.
fn scalar_check(k: FieldKind, v: &JsonValue) -> (r: Option<String>)
    ensures
        text_opt(r) == scalar_error(k, v@),
{
    match k {
        FieldKind::Str => match v {
            JsonValue::Str(_) => None,
            _ => Some(invalid_type_text(v, "a string")),
        },
        FieldKind::U32 => match v {
            JsonValue::Number(JsonNumber::PosInt(u)) => {
                if *u <= 4294967295u64 {
                    None
                } else {
                    Some(invalid_value_text(v, "u32"))
                }
            },
            JsonValue::Number(JsonNumber::NegInt(_)) => Some(invalid_value_text(v, "u32")),
            _ => Some(invalid_type_text(v, "u32")),
        },
        FieldKind::U64 => match v {
            JsonValue::Number(JsonNumber::PosInt(_)) => None,
            JsonValue::Number(JsonNumber::NegInt(_)) => Some(invalid_value_text(v, "u64")),
            _ => Some(invalid_type_text(v, "u64")),
        },
        FieldKind::OptU64 => match v {
            JsonValue::Null => None,
            JsonValue::Number(JsonNumber::PosInt(_)) => None,
            JsonValue::Number(JsonNumber::NegInt(_)) => Some(invalid_value_text(v, "u64")),
            _ => Some(invalid_type_text(v, "u64")),
        },
        FieldKind::Tokens => None,
    }
}

/// The fields of a token-usage record.
pub fn token_table() -> (r: Vec<(&'static str, FieldKind)>)
    ensures
        table(r@) == token_fields(),
{
    let r = vec![("input", FieldKind::U64), ("output", FieldKind::U64)];
    assert(table(r@) =~= token_fields());
    r
}

/// The index of the first field named `key`.
fn find_field(fields: &Vec<(&'static str, FieldKind)>, key: &str) -> (r: Option<usize>)
    ensures
        match r {
            Some(j) => field_index(table(fields@), key@, 0) == Some(j as int),
            None => field_index(table(fields@), key@, 0) is None,
        },
{
    let mut j: usize = 0;
    while j < fields.len()
        invariant
            j <= fields@.len(),
            field_index(table(fields@), key@, 0) == field_index(table(fields@), key@, j as int),
        decreases fields@.len() - j,
    {
        if str_eq(fields[j].0, key) {
            return Some(j);
        }
        j = j + 1;
    }
    None
}

/// Checks a field value with the judge of `nested`.
fn elem_check(k: FieldKind, v: &JsonValue, nested: bool) -> (r: Option<String>)
    ensures
        text_opt(r) == (judge(nested))(k, v@),
    decreases 2 * (nested as int),
{
    match k {
        FieldKind::Tokens => {
            if nested {
                let t = token_table();
                proof {
                    lemma_token_names_distinct();
                }
                struct_check("TokenUsage", &t, v, false)
            } else {
                None
            }
        },
        _ => scalar_check(k, v),
    }
}

/// Checks that `v` reads as the record `name` with `fields`; the error if not.
pub fn struct_check(name: &str, fields: &Vec<(&'static str, FieldKind)>, v: &JsonValue, nested: bool) -> (r: Option<String>)
    requires
        names_distinct(table(fields@)),
    ensures
        text_opt(r) == struct_error(name@, table(fields@), v@, judge(nested)),
    decreases 2 * (nested as int) + 1,
{
    let ghost t = table(fields@);
    let ghost elem = judge(nested);
    match v {
        JsonValue::Object(members) => {
            let mut seen: Vec<bool> = Vec::new();
            let mut j: usize = 0;
            while j < fields.len()
                invariant
                    j <= fields@.len(),
                    seen@.len() == j,
                    forall|x: int| 0 <= x < j ==> !seen@[x],
                decreases fields@.len() - j,
            {
                seen.push(false);
                j = j + 1;
            }
            let ghost m = v@->Object_0;
            let ghost mut seen_set: Set<Seq<char>> = Set::empty();
            assert(m.skip(0) =~= m);
            let mut i: usize = 0;
            while i < members.len()
                invariant
                    t == table(fields@),
                    names_distinct(t),
                    elem == judge(nested),
                    v@ == JsonView::Object(m),
                    m.len() == members@.len(),
                    forall|x: int| 0 <= x < members@.len() ==> #[trigger] m[x] == (members@[x].0@, members@[x].1@),
                    i <= members@.len(),
                    seen@.len() == fields@.len(),
                    forall|x: int| 0 <= x < t.len() ==> (seen@[x] <==> seen_set.contains(#[trigger] t[x].0)),
                    forall|k: Seq<char>| seen_set.contains(k) ==> field_index(t, k, 0) is Some,
                    scan(t, m, Set::empty(), elem) == scan(t, m.skip(i as int), seen_set, elem),
                decreases members@.len() - i,
            {
                let ghost rest = m.skip(i as int);
                assert(rest[0] == m[i as int]);
                assert(rest.drop_first() =~= m.skip(i + 1));
                let key = members[i].0.as_str();
                match find_field(fields, key) {
                    None => {},
                    Some(jf) => {
                        proof {
                            lemma_field_index_at(t, key@, jf as int);
                        }
                        if seen[jf] {
                            let mut e = String::from_str("duplicate field `");
                            e.append(key);
                            e.append("`");
                            return Some(e);
                        }
                        match elem_check(fields[jf].1, &members[i].1, nested) {
                            Some(e) => return Some(e),
                            None => {},
                        }
                        seen.set(jf, true);
                        proof {
                            let old_set = seen_set;
                            seen_set = seen_set.insert(key@);
                            assert forall|x: int| 0 <= x < t.len() implies (seen@[x] <==> seen_set.contains(
                                #[trigger] t[x].0,
                            )) by {
                                if x != jf {
                                    assert(t[x].0 != t[jf as int].0);
                                }
                            }
                        }
                    },
                }
                i = i + 1;
            }
            assert(m.skip(i as int).len() == 0);
            assert(scan(t, m, Set::empty(), elem) == Ok::<Set<Seq<char>>, Seq<char>>(seen_set));
            let mut j: usize = 0;
            while j < fields.len()
                invariant
                    t == table(fields@),
                    elem == judge(nested),
                    v@ == JsonView::Object(m),
                    scan(t, m, Set::empty(), elem) == Ok::<Set<Seq<char>>, Seq<char>>(seen_set),
                    j <= fields@.len(),
                    seen@.len() == fields@.len(),
                    forall|x: int| 0 <= x < t.len() ==> (seen@[x] <==> seen_set.contains(#[trigger] t[x].0)),
                    first_absent(t, seen_set, 0) == first_absent(t, seen_set, j as int),
                decreases fields@.len() - j,
            {
                let optional = match fields[j].1 {
                    FieldKind::OptU64 => true,
                    _ => false,
                };
                assert(optional == (t[j as int].1 is OptU64));
                if !optional && !seen[j] {
                    assert(!seen_set.contains(t[j as int].0));
                    return Some(joined3("missing field `", fields[j].0, "`"));
                }
                j = j + 1;
            }
            None
        },
        JsonValue::Array(items) => {
            let ghost vi = v@->Array_0;
            let mut j: usize = 0;
            while j < fields.len()
                invariant
                    t == table(fields@),
                    elem == judge(nested),
                    v@ == JsonView::Array(vi),
                    vi.len() == items@.len(),
                    forall|x: int| 0 <= x < items@.len() ==> #[trigger] vi[x] == items@[x]@,
                    j <= fields@.len(),
                    items_error(name@, t, vi, elem, 0) == items_error(name@, t, vi, elem, j as int),
                decreases fields@.len() - j,
            {
                if j >= items.len() {
                    let n = u64_to_decimal(fields.len() as u64);
                    let mut exp = String::from_str("struct ");
                    exp.append(name);
                    exp.append(" with ");
                    exp.append(n.as_str());
                    if fields.len() == 1 {
                        exp.append(" element");
                    } else {
                        exp.append(" elements");
                    }
                    return Some(invalid_length_text(j, exp.as_str()));
                }
                match elem_check(fields[j].1, &items[j], nested) {
                    Some(e) => return Some(e),
                    None => {},
                }
                j = j + 1;
            }
            if items.len() > fields.len() {
                Some(invalid_length_text(items.len(), "fewer elements in array"))
            } else {
                None
            }
        },
        _ => {
            let mut exp = String::from_str("struct ");
            exp.append(name);
            Some(invalid_type_text(v, exp.as_str()))
        },
    }
}

proof fn lemma_token_names_distinct()
    ensures
        names_distinct(token_fields()),
{
    reveal_strlit("input");
    reveal_strlit("output");
    let t = token_fields();
    assert(t[0].0.len() != t[1].0.len());
}

/// `field_index` finds the field at `j` when names are distinct.
proof fn lemma_field_index_at(t: Seq<(Seq<char>, FieldKind)>, k: Seq<char>, j: int)
    requires
        field_index(t, k, 0) == Some(j),
    ensures
        0 <= j < t.len(),
        t[j].0 == k,
{
    lemma_field_index_from(t, k, 0, j);
}

proof fn lemma_field_index_from(t: Seq<(Seq<char>, FieldKind)>, k: Seq<char>, i: int, j: int)
    requires
        field_index(t, k, i) == Some(j),
    ensures
        i <= j < t.len(),
        0 <= j,
        t[j].0 == k,
    decreases t.len() - i,
{
    if 0 <= i < t.len() && t[i].0 != k {
        lemma_field_index_from(t, k, i + 1, j);
    }
}


/// With distinct names, the field named like field `j` is field `j`.
proof fn lemma_field_index_of(t: Seq<(Seq<char>, FieldKind)>, i: int, j: int)
    requires
        names_distinct(t),
        0 <= i <= j < t.len(),
    ensures
        field_index(t, t[j].0, i) == Some(j),
    decreases j - i,
{
    if i < j {
        lemma_field_index_of(t, i + 1, j);
    }
}

/// What a successful scan says of one field `k`: once read it has a member
/// that passed, the first member with its name; unread it has no member.
proof fn lemma_scan(
    t: Seq<(Seq<char>, FieldKind)>,
    m: Seq<(Seq<char>, JsonView)>,
    seen: Set<Seq<char>>,
    elem: spec_fn(FieldKind, JsonView) -> Option<Seq<char>>,
    fin: Set<Seq<char>>,
    k: Seq<char>,
    jk: int,
)
    requires
        scan(t, m, seen, elem) == Ok::<Set<Seq<char>>, Seq<char>>(fin),
        field_index(t, k, 0) == Some(jk),
    ensures
        forall|x: Seq<char>| seen.contains(x) ==> fin.contains(x),
        fin.contains(k) && !seen.contains(k) ==> (assoc_get(m, k) matches Some(x) && elem(t[jk].1, x) is None),
        !fin.contains(k) ==> assoc_get(m, k) is None,
    decreases m.len(),
{
    if m.len() > 0 {
        let k0 = m[0].0;
        match field_index(t, k0, 0) {
            None => {
                lemma_scan(t, m.drop_first(), seen, elem, fin, k, jk);
            },
            Some(j0) => {
                lemma_scan(t, m.drop_first(), seen.insert(k0), elem, fin, k, jk);
            },
        }
    }
}

/// A required field not reported absent was read.
proof fn lemma_first_absent(t: Seq<(Seq<char>, FieldKind)>, seen: Set<Seq<char>>, i: int, j: int)
    requires
        first_absent(t, seen, i) is None,
        0 <= i <= j < t.len(),
    ensures
        t[j].1 is OptU64 || seen.contains(t[j].0),
    decreases j - i,
{
    if i < j {
        lemma_first_absent(t, seen, i + 1, j);
    }
}

/// An array that reads has an item for each field, and it passed.
proof fn lemma_items(
    name: Seq<char>,
    t: Seq<(Seq<char>, FieldKind)>,
    items: Seq<JsonView>,
    elem: spec_fn(FieldKind, JsonView) -> Option<Seq<char>>,
    i: int,
    j: int,
)
    requires
        items_error(name, t, items, elem, i) is None,
        0 <= i <= j < t.len(),
    ensures
        j < items.len(),
        elem(t[j].1, items[j]) is None,
    decreases j - i,
{
    if i < j {
        lemma_items(name, t, items, elem, i + 1, j);
    }
}

/// In a value that reads as a record, each field's value passed its
/// judge, and only optional fields are absent.
pub proof fn lemma_struct_ok(
    name: Seq<char>,
    t: Seq<(Seq<char>, FieldKind)>,
    v: JsonView,
    elem: spec_fn(FieldKind, JsonView) -> Option<Seq<char>>,
    j: int,
)
    requires
        struct_error(name, t, v, elem) is None,
        names_distinct(t),
        0 <= j < t.len(),
    ensures
        match member(v, t[j].0, j) {
            Some(x) => elem(t[j].1, x) is None,
            None => t[j].1 is OptU64,
        },
{
    match v {
        JsonView::Object(m) => {
            let fin = scan(t, m, Set::empty(), elem)->Ok_0;
            lemma_field_index_of(t, 0, j);
            lemma_scan(t, m, Set::empty(), elem, fin, t[j].0, j);
            lemma_first_absent(t, fin, 0, j);
        },
        JsonView::Array(items) => {
            lemma_items(name, t, items, elem, 0, j);
        },
        _ => {},
    }
}


/// The value of field `key` at position `j` (see [`member`]).
pub fn member_ref<'a>(v: &'a JsonValue, key: &str, j: usize) -> (r: Option<&'a JsonValue>)
    ensures
        match r {
            Some(x) => member(v@, key@, j as int) == Some(x@),
            None => member(v@, key@, j as int) is None,
        },
{
    match v {
        JsonValue::Object(_) => v.get(key),
        JsonValue::Array(items) => {
            if j < items.len() {
                Some(&items[j])
            } else {
                None
            }
        },
        _ => None,
    }
}

/// The string field `key` at `j` of a value that reads with it.
pub fn take_str(v: &JsonValue, key: &str, j: usize) -> (r: String)
    requires
        member(v@, key@, j as int) matches Some(x) && str_error(x) is None,
    ensures
        member(v@, key@, j as int) == Some(JsonView::Str(r@)),
{
    match member_ref(v, key, j) {
        Some(JsonValue::Str(s)) => s.clone(),
        _ => String::new(),
    }
}

/// The `u32` field `key` at `j` of a value that reads with it.
pub fn take_u32(v: &JsonValue, key: &str, j: usize) -> (r: u32)
    requires
        member(v@, key@, j as int) matches Some(x) && u32_error(x) is None,
    ensures
        member(v@, key@, j as int) == Some(JsonView::Number(NumberView::PosInt(r as u64))),
{
    match member_ref(v, key, j) {
        Some(JsonValue::Number(JsonNumber::PosInt(u))) => {
            if *u <= 4294967295u64 {
                *u as u32
            } else {
                0
            }
        },
        _ => 0,
    }
}

/// The `u64` field `key` at `j` of a value that reads with it.
pub fn take_u64(v: &JsonValue, key: &str, j: usize) -> (r: u64)
    requires
        member(v@, key@, j as int) matches Some(x) && u64_error(x) is None,
    ensures
        member(v@, key@, j as int) == Some(JsonView::Number(NumberView::PosInt(r))),
{
    match member_ref(v, key, j) {
        Some(JsonValue::Number(JsonNumber::PosInt(u))) => *u,
        _ => 0,
    }
}

/// The optional `u64` field `key` at `j` of a value that reads with it:
/// absent or `null` is `None`.
pub fn take_opt_u64(v: &JsonValue, key: &str, j: usize) -> (r: Option<u64>)
    requires
        match member(v@, key@, j as int) {
            Some(x) => scalar_error(FieldKind::OptU64, x) is None,
            None => true,
        },
    ensures
        opt_u64_in(member(v@, key@, j as int), r),
{
    match member_ref(v, key, j) {
        Some(JsonValue::Number(JsonNumber::PosInt(u))) => Some(*u),
        _ => None,
    }
}

/// `r` is the optional `u64` that `m` holds: absent or `null` is `None`.
pub open spec fn opt_u64_in(m: Option<JsonView>, r: Option<u64>) -> bool {
    match r {
        Some(u) => m == Some(JsonView::Number(NumberView::PosInt(u))),
        None => m is None || m == Some(JsonView::Null),
    }
}

/// What a field value must be, and how a wrong one is reported: a string
/// field takes any string and reports anything else as an invalid type
/// against "a string"; a `u32` field takes integers from 0 to `u32::MAX`
/// and reports other integers as invalid values; a `u64` field takes every
/// non-negative integer and reports negative ones as invalid values; an
/// optional `u64` field also takes `null`.
pub proof fn law_field_value_errors(v: JsonView)
    ensures
        v is Str ==> str_error(v) is None,
        !(v is Str) ==> str_error(v) == Some("invalid type: "@ + unexpected(v) + ", expected "@ + "a string"@),
        v matches JsonView::Number(NumberView::PosInt(u)) ==> (u32_error(v) is None <==> u <= u32::MAX),
        v matches JsonView::Number(NumberView::PosInt(u)) ==> (u > u32::MAX ==> u32_error(v) == Some(
            "invalid value: "@ + ("integer `"@ + decimal(u as nat) + "`"@) + ", expected "@ + "u32"@,
        )),
        v matches JsonView::Number(NumberView::NegInt(i)) ==> u32_error(v) == Some(
            "invalid value: "@ + ("integer `"@ + signed_decimal(i as int) + "`"@) + ", expected "@ + "u32"@,
        ) && u64_error(v) == Some(
            "invalid value: "@ + ("integer `"@ + signed_decimal(i as int) + "`"@) + ", expected "@ + "u64"@,
        ),
        v matches JsonView::Number(NumberView::PosInt(_)) ==> u64_error(v) is None,
        !(v is Number) ==> u64_error(v) == Some("invalid type: "@ + unexpected(v) + ", expected "@ + "u64"@)
            && u32_error(v) == Some("invalid type: "@ + unexpected(v) + ", expected "@ + "u32"@),
        scalar_error(FieldKind::OptU64, JsonView::Null) is None,
        v matches JsonView::Str(t) ==> unexpected(v) == "string "@ + str_debug(t),
        v is Null ==> unexpected(v) == "null"@,
{
}

/// A value that is neither an object nor an array never reads as a record;
/// it is reported as an invalid type against "struct <name>".
pub proof fn law_record_needs_object_or_array(
    name: Seq<char>,
    t: Seq<(Seq<char>, FieldKind)>,
    v: JsonView,
    elem: spec_fn(FieldKind, JsonView) -> Option<Seq<char>>,
)
    requires
        !(v is Object),
        !(v is Array),
    ensures
        struct_error(name, t, v, elem) == Some("invalid type: "@ + unexpected(v) + ", expected "@ + ("struct "@ + name)),
{
}

} // verus!
