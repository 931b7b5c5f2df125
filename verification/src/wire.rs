//! Wire document model: a structured, JSON-shaped tree that the taxonomy
//! encodes into and decodes from. Numbers keep their integer identity
//! (`NumU`/`NumI`); a number that fits neither (for instance a fraction
//! embedded in pass-through content) is carried as its literal text.

use vstd::prelude::*;

use crate::error::RelayError;

verus! {

/// A wire document value.
#[derive(Debug, PartialEq, Eq)]
pub enum JsonValue {
    Null,
    Bool(bool),
    NumU(u64),
    NumI(i64),
    NumRaw(String),
    Str(String),
    Arr(Vec<JsonValue>),
    Obj(Vec<(String, JsonValue)>),
}

/// The mathematical model of a wire document value.
pub enum JsonV {
    Null,
    Bool(bool),
    NumU(u64),
    NumI(i64),
    NumRaw(Seq<char>),
    Str(Seq<char>),
    Arr(Seq<JsonV>),
    Obj(Seq<(Seq<char>, JsonV)>),
}

/// The model of a wire document value: the same tree with sequences in place
/// of vectors and character sequences in place of strings.
pub open spec fn json_view(v: JsonValue) -> JsonV
    decreases v, 0int,
    via json_view_decreases
{
    match v {
        JsonValue::Null => JsonV::Null,
        JsonValue::Bool(b) => JsonV::Bool(b),
        JsonValue::NumU(n) => JsonV::NumU(n),
        JsonValue::NumI(n) => JsonV::NumI(n),
        JsonValue::NumRaw(s) => JsonV::NumRaw(s@),
        JsonValue::Str(s) => JsonV::Str(s@),
        JsonValue::Arr(items) => JsonV::Arr(json_view_seq(items@)),
        JsonValue::Obj(fields) => JsonV::Obj(json_view_fields(fields@)),
    }
}

/// The models of a sequence of wire document values, element by element.
pub open spec fn json_view_seq(s: Seq<JsonValue>) -> Seq<JsonV>
    decreases s, s.len(),
    via json_view_seq_decreases
{
    if s.len() == 0 {
        Seq::empty()
    } else {
        json_view_seq(s.drop_last()).push(json_view(s.last()))
    }
}

/// The models of a sequence of named wire document fields, element by element.
pub open spec fn json_view_fields(s: Seq<(String, JsonValue)>) -> Seq<(Seq<char>, JsonV)>
    decreases s, s.len(),
    via json_view_fields_decreases
{
    if s.len() == 0 {
        Seq::empty()
    } else {
        json_view_fields(s.drop_last()).push((s.last().0@, json_view(s.last().1)))
    }
}

#[via_fn]
proof fn json_view_decreases(v: JsonValue) {
    match v {
        JsonValue::Arr(items) => {
            assert(decreases_to!(v => items));
            assert(decreases_to!(items => items@));
        },
        JsonValue::Obj(fields) => {
            assert(decreases_to!(v => fields));
            assert(decreases_to!(fields => fields@));
        },
        _ => {},
    }
}

#[via_fn]
proof fn json_view_seq_decreases(s: Seq<JsonValue>) {
    if s.len() > 0 {
        vstd::seq::axiom_seq_subrange_decreases(s, 0, s.len() - 1);
        assert(s.drop_last() == s.subrange(0, s.len() - 1));
        assert(decreases_to!(s => s[s.len() - 1]));
    }
}

#[via_fn]
proof fn json_view_fields_decreases(s: Seq<(String, JsonValue)>) {
    if s.len() > 0 {
        vstd::seq::axiom_seq_subrange_decreases(s, 0, s.len() - 1);
        assert(s.drop_last() == s.subrange(0, s.len() - 1));
        assert(decreases_to!(s => s[s.len() - 1]));
        assert(decreases_to!(s[s.len() - 1] => s[s.len() - 1].1));
    }
}

impl DeepView for JsonValue {
    type V = JsonV;

    open spec fn deep_view(&self) -> JsonV {
        json_view(*self)
    }
}

impl View for JsonValue {
    type V = JsonV;

    open spec fn view(&self) -> JsonV {
        json_view(*self)
    }
}



/// First value under a field name in an object's field list.
pub open spec fn lookup(fields: Seq<(Seq<char>, JsonV)>, name: Seq<char>) -> Option<JsonV>
    decreases fields.len(),
{
    if fields.len() == 0 {
        Option::None
    } else if fields[0].0 == name {
        Option::Some(fields[0].1)
    } else {
        lookup(fields.drop_first(), name)
    }
}

/// The model of a field list is element-for-element the model of its pairs.
pub proof fn lemma_fields_view_index(s: Seq<(String, JsonValue)>)
    ensures
        json_view_fields(s).len() == s.len(),
        forall|i: int|
            0 <= i < s.len() ==> #[trigger] json_view_fields(s)[i] == (s[i].0@, json_view(s[i].1)),
    decreases s.len(),
{
    if s.len() > 0 {
        lemma_fields_view_index(s.drop_last());
    }
}

/// The model of a value list is element-for-element the model of its values.
pub proof fn lemma_seq_view_index(s: Seq<JsonValue>)
    ensures
        json_view_seq(s).len() == s.len(),
        forall|i: int| 0 <= i < s.len() ==> #[trigger] json_view_seq(s)[i] == json_view(s[i]),
    decreases s.len(),
{
    if s.len() > 0 {
        lemma_seq_view_index(s.drop_last());
    }
}

/// Exact string equality, through owned copies.
pub(crate) fn str_eqx(a: &str, b: &str) -> (r: bool)
    ensures
        r == (a@ == b@),
{
    let aa = a.to_owned();
    let bb = b.to_owned();
    aa == bb
}

/// A decoding failure naming the field or value that did not fit.
pub(crate) fn decode_error(what: &str) -> (e: RelayError)
    ensures
        e is Parse,
        e->Parse_cause is None,
{
    let mut msg = String::from_str("missing or invalid wire field: ");
    msg.append(what);
    RelayError::Parse { message: msg, cause: Option::None }
}

/// Borrows the first value under a field name.
pub(crate) fn obj_get<'a>(fields: &'a Vec<(String, JsonValue)>, name: &str) -> (r: Option<&'a JsonValue>)
    ensures
        match r {
            Option::Some(v) => lookup(json_view_fields(fields@), name@) == Option::Some(
                json_view(*v),
            ),
            Option::None => lookup(json_view_fields(fields@), name@) is None,
        },
{
    let ghost vf = json_view_fields(fields@);
    proof {
        lemma_fields_view_index(fields@);
        assert(vf.skip(0) =~= vf);
    }
    let n = fields.len();
    let mut i: usize = 0;
    while i < n
        invariant
            n == fields.len(),
            0 <= i <= n,
            vf == json_view_fields(fields@),
            vf.len() == n,
            forall|k: int| 0 <= k < n ==> #[trigger] vf[k] == (fields@[k].0@, json_view(fields@[k].1)),
            lookup(vf, name@) == lookup(vf.skip(i as int), name@),
        decreases n - i,
    {
        proof {
            assert(vf.skip(i as int)[0] == vf[i as int]);
        }
        if str_eqx(fields[i].0.as_str(), name) {
            return Option::Some(&fields[i].1);
        }
        proof {
            assert(vf.skip(i as int).drop_first() =~= vf.skip(i as int + 1));
        }
        i += 1;
    }
    proof {
        assert(vf.skip(n as int).len() == 0);
    }
    Option::None
}

/// The string payload under a field name, where the field holds a string.
pub open spec fn spec_get_str(fields: Seq<(Seq<char>, JsonV)>, name: Seq<char>) -> Option<
    Seq<char>,
> {
    match lookup(fields, name) {
        Option::Some(JsonV::Str(s)) => Option::Some(s),
        _ => Option::None,
    }
}

pub(crate) fn get_str_field(fields: &Vec<(String, JsonValue)>, name: &str) -> (r: Result<String, RelayError>)
    ensures
        r is Ok ==> spec_get_str(json_view_fields(fields@), name@) == Option::Some(r->Ok_0@),
        r is Err ==> spec_get_str(json_view_fields(fields@), name@) is None && r->Err_0 is Parse,
{
    match obj_get(fields, name) {
        Option::Some(v) => match v {
            JsonValue::Str(s) => Result::Ok(s.clone()),
            _ => Result::Err(decode_error(name)),
        },
        Option::None => Result::Err(decode_error(name)),
    }
}

/// The optional string under a field name: an absent field or a null reads
/// as no value.
pub open spec fn spec_get_opt_str(fields: Seq<(Seq<char>, JsonV)>, name: Seq<char>) -> Option<
    Option<Seq<char>>,
> {
    match lookup(fields, name) {
        Option::None => Option::Some(Option::None),
        Option::Some(JsonV::Null) => Option::Some(Option::None),
        Option::Some(JsonV::Str(s)) => Option::Some(Option::Some(s)),
        _ => Option::None,
    }
}

pub(crate) fn get_opt_str_field(fields: &Vec<(String, JsonValue)>, name: &str) -> (r: Result<
    Option<String>,
    RelayError,
>)
    ensures
        r is Ok ==> spec_get_opt_str(json_view_fields(fields@), name@) == Option::Some(
            r->Ok_0.deep_view(),
        ),
        r is Err ==> spec_get_opt_str(json_view_fields(fields@), name@) is None && r->Err_0
            is Parse,
{
    match obj_get(fields, name) {
        Option::Some(v) => match v {
            JsonValue::Str(s) => Result::Ok(Option::Some(s.clone())),
            JsonValue::Null => Result::Ok(Option::None),
            _ => Result::Err(decode_error(name)),
        },
        Option::None => Result::Ok(Option::None),
    }
}

/// The unsigned number under a field name; a signed spelling of a
/// non-negative number reads the same.
pub open spec fn spec_get_u64(fields: Seq<(Seq<char>, JsonV)>, name: Seq<char>) -> Option<u64> {
    match lookup(fields, name) {
        Option::Some(JsonV::NumU(n)) => Option::Some(n),
        Option::Some(JsonV::NumI(n)) => if n >= 0 {
            Option::Some(n as u64)
        } else {
            Option::None
        },
        _ => Option::None,
    }
}

pub(crate) fn get_u64_field(fields: &Vec<(String, JsonValue)>, name: &str) -> (r: Result<u64, RelayError>)
    ensures
        r is Ok ==> spec_get_u64(json_view_fields(fields@), name@) == Option::Some(r->Ok_0),
        r is Err ==> spec_get_u64(json_view_fields(fields@), name@) is None && r->Err_0 is Parse,
{
    match obj_get(fields, name) {
        Option::Some(v) => match v {
            JsonValue::NumU(n) => Result::Ok(*n),
            JsonValue::NumI(n) => if *n >= 0 {
                Result::Ok(*n as u64)
            } else {
                Result::Err(decode_error(name))
            },
            _ => Result::Err(decode_error(name)),
        },
        Option::None => Result::Err(decode_error(name)),
    }
}

/// The signed number under a field name; an unsigned spelling within signed
/// range reads the same.
pub open spec fn spec_get_i64(fields: Seq<(Seq<char>, JsonV)>, name: Seq<char>) -> Option<i64> {
    match lookup(fields, name) {
        Option::Some(JsonV::NumI(n)) => Option::Some(n),
        Option::Some(JsonV::NumU(n)) => if n <= i64::MAX as u64 {
            Option::Some(n as i64)
        } else {
            Option::None
        },
        _ => Option::None,
    }
}

pub(crate) fn get_i64_field(fields: &Vec<(String, JsonValue)>, name: &str) -> (r: Result<i64, RelayError>)
    ensures
        r is Ok ==> spec_get_i64(json_view_fields(fields@), name@) == Option::Some(r->Ok_0),
        r is Err ==> spec_get_i64(json_view_fields(fields@), name@) is None && r->Err_0 is Parse,
{
    match obj_get(fields, name) {
        Option::Some(v) => match v {
            JsonValue::NumI(n) => Result::Ok(*n),
            JsonValue::NumU(n) => if *n <= 9223372036854775807u64 {
                Result::Ok(*n as i64)
            } else {
                Result::Err(decode_error(name))
            },
            _ => Result::Err(decode_error(name)),
        },
        Option::None => Result::Err(decode_error(name)),
    }
}

/// The optional boolean under a field name: an absent field or a null reads
/// as no value.
pub open spec fn spec_get_opt_bool(fields: Seq<(Seq<char>, JsonV)>, name: Seq<char>) -> Option<
    Option<bool>,
> {
    match lookup(fields, name) {
        Option::None => Option::Some(Option::None),
        Option::Some(JsonV::Null) => Option::Some(Option::None),
        Option::Some(JsonV::Bool(b)) => Option::Some(Option::Some(b)),
        _ => Option::None,
    }
}

pub(crate) fn get_opt_bool_field(fields: &Vec<(String, JsonValue)>, name: &str) -> (r: Result<
    Option<bool>,
    RelayError,
>)
    ensures
        r is Ok ==> spec_get_opt_bool(json_view_fields(fields@), name@) == Option::Some(r->Ok_0),
        r is Err ==> spec_get_opt_bool(json_view_fields(fields@), name@) is None && r->Err_0
            is Parse,
{
    match obj_get(fields, name) {
        Option::Some(v) => match v {
            JsonValue::Bool(b) => Result::Ok(Option::Some(*b)),
            JsonValue::Null => Result::Ok(Option::None),
            _ => Result::Err(decode_error(name)),
        },
        Option::None => Result::Ok(Option::None),
    }
}



/// A deep copy of a wire document value, identical in model.
pub fn json_clone(v: &JsonValue) -> (r: JsonValue)
    ensures
        json_view(r) == json_view(*v),
    decreases *v,
{
    match v {
        JsonValue::Null => JsonValue::Null,
        JsonValue::Bool(b) => JsonValue::Bool(*b),
        JsonValue::NumU(n) => JsonValue::NumU(*n),
        JsonValue::NumI(n) => JsonValue::NumI(*n),
        JsonValue::NumRaw(s) => JsonValue::NumRaw(s.clone()),
        JsonValue::Str(s) => JsonValue::Str(s.clone()),
        JsonValue::Arr(items) => {
            let n = items.len();
            let mut out: Vec<JsonValue> = Vec::new();
            let mut i: usize = 0;
            while i < n
                invariant
                    *v == JsonValue::Arr(*items),
                    n == items.len(),
                    0 <= i <= n,
                    out@.len() == i,
                    forall|k: int|
                        0 <= k < i ==> #[trigger] json_view(out@[k]) == json_view(items@[k]),
                decreases n - i,
            {
                proof {
                    assert(*items == v->Arr_0);
                    assert(decreases_to!(*v => v->Arr_0));
                    assert(decreases_to!(*items => items@));
                    assert(decreases_to!(items@ => items@[i as int]));
                }
                let c = json_clone(&items[i]);
                out.push(c);
                i += 1;
            }
            proof {
                lemma_seq_view_index(out@);
                lemma_seq_view_index(items@);
                assert(json_view_seq(out@) =~= json_view_seq(items@));
            }
            JsonValue::Arr(out)
        },
        JsonValue::Obj(fields) => {
            let n = fields.len();
            let mut out: Vec<(String, JsonValue)> = Vec::new();
            let mut i: usize = 0;
            while i < n
                invariant
                    *v == JsonValue::Obj(*fields),
                    n == fields.len(),
                    0 <= i <= n,
                    out@.len() == i,
                    forall|k: int|
                        0 <= k < i ==> #[trigger] out@[k].0@ == fields@[k].0@ && json_view(
                            out@[k].1,
                        ) == json_view(fields@[k].1),
                decreases n - i,
            {
                proof {
                    assert(*fields == v->Obj_0);
                    assert(decreases_to!(*v => v->Obj_0));
                    assert(decreases_to!(*fields => fields@));
                    assert(decreases_to!(fields@ => fields@[i as int]));
                    assert(decreases_to!(fields@[i as int] => fields@[i as int].1));
                }
                let name = fields[i].0.clone();
                let c = json_clone(&fields[i].1);
                out.push((name, c));
                i += 1;
            }
            proof {
                lemma_fields_view_index(out@);
                lemma_fields_view_index(fields@);
                assert(json_view_fields(out@) =~= json_view_fields(fields@));
            }
            JsonValue::Obj(out)
        },
    }
}

} // verus!
