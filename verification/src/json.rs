//! The codec's picture of a JSON document: a tree of values, with objects as
//! key/value pair lists, and verified field lookup over such objects.
//!
//! Wire payloads carry only what the schema needs: null, booleans, 64-bit
//! signed integers, strings, arrays and objects. Field order inside an object
//! is insignificant for lookup (the first binding of a key wins), but the
//! encoder emits each record's fields in a fixed order so output is stable.

use vstd::prelude::*;

use crate::errors::DecodeErrView;
use crate::errors::DecodeError;
use crate::errors::FieldKind;

verus! {

/// An in-memory JSON value.
#[derive(Debug, PartialEq)]
pub enum JsonValue {
    Null,
    Bool(bool),
    Int(i64),
    Str(String),
    Arr(Vec<JsonValue>),
    Obj(Vec<(String, JsonValue)>),
}

/// Mathematical model of a [`JsonValue`].
pub enum JsonView {
    Null,
    Bool(bool),
    Int(i64),
    Str(Seq<char>),
    Arr(Seq<JsonView>),
    Obj(Seq<(Seq<char>, JsonView)>),
}

/// The model of a value tree.
pub open spec fn json_view(v: JsonValue) -> JsonView
    decreases v,
{
    match v {
        JsonValue::Null => JsonView::Null,
        JsonValue::Bool(b) => JsonView::Bool(b),
        JsonValue::Int(i) => JsonView::Int(i),
        JsonValue::Str(s) => JsonView::Str(s@),
        JsonValue::Arr(items) => JsonView::Arr(json_view_seq(items@)),
        JsonValue::Obj(fields) => JsonView::Obj(json_view_fields(fields@)),
    }
}

/// The models of the elements of an array, in order.
pub open spec fn json_view_seq(items: Seq<JsonValue>) -> Seq<JsonView>
    decreases items,
{
    if items.len() == 0 {
        Seq::empty()
    } else {
        seq![json_view(items[0])] + json_view_seq(items.drop_first())
    }
}

/// The models of an object's field bindings, in order.
pub open spec fn json_view_fields(fields: Seq<(String, JsonValue)>) -> Seq<
    (Seq<char>, JsonView),
>
    decreases fields,
{
    if fields.len() == 0 {
        Seq::empty()
    } else {
        seq![(fields[0].0@, json_view(fields[0].1))] + json_view_fields(fields.drop_first())
    }
}

impl DeepView for JsonValue {
    type V = JsonView;

    open spec fn deep_view(&self) -> JsonView {
        json_view(*self)
    }
}

/// An array's model has one element per array element, in order.
pub proof fn lemma_json_view_seq(items: Seq<JsonValue>)
    ensures
        json_view_seq(items).len() == items.len(),
        forall|i: int|
            0 <= i < items.len() ==> json_view_seq(items)[i] == json_view(#[trigger] items[i]),
    decreases items,
{
    if items.len() > 0 {
        lemma_json_view_seq(items.drop_first());
        assert forall|i: int| 0 <= i < items.len() implies json_view_seq(items)[i] == json_view(
            #[trigger] items[i],
        ) by {
            if i > 0 {
                assert(items.drop_first()[i - 1] == items[i]);
                assert(json_view_seq(items)[i] == json_view_seq(items.drop_first())[i - 1]);
            }
        }
    }
}

/// An object's model binds, in order, each key's characters to the model of
/// the key's value.
pub proof fn lemma_json_view_fields(fields: Seq<(String, JsonValue)>)
    ensures
        json_view_fields(fields).len() == fields.len(),
        forall|i: int|
            0 <= i < fields.len() ==> json_view_fields(fields)[i] == ((#[trigger] fields[i]).0@,
            json_view(fields[i].1)),
    decreases fields,
{
    if fields.len() > 0 {
        lemma_json_view_fields(fields.drop_first());
        assert forall|i: int| 0 <= i < fields.len() implies json_view_fields(fields)[i] == ((
        #[trigger] fields[i]).0@, json_view(fields[i].1)) by {
            if i > 0 {
                assert(fields.drop_first()[i - 1] == fields[i]);
                assert(json_view_fields(fields)[i] == json_view_fields(fields.drop_first())[i
                    - 1]);
            }
        }
    }
}

/// The value bound to `key` in an object's field list: the first binding
/// wins, `None` if the key is absent.
pub open spec fn jlookup(fields: Seq<(Seq<char>, JsonView)>, key: Seq<char>) -> Option<JsonView>
    decreases fields.len(),
{
    if fields.len() == 0 {
        None
    } else if fields[0].0 == key {
        Some(fields[0].1)
    } else {
        jlookup(fields.drop_first(), key)
    }
}

/// Looking a key up in a non-empty field list whose head binds another key
/// continues in the tail.
pub proof fn lemma_jlookup_step(fields: Seq<(Seq<char>, JsonView)>, key: Seq<char>)
    requires
        fields.len() > 0,
        fields[0].0 != key,
    ensures
        jlookup(fields, key) == jlookup(fields.drop_first(), key),
{
}

/// Looking a key up finds the first entry binding it: when the entries
/// before position `k` bind other keys and the entry at `k` binds `key`,
/// the lookup yields that entry's value.
pub proof fn lemma_jlookup_at(fields: Seq<(Seq<char>, JsonView)>, key: Seq<char>, k: int)
    requires
        0 <= k < fields.len(),
        forall|i: int| 0 <= i < k ==> (#[trigger] fields[i]).0 != key,
        fields[k].0 == key,
    ensures
        jlookup(fields, key) == Some(fields[k].1),
    decreases k,
{
    if k > 0 {
        lemma_jlookup_step(fields, key);
        assert forall|i: int| 0 <= i < k - 1 implies (#[trigger] fields.drop_first()[i]).0
            != key by {
            assert(fields.drop_first()[i] == fields[i + 1]);
        }
        assert(fields.drop_first()[k - 1] == fields[k]);
        lemma_jlookup_at(fields.drop_first(), key, k - 1);
    }
}

/// Whether two strings hold the same characters.
pub fn str_eq(a: &String, b: &str) -> (r: bool)
    ensures
        r == (a@ == b@),
{
    let bs = <String as vstd::string::StringExecFns>::from_str(b);
    *a == bs
}

/// Looks `key` up in an object's field list; the first binding wins.
pub fn obj_get<'a>(fields: &'a Vec<(String, JsonValue)>, key: &str) -> (r: Option<
    &'a JsonValue,
>)
    ensures
        match r {
            Some(v) => jlookup(json_view_fields(fields@), key@) == Some(v.deep_view()),
            None => jlookup(json_view_fields(fields@), key@) is None,
        },
{
    let ghost all = json_view_fields(fields@);
    proof {
        lemma_json_view_fields(fields@);
        assert(all.skip(0) =~= all);
    }
    let mut i: usize = 0;
    while i < fields.len()
        invariant
            i <= fields.len(),
            all == json_view_fields(fields@),
            all.len() == fields.len(),
            forall|k: int|
                0 <= k < fields.len() ==> all[k] == ((#[trigger] fields@[k]).0@, json_view(
                    fields@[k].1,
                )),
            jlookup(all, key@) == jlookup(all.skip(i as int), key@),
        decreases fields.len() - i,
    {
        proof {
            assert(all.skip(i as int).len() == all.len() - i);
            assert(all.skip(i as int)[0] == all[i as int]);
        }
        if str_eq(&fields[i].0, key) {
            return Some(&fields[i].1);
        }
        proof {
            assert(all.skip(i as int).drop_first() =~= all.skip(i as int + 1));
        }
        i = i + 1;
    }
    proof {
        assert(all.skip(i as int).len() == 0);
    }
    None
}

/// Turns borrowed text into an owned string with the same characters.
pub fn str_to_string(s: &str) -> (r: String)
    ensures
        r@ == s@,
{
    <String as vstd::string::StringExecFns>::from_str(s)
}

/// What reading a required 64-bit integer field yields: the integer, or
/// `MissingField` when the key is absent, or `TypeMismatch` when the key is
/// bound to a value of another kind.
pub open spec fn spec_get_i64(fields: Seq<(Seq<char>, JsonView)>, key: Seq<char>) -> Result<
    i64,
    DecodeErrView,
> {
    match jlookup(fields, key) {
        Option::None => Err(DecodeErrView::MissingField(key)),
        Option::Some(JsonView::Int(i)) => Ok(i),
        Option::Some(_) => Err(DecodeErrView::TypeMismatch(key, FieldKind::Int)),
    }
}

/// Reads a required 64-bit integer field.
pub fn get_i64(fields: &Vec<(String, JsonValue)>, key: &str) -> (r: Result<i64, DecodeError>)
    ensures
        crate::errors::res_view(r) == spec_get_i64(json_view_fields(fields@), key@),
{
    match obj_get(fields, key) {
        Option::None => Err(DecodeError::MissingField(str_to_string(key))),
        Option::Some(JsonValue::Int(i)) => Ok(*i),
        Option::Some(_) => Err(DecodeError::TypeMismatch(str_to_string(key), FieldKind::Int)),
    }
}

/// What reading a required boolean field yields.
pub open spec fn spec_get_bool(fields: Seq<(Seq<char>, JsonView)>, key: Seq<char>) -> Result<
    bool,
    DecodeErrView,
> {
    match jlookup(fields, key) {
        Option::None => Err(DecodeErrView::MissingField(key)),
        Option::Some(JsonView::Bool(b)) => Ok(b),
        Option::Some(_) => Err(DecodeErrView::TypeMismatch(key, FieldKind::Bool)),
    }
}

/// Reads a required boolean field.
pub fn get_bool(fields: &Vec<(String, JsonValue)>, key: &str) -> (r: Result<bool, DecodeError>)
    ensures
        crate::errors::res_view(r) == spec_get_bool(json_view_fields(fields@), key@),
{
    match obj_get(fields, key) {
        Option::None => Err(DecodeError::MissingField(str_to_string(key))),
        Option::Some(JsonValue::Bool(b)) => Ok(*b),
        Option::Some(_) => Err(DecodeError::TypeMismatch(str_to_string(key), FieldKind::Bool)),
    }
}

/// What reading a required string field yields.
pub open spec fn spec_get_str(fields: Seq<(Seq<char>, JsonView)>, key: Seq<char>) -> Result<
    Seq<char>,
    DecodeErrView,
> {
    match jlookup(fields, key) {
        Option::None => Err(DecodeErrView::MissingField(key)),
        Option::Some(JsonView::Str(s)) => Ok(s),
        Option::Some(_) => Err(DecodeErrView::TypeMismatch(key, FieldKind::Str)),
    }
}

/// Reads a required string field, copying it out of the payload.
pub fn get_str(fields: &Vec<(String, JsonValue)>, key: &str) -> (r: Result<String, DecodeError>)
    ensures
        crate::errors::res_view(r) == spec_get_str(json_view_fields(fields@), key@),
{
    match obj_get(fields, key) {
        Option::None => Err(DecodeError::MissingField(str_to_string(key))),
        Option::Some(JsonValue::Str(s)) => Ok(s.clone()),
        Option::Some(_) => Err(DecodeError::TypeMismatch(str_to_string(key), FieldKind::Str)),
    }
}

/// What reading a required nested-object field yields: the object's model.
pub open spec fn spec_get_obj(fields: Seq<(Seq<char>, JsonView)>, key: Seq<char>) -> Result<
    JsonView,
    DecodeErrView,
> {
    match jlookup(fields, key) {
        Option::None => Err(DecodeErrView::MissingField(key)),
        Option::Some(JsonView::Obj(inner)) => Ok(JsonView::Obj(inner)),
        Option::Some(_) => Err(DecodeErrView::TypeMismatch(key, FieldKind::Obj)),
    }
}

/// Reads a required nested-object field, handing back the object value.
pub fn get_obj<'a>(fields: &'a Vec<(String, JsonValue)>, key: &str) -> (r: Result<
    &'a JsonValue,
    DecodeError,
>)
    ensures
        crate::errors::res_view(r) == spec_get_obj(json_view_fields(fields@), key@),
        r is Ok ==> r->Ok_0 is Obj,
{
    match obj_get(fields, key) {
        Option::None => Err(DecodeError::MissingField(str_to_string(key))),
        Option::Some(v) => match v {
            JsonValue::Obj(_) => Ok(v),
            _ => Err(DecodeError::TypeMismatch(str_to_string(key), FieldKind::Obj)),
        },
    }
}

/// What reading an optional nested-object field yields: `None` when the key
/// is entirely absent, never a default value.
pub open spec fn spec_get_opt_obj(fields: Seq<(Seq<char>, JsonView)>, key: Seq<char>) -> Result<
    Option<JsonView>,
    DecodeErrView,
> {
    match jlookup(fields, key) {
        Option::None => Ok(Option::None),
        Option::Some(JsonView::Obj(inner)) => Ok(Option::Some(JsonView::Obj(inner))),
        Option::Some(_) => Err(DecodeErrView::TypeMismatch(key, FieldKind::Obj)),
    }
}

/// Reads an optional nested-object field; an absent key decodes to `None`.
pub fn get_opt_obj<'a>(fields: &'a Vec<(String, JsonValue)>, key: &str) -> (r: Result<
    Option<&'a JsonValue>,
    DecodeError,
>)
    ensures
        (match r {
            Ok(opt) => spec_get_opt_obj(json_view_fields(fields@), key@) == Ok::<
                _,
                DecodeErrView,
            >(opt.deep_view()),
            Err(e) => spec_get_opt_obj(json_view_fields(fields@), key@) == Err::<
                Option<JsonView>,
                _,
            >(e.deep_view()),
        }),
        r matches Ok(Some(v)) ==> v is Obj,
{
    match obj_get(fields, key) {
        Option::None => Ok(Option::None),
        Option::Some(v) => match v {
            JsonValue::Obj(_) => Ok(Option::Some(v)),
            _ => Err(DecodeError::TypeMismatch(str_to_string(key), FieldKind::Obj)),
        },
    }
}

/// What reading a required array field yields: the element models, in order.
pub open spec fn spec_get_arr(fields: Seq<(Seq<char>, JsonView)>, key: Seq<char>) -> Result<
    Seq<JsonView>,
    DecodeErrView,
> {
    match jlookup(fields, key) {
        Option::None => Err(DecodeErrView::MissingField(key)),
        Option::Some(JsonView::Arr(items)) => Ok(items),
        Option::Some(_) => Err(DecodeErrView::TypeMismatch(key, FieldKind::Arr)),
    }
}

/// Reads a required array field, handing back the elements.
pub fn get_arr<'a>(fields: &'a Vec<(String, JsonValue)>, key: &str) -> (r: Result<
    &'a Vec<JsonValue>,
    DecodeError,
>)
    ensures
        (match r {
            Ok(items) => spec_get_arr(json_view_fields(fields@), key@) == Ok::<
                _,
                DecodeErrView,
            >(json_view_seq(items@)),
            Err(e) => spec_get_arr(json_view_fields(fields@), key@) == Err::<Seq<JsonView>, _>(
                e.deep_view(),
            ),
        }),
{
    match obj_get(fields, key) {
        Option::None => Err(DecodeError::MissingField(str_to_string(key))),
        Option::Some(JsonValue::Arr(items)) => Ok(items),
        Option::Some(_) => Err(DecodeError::TypeMismatch(str_to_string(key), FieldKind::Arr)),
    }
}

/// The wire tag of an object: the string bound to the discriminator key
/// `@type`, if the value is an object carrying one.
pub open spec fn spec_tag(j: JsonView) -> Option<Seq<char>> {
    match j {
        JsonView::Obj(fields) => match jlookup(fields, "@type"@) {
            Option::Some(JsonView::Str(t)) => Option::Some(t),
            _ => Option::None,
        },
        _ => Option::None,
    }
}

/// Reads the discriminator field of an object's field list.
pub fn tag_of<'a>(fields: &'a Vec<(String, JsonValue)>) -> (r: Option<&'a String>)
    ensures
        match r {
            Some(t) => spec_tag(JsonView::Obj(json_view_fields(fields@))) == Some(t@),
            None => spec_tag(JsonView::Obj(json_view_fields(fields@))) is None,
        },
{
    match obj_get(fields, "@type") {
        Option::Some(JsonValue::Str(t)) => Option::Some(t),
        _ => Option::None,
    }
}

} // verus!
