use vstd::prelude::*;
use crate::json::{Json, JsonV, ints_value, lemma_key_index, strs_value};
use crate::text::views_of;
use super::{OdooCall, OdooCallV, make_call, object2_or_1};

verus! {

/// The call that reads the records `ids` of `model`: `read` with `{"ids": ids}`, and
/// `"fields"` when fields are named.
pub open spec fn read_call(model: Seq<char>, ids: Seq<i64>, fields: Option<Seq<Seq<char>>>) -> OdooCallV {
    OdooCallV {
        model,
        method: "read"@,
        body: JsonV::Object(
            match fields {
                Some(f) => seq![("ids"@, ints_value(ids)), ("fields"@, strs_value(f))],
                None => seq![("ids"@, ints_value(ids))],
            },
        ),
    }
}

/// The call that reads the records `ids` of `model`, restricted to `fields` when given.
pub fn read(model: &str, ids: Vec<i64>, fields: Option<Vec<String>>) -> (r: OdooCall)
    ensures
        r@ == read_call(
            model@,
            ids@,
            match fields {
                Some(f) => Some(views_of(f@)),
                None => None,
            },
        ),
{
    let second = match fields {
        Some(f) => Some(("fields", Json::str_array(&f))),
        None => None,
    };
    let body = object2_or_1("ids", Json::int_array(&ids), second);
    make_call(model, "read", body)
}

/// A read asks `read` on the model for exactly the ids given, and for the fields named only
/// when fields are named.
pub proof fn lemma_read_request(model: Seq<char>, ids: Seq<i64>, fields: Option<Seq<Seq<char>>>)
    ensures
        read_call(model, ids, fields).model == model,
        read_call(model, ids, fields).method == "read"@,
        read_call(model, ids, fields).body.get("ids"@) == Some(ints_value(ids)),
        fields matches Some(f) ==> read_call(model, ids, fields).body.get("fields"@) == Some(
            strs_value(f),
        ),
        fields is None ==> read_call(model, ids, fields).body.get("fields"@) is None,
{
    reveal_strlit("ids");
    reveal_strlit("fields");
    assert("ids"@[0] != "fields"@[0]);
    let ms = read_call(model, ids, fields).body->Object_0;
    lemma_key_index(ms, "ids"@, 0);
    lemma_key_index(ms, "fields"@, 1);
}

} // verus!
