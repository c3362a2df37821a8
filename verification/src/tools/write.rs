use vstd::prelude::*;
use crate::json::{Json, JsonV, ints_value, lemma_key_index};
use super::{OdooCall, OdooCallV, make_call, object2_or_1};

verus! {

/// The call that updates the records `ids` of `model` with `values`:
/// `write` with `{"ids": ids, "vals": values}`.
pub open spec fn write_call(model: Seq<char>, ids: Seq<i64>, values: JsonV) -> OdooCallV {
    OdooCallV {
        model,
        method: "write"@,
        body: JsonV::Object(seq![("ids"@, ints_value(ids)), ("vals"@, values)]),
    }
}

/// The call that updates the records `ids` of `model` with field values `values`.
pub fn write(model: &str, ids: Vec<i64>, values: Json) -> (r: OdooCall)
    ensures
        r@ == write_call(model@, ids@, values@),
{
    let body = object2_or_1("ids", Json::int_array(&ids), Some(("vals", values)));
    make_call(model, "write", body)
}

/// An update asks `write` on the model for exactly the ids given, with the values given.
pub proof fn lemma_write_request(model: Seq<char>, ids: Seq<i64>, values: JsonV)
    ensures
        write_call(model, ids, values).model == model,
        write_call(model, ids, values).method == "write"@,
        write_call(model, ids, values).body.get("ids"@) == Some(ints_value(ids)),
        write_call(model, ids, values).body.get("vals"@) == Some(values),
{
    reveal_strlit("ids");
    reveal_strlit("vals");
    assert("ids"@[0] != "vals"@[0]);
    let ms = write_call(model, ids, values).body->Object_0;
    lemma_key_index(ms, "ids"@, 0);
    lemma_key_index(ms, "vals"@, 1);
}

} // verus!
