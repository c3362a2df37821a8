use vstd::prelude::*;
use crate::json::{Json, JsonV, ints_value, lemma_key_index};
use super::{OdooCall, OdooCallV, make_call, object2_or_1};

verus! {

/// The call that deletes the records `ids` of `model`: `unlink` with `{"ids": ids}`.
pub open spec fn delete_call(model: Seq<char>, ids: Seq<i64>) -> OdooCallV {
    OdooCallV { model, method: "unlink"@, body: JsonV::Object(seq![("ids"@, ints_value(ids))]) }
}

/// The call that deletes the records `ids` of `model`.
pub fn delete(model: &str, ids: Vec<i64>) -> (r: OdooCall)
    ensures
        r@ == delete_call(model@, ids@),
{
    let body = object2_or_1("ids", Json::int_array(&ids), None);
    make_call(model, "unlink", body)
}

/// A deletion asks `unlink` on the model for exactly the ids given.
pub proof fn lemma_delete_request(model: Seq<char>, ids: Seq<i64>)
    ensures
        delete_call(model, ids).model == model,
        delete_call(model, ids).method == "unlink"@,
        delete_call(model, ids).body.get("ids"@) == Some(ints_value(ids)),
{
    lemma_key_index(delete_call(model, ids).body->Object_0, "ids"@, 0);
}

} // verus!
