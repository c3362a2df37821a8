use vstd::prelude::*;
use crate::json::{Json, JsonV, lemma_key_index};
use super::{OdooCall, OdooCallV, make_call, object2_or_1};

verus! {

/// The call that creates one record of `model` with `values`:
/// `create` with `{"vals_list": [values]}`.
pub open spec fn create_call(model: Seq<char>, values: JsonV) -> OdooCallV {
    OdooCallV {
        model,
        method: "create"@,
        body: JsonV::Object(seq![("vals_list"@, JsonV::Array(seq![values]))]),
    }
}

/// The call that creates a record of `model` with field values `values`.
pub fn create(model: &str, values: Json) -> (r: OdooCall)
    ensures
        r@ == create_call(model@, values@),
{
    let ghost vv = values@;
    let mut list: Vec<Json> = Vec::new();
    list.push(values);
    proof {
        crate::json::lemma_view_items_len(list@);
        crate::json::lemma_view_items_index(list@, 0);
        assert(crate::json::view_items(list@) =~= seq![vv]);
    }
    let body = object2_or_1("vals_list", Json::Array(list), None);
    make_call(model, "create", body)
}

/// A creation asks `create` on the model with a list holding exactly the values given.
pub proof fn lemma_create_request(model: Seq<char>, values: JsonV)
    ensures
        create_call(model, values).model == model,
        create_call(model, values).method == "create"@,
        create_call(model, values).body.get("vals_list"@) == Some(JsonV::Array(seq![values])),
{
    lemma_key_index(create_call(model, values).body->Object_0, "vals_list"@, 0);
}

} // verus!
