use vstd::prelude::*;
use crate::json::{Json, JsonV, lemma_key_index};
use super::{OdooCall, OdooCallV, make_call};

verus! {

/// The call that describes `model`: `fields_get` with no argument.
pub open spec fn describe_model_call(model: Seq<char>) -> OdooCallV {
    OdooCallV { model, method: "fields_get"@, body: JsonV::Object(seq![]) }
}

/// The call that fetches the field definitions of `model`.
pub fn describe_model(model: &str) -> (r: OdooCall)
    ensures
        r@ == describe_model_call(model@),
{
    make_call(model, "fields_get", Json::empty_object())
}

/// Describing a model asks `fields_get` on that model with no argument at all.
pub proof fn lemma_describe_request(model: Seq<char>, key: Seq<char>)
    ensures
        describe_model_call(model).model == model,
        describe_model_call(model).method == "fields_get"@,
        describe_model_call(model).body.get(key) is None,
        describe_model_call(model).body is Object,
{
    lemma_key_index(seq![], key, 0);
}

} // verus!
