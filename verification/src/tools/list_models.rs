use vstd::prelude::*;
use crate::json::{Json, JsonV, lemma_key_index, strs_value, view_items};
use crate::model_filter::{ModelFilter, keeps, kept_models, lemma_filter_keeps_admitted};
use crate::text::views_of;
use super::{OdooCall, OdooCallV, make_call, object2_or_1};

verus! {

/// The call that lists the models: `search_read` on `ir.model` with an empty domain and the
/// fields `model`, `name` and `info`.
pub open spec fn list_models_call_spec() -> OdooCallV {
    OdooCallV {
        model: "ir.model"@,
        method: "search_read"@,
        body: JsonV::Object(
            seq![
                ("domain"@, JsonV::Array(seq![])),
                ("fields"@, strs_value(seq!["model"@, "name"@, "info"@])),
            ],
        ),
    }
}

/// What is answered for the reply `result` to the model listing: a list keeps the entries
/// that the filter keeps, in order; anything else is passed on unchanged.
pub open spec fn list_models_result(
    inclusions: Seq<Seq<char>>,
    exclusions: Seq<Seq<char>>,
    result: JsonV,
) -> JsonV {
    match result {
        JsonV::Array(items) => JsonV::Array(kept_models(inclusions, exclusions, items)),
        other => other,
    }
}

/// The call that lists the Odoo models.
pub fn list_models_call() -> (r: OdooCall)
    ensures
        r@ == list_models_call_spec(),
{
    let mut fields: Vec<String> = Vec::new();
    fields.push(String::from_str("model"));
    fields.push(String::from_str("name"));
    fields.push(String::from_str("info"));
    assert(views_of(fields@) =~= seq!["model"@, "name"@, "info"@]);
    let domain: Vec<Json> = Vec::new();
    assert(view_items(domain@) =~= seq![]);
    let body = object2_or_1("domain", Json::Array(domain), Some(("fields", Json::str_array(&fields))));
    make_call("ir.model", "search_read", body)
}

/// The answer to `list_models`, from the reply to the model listing.
pub fn list_models(filter: &ModelFilter, result: Json) -> (r: Json)
    ensures
        r@ == list_models_result(filter.inclusion_patterns(), filter.exclusion_patterns(), result@),
{
    match result {
        Json::Array(models) => Json::Array(filter.filter(models)),
        other => other,
    }
}

/// Listing the models asks `search_read` on `ir.model` for every model (an empty domain),
/// with the fields `model`, `name` and `info`.
pub proof fn lemma_list_request()
    ensures
        list_models_call_spec().model == "ir.model"@,
        list_models_call_spec().method == "search_read"@,
        list_models_call_spec().body.get("domain"@) == Some(JsonV::Array(seq![])),
        list_models_call_spec().body.get("fields"@) == Some(
            strs_value(seq!["model"@, "name"@, "info"@]),
        ),
{
    reveal_strlit("domain");
    reveal_strlit("fields");
    assert("domain"@[0] != "fields"@[0]);
    let ms = list_models_call_spec().body->Object_0;
    lemma_key_index(ms, "domain"@, 0);
    lemma_key_index(ms, "fields"@, 1);
}

/// The answer to a model listing is the listing with exactly the entries the filter keeps:
/// nothing is added, an entry whose model the filter admits stays, and the order is kept
/// (each kept entry comes from the listing).
pub proof fn lemma_list_answer(inclusions: Seq<Seq<char>>, exclusions: Seq<Seq<char>>, items: Seq<JsonV>)
    ensures
        list_models_result(inclusions, exclusions, JsonV::Array(items)) is Array,
        list_models_result(inclusions, exclusions, JsonV::Array(items))->Array_0.len()
            <= items.len(),
        forall|i: int|
            0 <= i < list_models_result(inclusions, exclusions, JsonV::Array(items))->Array_0.len()
                ==> items.contains(
                #[trigger] list_models_result(inclusions, exclusions, JsonV::Array(items))->Array_0[i],
            ),
{
    lemma_filter_keeps_admitted(inclusions, exclusions, items);
    let pred = |m: JsonV| keeps(inclusions, exclusions, m);
    items.lemma_filter_len(pred);
}

/// A listing reply that is not a list is answered as it came.
pub proof fn lemma_list_answer_other(inclusions: Seq<Seq<char>>, exclusions: Seq<Seq<char>>, result: JsonV)
    requires
        !(result is Array),
    ensures
        list_models_result(inclusions, exclusions, result) == result,
{
}

} // verus!
