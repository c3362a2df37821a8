use vstd::prelude::*;
use crate::json::{
    Json,
    JsonV,
    insert_member,
    ints_value,
    lemma_insert_then_member,
    lemma_key_index,
    member,
    members_insert,
    view_members,
};
use super::{OdooCall, OdooCallV, make_call};

verus! {

/// The call of `method` on `model`: the keyword arguments (none when absent) are the
/// body, and the record ids, when given, are set under `"ids"`.
pub open spec fn call_method_call(
    model: Seq<char>,
    method: Seq<char>,
    ids: Option<Seq<i64>>,
    kwargs: Option<Seq<(Seq<char>, JsonV)>>,
) -> OdooCallV {
    let base = match kwargs {
        Some(k) => k,
        None => seq![],
    };
    OdooCallV {
        model,
        method,
        body: JsonV::Object(
            match ids {
                Some(i) => insert_member(base, "ids"@, ints_value(i)),
                None => base,
            },
        ),
    }
}

/// The call of an arbitrary `method` on `model`, with record `ids` and keyword arguments
/// `kwargs` when given.
pub fn call_method(
    model: &str,
    method: &str,
    ids: Option<Vec<i64>>,
    kwargs: Option<Vec<(String, Json)>>,
) -> (r: OdooCall)
    ensures
        r@ == call_method_call(
            model@,
            method@,
            match ids {
                Some(i) => Some(i@),
                None => None,
            },
            match kwargs {
                Some(k) => Some(view_members(k@)),
                None => None,
            },
        ),
{
    let mut body: Vec<(String, Json)> = match kwargs {
        Some(k) => k,
        None => Vec::new(),
    };
    proof {
        crate::json::lemma_view_members_len(body@);
        if body@.len() == 0 {
            assert(view_members(body@) =~= seq![]);
        }
    }
    match ids {
        Some(i) => {
            members_insert(&mut body, String::from_str("ids"), Json::int_array(&i));
        },
        None => {},
    }
    make_call(model, method, Json::Object(body))
}

/// The call of `method` on `model` sends the record ids under `"ids"` whenever ids are
/// given, whether or not keyword arguments are; every other keyword argument is sent as
/// given; with no ids, the keyword arguments (none when absent) are sent unchanged.
pub proof fn lemma_call_method_body(
    model: Seq<char>,
    method: Seq<char>,
    ids: Option<Seq<i64>>,
    kwargs: Option<Seq<(Seq<char>, JsonV)>>,
    key: Seq<char>,
)
    ensures
        call_method_call(model, method, ids, kwargs).model == model,
        call_method_call(model, method, ids, kwargs).method == method,
        ids matches Some(i) ==> call_method_call(model, method, ids, kwargs).body.get("ids"@)
            == Some(ints_value(i)),
        ids is Some && key != "ids"@ ==> call_method_call(model, method, ids, kwargs).body.get(key)
            == match kwargs {
            Some(k) => member(k, key),
            None => None,
        },
        ids is None ==> call_method_call(model, method, ids, kwargs).body == JsonV::Object(
            match kwargs {
                Some(k) => k,
                None => seq![],
            },
        ),
{
    let base = match kwargs {
        Some(k) => k,
        None => seq![],
    };
    lemma_insert_then_member(base, "ids"@, ints_value(ids.unwrap_or(seq![])), key);
    if kwargs is None {
        lemma_key_index(base, key, 0);
    }
}

} // verus!
