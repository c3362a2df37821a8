use vstd::prelude::*;
use crate::error::{OdooError, OdooErrorV};
use crate::json::{Json, JsonV, lemma_key_index, strs_value, uint_value, view_members};
use crate::text::views_of;
use super::{OdooCall, OdooCallV, make_call, object2_or_1, result_view};

verus! {

/// The page size used: the one asked for, or the default.
pub open spec fn effective_limit(limit: Option<u32>, default_page_size: u32) -> u32 {
    match limit {
        Some(l) => l,
        None => default_page_size,
    }
}

/// The offset used: the one asked for, or 0.
pub open spec fn effective_offset(offset: Option<u32>) -> u32 {
    match offset {
        Some(o) => o,
        None => 0,
    }
}

/// The call that fetches one page of records:
/// `search_read` with `{"domain", "fields" ([] when none are named), "limit", "offset"}`
/// and `"order"` when given.
pub open spec fn search_records_call(
    model: Seq<char>,
    domain: JsonV,
    fields: Option<Seq<Seq<char>>>,
    limit: u32,
    offset: u32,
    order: Option<Seq<char>>,
) -> OdooCallV {
    let base = seq![
        ("domain"@, domain),
        ("fields"@, match fields {
            Some(f) => strs_value(f),
            None => JsonV::Array(seq![]),
        }),
        ("limit"@, uint_value(limit as u64)),
        ("offset"@, uint_value(offset as u64)),
    ];
    OdooCallV {
        model,
        method: "search_read"@,
        body: JsonV::Object(
            match order {
                Some(o) => base.push(("order"@, JsonV::Str(o))),
                None => base,
            },
        ),
    }
}

/// The call that counts the matching records: `search_count` with `{"domain": domain}`.
pub open spec fn search_count_call(model: Seq<char>, domain: JsonV) -> OdooCallV {
    OdooCallV {
        model,
        method: "search_count"@,
        body: JsonV::Object(seq![("domain"@, domain)]),
    }
}

/// The offset of the next page.
pub open spec fn next_offset(offset: u32, limit: u32) -> u64 {
    (offset + limit) as u64
}

/// The number in a `search_count` reply (0 when the reply is not a non-negative integer).
pub open spec fn total_count(total: JsonV) -> u64 {
    match total.as_u64() {
        Some(n) => n,
        None => 0,
    }
}

/// The page answered: the records, the total, whether records lie beyond this page, and
/// where the next page starts.
pub open spec fn search_page(records: JsonV, total: JsonV, offset: u32, limit: u32) -> JsonV {
    JsonV::Object(
        seq![
            ("records"@, records),
            ("total"@, total),
            ("has_more"@, JsonV::Bool(next_offset(offset, limit) < total_count(total))),
            ("next_offset"@, uint_value(next_offset(offset, limit))),
        ],
    )
}

/// The answer to a search, from the replies to the page and count calls: the first failure,
/// or the page.
pub open spec fn search_result(
    records: Result<JsonV, OdooErrorV>,
    total: Result<JsonV, OdooErrorV>,
    offset: u32,
    limit: u32,
) -> Result<JsonV, OdooErrorV> {
    match records {
        Err(e) => Err(e),
        Ok(r) => match total {
            Err(e) => Err(e),
            Ok(t) => Ok(search_page(r, t, offset, limit)),
        },
    }
}

/// The two calls of a search: the page of records and the count.
pub fn search_calls(
    model: &str,
    domain: Json,
    fields: Option<Vec<String>>,
    limit: u32,
    offset: u32,
    order: Option<String>,
) -> (r: (OdooCall, OdooCall))
    ensures
        r.0@ == search_records_call(
            model@,
            domain@,
            match fields {
                Some(f) => Some(views_of(f@)),
                None => None,
            },
            limit,
            offset,
            match order {
                Some(o) => Some(o@),
                None => None,
            },
        ),
        r.1@ == search_count_call(model@, domain@),
{
    let ghost fields_v = match &fields {
        Some(f) => Some(views_of(f@)),
        None => None,
    };
    let ghost order_v = match &order {
        Some(o) => Some(o@),
        None => None,
    };
    let ghost domain_v = domain@;
    let count_body = object2_or_1("domain", domain.deep_clone(), None);
    let fields_json = match fields {
        Some(f) => Json::str_array(&f),
        None => {
            let none: Vec<Json> = Vec::new();
            assert(crate::json::view_items(none@) =~= seq![]);
            Json::Array(none)
        },
    };
    let mut members: Vec<(String, Json)> = Vec::new();
    members.push((String::from_str("domain"), domain));
    members.push((String::from_str("fields"), fields_json));
    members.push((String::from_str("limit"), Json::from_u64(limit as u64)));
    members.push((String::from_str("offset"), Json::from_u64(offset as u64)));
    match order {
        Some(o) => {
            members.push((String::from_str("order"), Json::Str(o)));
        },
        None => {},
    }
    proof {
        crate::json::lemma_view_members_len(members@);
        assert forall|k: int| 0 <= k < members@.len() implies #[trigger] view_members(members@)[k]
            == (members@[k].0@, members@[k].1@) by {
            crate::json::lemma_view_members_index(members@, k);
        }
    }
    let page_body = Json::Object(members);
    proof {
        let expected = search_records_call(model@, domain_v, fields_v, limit, offset, order_v);
        match expected.body {
            JsonV::Object(ms) => {
                assert(view_members(members@) =~= ms);
            },
            _ => {},
        }
    }
    let page = make_call(model, "search_read", page_body);
    let count = make_call(model, "search_count", count_body);
    (page, count)
}

/// The answer to a search: the first failure among the page and count replies, or the
/// page of `records` with the `total`, whether more records follow, and the next offset.
pub fn search(
    records: Result<Json, OdooError>,
    total: Result<Json, OdooError>,
    offset: u32,
    limit: u32,
) -> (r: Result<Json, OdooError>)
    ensures
        result_view(r) == search_result(result_view(records), result_view(total), offset, limit),
{
    let records = match records {
        Ok(v) => v,
        Err(e) => {
            return Err(e);
        },
    };
    let total = match total {
        Ok(v) => v,
        Err(e) => {
            return Err(e);
        },
    };
    let total_num: u64 = match total.as_u64() {
        Some(n) => n,
        None => 0,
    };
    let next: u64 = offset as u64 + limit as u64;
    let has_more = next < total_num;
    let ghost rv = records@;
    let ghost tv = total@;
    let mut members: Vec<(String, Json)> = Vec::new();
    members.push((String::from_str("records"), records));
    members.push((String::from_str("total"), total));
    members.push((String::from_str("has_more"), Json::Bool(has_more)));
    members.push((String::from_str("next_offset"), Json::from_u64(next)));
    proof {
        crate::json::lemma_view_members_len(members@);
        assert forall|k: int| 0 <= k < members@.len() implies #[trigger] view_members(members@)[k]
            == (members@[k].0@, members@[k].1@) by {
            crate::json::lemma_view_members_index(members@, k);
        }
        match search_page(rv, tv, offset, limit) {
            JsonV::Object(ms) => {
                assert(view_members(members@) =~= ms);
            },
            _ => {},
        }
    }
    Ok(Json::Object(members))
}

/// A page request asks Odoo for exactly the page that is wanted: the domain, the page size
/// and the offset it is given (whether or not an order is given), the fields named (none
/// means `[]`), and the order only when one is given.
pub proof fn lemma_page_request(
    model: Seq<char>,
    domain: JsonV,
    fields: Option<Seq<Seq<char>>>,
    limit: u32,
    offset: u32,
    order: Option<Seq<char>>,
)
    ensures
        search_records_call(model, domain, fields, limit, offset, order).model == model,
        search_records_call(model, domain, fields, limit, offset, order).method == "search_read"@,
        search_records_call(model, domain, fields, limit, offset, order).body.get("domain"@)
            == Some(domain),
        search_records_call(model, domain, fields, limit, offset, order).body.get("limit"@)
            == Some(uint_value(limit as u64)),
        search_records_call(model, domain, fields, limit, offset, order).body.get("offset"@)
            == Some(uint_value(offset as u64)),
        fields matches Some(f) ==> search_records_call(
            model,
            domain,
            fields,
            limit,
            offset,
            order,
        ).body.get("fields"@) == Some(strs_value(f)),
        fields is None ==> search_records_call(model, domain, fields, limit, offset, order).body.get(
            "fields"@,
        ) == Some(JsonV::Array(seq![])),
        order matches Some(o) ==> search_records_call(
            model,
            domain,
            fields,
            limit,
            offset,
            order,
        ).body.get("order"@) == Some(JsonV::Str(o)),
        order is None ==> search_records_call(model, domain, fields, limit, offset, order).body.get(
            "order"@,
        ) is None,
{
    reveal_strlit("domain");
    reveal_strlit("fields");
    reveal_strlit("limit");
    reveal_strlit("offset");
    reveal_strlit("order");
    assert("domain"@[0] != "fields"@[0]);
    assert("domain"@[0] != "limit"@[0]);
    assert("fields"@[0] != "limit"@[0]);
    assert("domain"@[0] != "offset"@[0]);
    assert("fields"@[0] != "offset"@[0]);
    assert("limit"@[0] != "offset"@[0]);
    assert("domain"@[0] != "order"@[0]);
    assert("fields"@[0] != "order"@[0]);
    assert("limit"@[0] != "order"@[0]);
    assert("offset"@[1] != "order"@[1]);
    let ms = search_records_call(model, domain, fields, limit, offset, order).body->Object_0;
    lemma_key_index(ms, "domain"@, 0);
    lemma_key_index(ms, "fields"@, 1);
    lemma_key_index(ms, "limit"@, 2);
    lemma_key_index(ms, "offset"@, 3);
    lemma_key_index(ms, "order"@, 4);
}

/// The count request counts the records of the same domain: `search_count` on the model
/// with the domain and nothing else.
pub proof fn lemma_count_request(model: Seq<char>, domain: JsonV)
    ensures
        search_count_call(model, domain).model == model,
        search_count_call(model, domain).method == "search_count"@,
        search_count_call(model, domain).body == JsonV::Object(seq![("domain"@, domain)]),
        search_count_call(model, domain).body.get("domain"@) == Some(domain),
{
    lemma_key_index(seq![("domain"@, domain)], "domain"@, 0);
}

/// A page holds the records and the total as they came, `next_offset` is the offset plus
/// the page size, and `has_more` says exactly whether that lies below the total.
pub proof fn lemma_page_fields(records: JsonV, total: JsonV, offset: u32, limit: u32)
    ensures
        search_page(records, total, offset, limit).get("records"@) == Some(records),
        search_page(records, total, offset, limit).get("total"@) == Some(total),
        search_page(records, total, offset, limit).get("next_offset"@) == Some(
            uint_value((offset + limit) as u64),
        ),
        search_page(records, total, offset, limit).get("has_more"@) == Some(
            JsonV::Bool(offset + limit < total_count(total)),
        ),
{
    reveal_strlit("records");
    reveal_strlit("total");
    reveal_strlit("has_more");
    reveal_strlit("next_offset");
    let ms = search_page(records, total, offset, limit)->Object_0;
    assert(ms[0].0 == "records"@);
    assert("total"@[0] != "records"@[0]);
    assert("has_more"@[0] != "records"@[0]);
    assert("has_more"@[0] != "total"@[0]);
    assert("next_offset"@[0] != "records"@[0]);
    assert("next_offset"@[0] != "total"@[0]);
    assert("next_offset"@[0] != "has_more"@[0]);
    lemma_key_index(ms, "records"@, 0);
    lemma_key_index(ms, "total"@, 1);
    lemma_key_index(ms, "has_more"@, 2);
    lemma_key_index(ms, "next_offset"@, 3);
}

/// More records follow exactly when the next page starts below the number of records that
/// Odoo counted; a count that is not a non-negative integer counts as none.
pub proof fn lemma_has_more(records: JsonV, total: JsonV, offset: u32, limit: u32, n: u64)
    ensures
        total == uint_value(n) ==> search_page(records, total, offset, limit).get("has_more"@)
            == Some(JsonV::Bool(offset + limit < n)),
        total.as_u64() is None ==> search_page(records, total, offset, limit).get("has_more"@)
            == Some(JsonV::Bool(false)),
{
    lemma_page_fields(records, total, offset, limit);
}

} // verus!
