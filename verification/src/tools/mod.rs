pub mod call_method;
pub mod create;
pub mod delete;
pub mod describe_model;
pub mod list_models;
pub mod read;
pub mod schemas;
pub mod search;
pub mod write;

use vstd::prelude::*;
use crate::error::{OdooError, OdooErrorV};
use crate::json::{
    Json,
    JsonV,
    ints_value,
    member,
    members_get,
    uint_value,
    view_items,
    view_members,
    lemma_view_items_index,
    lemma_view_items_len,
    lemma_view_members_index,
    lemma_view_members_len,
};
use crate::model_filter::ModelFilter;
use crate::text::{concat_str, starts_with, str_eq, views_of};
use self::call_method::{call_method_call, lemma_call_method_body};
use self::create::{create_call, lemma_create_request};
use self::delete::{delete_call, lemma_delete_request};
use self::describe_model::{describe_model_call, lemma_describe_request};
use self::list_models::{lemma_list_request, list_models_call_spec, list_models_result};
use self::read::{lemma_read_request, read_call};
use self::search::{
    effective_limit,
    effective_offset,
    lemma_count_request,
    lemma_page_fields,
    lemma_page_request,
    search_count_call,
    search_records_call,
    search_result,
};
use self::write::{lemma_write_request, write_call};
use self::schemas::lemma_tool_names_distinct;

verus! {

/// One request to Odoo's JSON/2 API: `method` on `model`, with `body` as its arguments.
pub struct OdooCall {
    pub model: String,
    pub method: String,
    pub body: Json,
}

pub struct OdooCallV {
    pub model: Seq<char>,
    pub method: Seq<char>,
    pub body: JsonV,
}

impl View for OdooCall {
    type V = OdooCallV;

    open spec fn view(&self) -> OdooCallV {
        OdooCallV { model: self.model@, method: self.method@, body: self.body@ }
    }
}

/// What is done with the replies to a tool's calls.
#[derive(Debug, PartialEq, Eq, Clone, Copy)]
pub enum Finish {
    /// The one reply is the answer.
    Reply,
    /// The one reply lists models; the answer keeps those the model filter keeps.
    FilterModels,
    /// The replies are a page of records and their count; the answer is the page.
    Paginate { offset: u32, limit: u32 },
}

/// How many calls a tool makes before it can finish.
pub open spec fn finish_calls(f: Finish) -> nat {
    match f {
        Finish::Paginate { .. } => 2,
        _ => 1,
    }
}

/// What a tool asks of Odoo: the calls to make (concurrently), and how to finish.
pub struct ToolPlan {
    pub calls: Vec<OdooCall>,
    pub finish: Finish,
}

pub struct ToolPlanV {
    pub calls: Seq<OdooCallV>,
    pub finish: Finish,
}

pub open spec fn call_views(calls: Seq<OdooCall>) -> Seq<OdooCallV> {
    calls.map_values(|c: OdooCall| c@)
}

impl View for ToolPlan {
    type V = ToolPlanV;

    open spec fn view(&self) -> ToolPlanV {
        ToolPlanV { calls: call_views(self.calls@), finish: self.finish }
    }
}

pub open spec fn result_view(r: Result<Json, OdooError>) -> Result<JsonV, OdooErrorV> {
    match r {
        Ok(v) => Ok(v@),
        Err(e) => Err(e@),
    }
}

pub open spec fn result_views(rs: Seq<Result<Json, OdooError>>) -> Seq<Result<JsonV, OdooErrorV>> {
    rs.map_values(|r: Result<Json, OdooError>| result_view(r))
}

pub fn make_call(model: &str, method: &str, body: Json) -> (r: OdooCall)
    ensures
        r@ == (OdooCallV { model: model@, method: method@, body: body@ }),
{
    OdooCall { model: String::from_str(model), method: String::from_str(method), body }
}

/// A JSON object with the member `first`, then `second` when given.
pub fn object2_or_1(first_key: &str, first: Json, second: Option<(&str, Json)>) -> (r: Json)
    ensures
        r@ == JsonV::Object(
            match second {
                Some(p) => seq![(first_key@, first@), (p.0@, p.1@)],
                None => seq![(first_key@, first@)],
            },
        ),
{
    let ghost fv = first@;
    let ghost sv = match &second {
        Some(p) => Some((p.0@, p.1@)),
        None => None::<(Seq<char>, JsonV)>,
    };
    let mut members: Vec<(String, Json)> = Vec::new();
    members.push((String::from_str(first_key), first));
    match second {
        Some(p) => {
            members.push((String::from_str(p.0), p.1));
        },
        None => {},
    }
    proof {
        lemma_view_members_len(members@);
        lemma_view_members_index(members@, 0);
        if members@.len() > 1 {
            lemma_view_members_index(members@, 1);
        }
        match sv {
            Some(p) => {
                assert(view_members(members@) =~= seq![(first_key@, fv), p]);
            },
            None => {
                assert(view_members(members@) =~= seq![(first_key@, fv)]);
            },
        }
    }
    Json::Object(members)
}

// ---------------------------------------------------------------------------------------
// Reading the arguments of a tool call.
// ---------------------------------------------------------------------------------------

pub open spec fn missing_string(key: Seq<char>) -> OdooErrorV {
    OdooErrorV::Validation("missing required string parameter: "@ + key)
}

pub open spec fn missing_value(key: Seq<char>) -> OdooErrorV {
    OdooErrorV::Validation("missing required parameter: "@ + key)
}

pub open spec fn missing_array(key: Seq<char>) -> OdooErrorV {
    OdooErrorV::Validation("missing required array parameter: "@ + key)
}

pub open spec fn non_integer(key: Seq<char>) -> OdooErrorV {
    OdooErrorV::Validation("non-integer value in "@ + key + " array"@)
}

/// The string argument `key`, which must be there.
pub open spec fn required_str(args: Seq<(Seq<char>, JsonV)>, key: Seq<char>) -> Result<
    Seq<char>,
    OdooErrorV,
> {
    match member(args, key) {
        Some(v) => match v.as_str() {
            Some(s) => Ok(s),
            None => Err(missing_string(key)),
        },
        None => Err(missing_string(key)),
    }
}

/// The argument `key`, of any kind, which must be there.
pub open spec fn required_value(args: Seq<(Seq<char>, JsonV)>, key: Seq<char>) -> Result<
    JsonV,
    OdooErrorV,
> {
    match member(args, key) {
        Some(v) => Ok(v),
        None => Err(missing_value(key)),
    }
}

/// Every item is an integer that fits in `i64`.
pub open spec fn all_ints(items: Seq<JsonV>) -> bool {
    forall|i: int| 0 <= i < items.len() ==> (#[trigger] items[i]).as_i64() is Some
}

pub open spec fn int_items(items: Seq<JsonV>) -> Seq<i64> {
    Seq::new(items.len(), |i: int| items[i].as_i64().unwrap())
}

/// The array of integers `key`, which must be there and hold only integers.
pub open spec fn required_ints(args: Seq<(Seq<char>, JsonV)>, key: Seq<char>) -> Result<
    Seq<i64>,
    OdooErrorV,
> {
    match member(args, key) {
        Some(v) => match v.as_array() {
            Some(items) => if all_ints(items) {
                Ok(int_items(items))
            } else {
                Err(non_integer(key))
            },
            None => Err(missing_array(key)),
        },
        None => Err(missing_array(key)),
    }
}

/// The string argument `key`, if it is there and a string.
pub open spec fn optional_text(args: Seq<(Seq<char>, JsonV)>, key: Seq<char>) -> Option<Seq<char>> {
    match member(args, key) {
        Some(v) => v.as_str(),
        None => None,
    }
}

/// The argument `key` as a `u32`, if it is a non-negative integer (cut to its low 32 bits,
/// as `as u32` does).
pub open spec fn optional_count(args: Seq<(Seq<char>, JsonV)>, key: Seq<char>) -> Option<u32> {
    match member(args, key) {
        Some(v) => match v.as_u64() {
            Some(n) => Some(n as u32),
            None => None,
        },
        None => None,
    }
}

/// The strings in the array argument `key`, if it is an array; other items are skipped.
pub open spec fn optional_texts(args: Seq<(Seq<char>, JsonV)>, key: Seq<char>) -> Option<
    Seq<Seq<char>>,
> {
    match member(args, key) {
        Some(v) => match v.as_array() {
            Some(items) => Some(items.filter_map(|j: JsonV| j.as_str())),
            None => None,
        },
        None => None,
    }
}

/// The integers in the array argument `key`, if it is an array; other items are skipped.
pub open spec fn optional_ints(args: Seq<(Seq<char>, JsonV)>, key: Seq<char>) -> Option<Seq<i64>> {
    match member(args, key) {
        Some(v) => match v.as_array() {
            Some(items) => Some(items.filter_map(|j: JsonV| j.as_i64())),
            None => None,
        },
        None => None,
    }
}

/// The members of the object argument `key`, if it is an object.
pub open spec fn optional_members(args: Seq<(Seq<char>, JsonV)>, key: Seq<char>) -> Option<
    Seq<(Seq<char>, JsonV)>,
> {
    match member(args, key) {
        Some(v) => v.as_object(),
        None => None,
    }
}

fn require_str(args: &Vec<(String, Json)>, key: &str) -> (r: Result<String, OdooError>)
    ensures
        match r {
            Ok(s) => required_str(view_members(args@), key@) == Ok::<Seq<char>, OdooErrorV>(s@),
            Err(e) => required_str(view_members(args@), key@) == Err::<Seq<char>, OdooErrorV>(e@),
        },
{
    match members_get(args, key) {
        Some(v) => match v.as_str() {
            Some(s) => Ok(s.clone()),
            None => Err(OdooError::Validation(concat_str("missing required string parameter: ", key))),
        },
        None => Err(OdooError::Validation(concat_str("missing required string parameter: ", key))),
    }
}

fn require_value(args: &Vec<(String, Json)>, key: &str) -> (r: Result<Json, OdooError>)
    ensures
        match r {
            Ok(v) => required_value(view_members(args@), key@) == Ok::<JsonV, OdooErrorV>(v@),
            Err(e) => required_value(view_members(args@), key@) == Err::<JsonV, OdooErrorV>(e@),
        },
{
    match members_get(args, key) {
        Some(v) => Ok(v.deep_clone()),
        None => Err(OdooError::Validation(concat_str("missing required parameter: ", key))),
    }
}

fn require_i64_array(args: &Vec<(String, Json)>, key: &str) -> (r: Result<Vec<i64>, OdooError>)
    ensures
        match r {
            Ok(ids) => required_ints(view_members(args@), key@) == Ok::<Seq<i64>, OdooErrorV>(ids@),
            Err(e) => required_ints(view_members(args@), key@) == Err::<Seq<i64>, OdooErrorV>(e@),
        },
{
    let arr = match members_get(args, key) {
        Some(v) => match v.as_array() {
            Some(a) => a,
            None => {
                return Err(
                    OdooError::Validation(concat_str("missing required array parameter: ", key)),
                );
            },
        },
        None => {
            return Err(OdooError::Validation(concat_str("missing required array parameter: ", key)));
        },
    };
    let ghost items = view_items(arr@);
    proof {
        lemma_view_items_len(arr@);
    }
    assert(required_ints(view_members(args@), key@) == (if all_ints(items) {
        Ok(int_items(items))
    } else {
        Err(non_integer(key@))
    }));
    let mut out: Vec<i64> = Vec::new();
    let mut i: usize = 0;
    while i < arr.len()
        invariant
            i <= arr.len(),
            items == view_items(arr@),
            items.len() == arr@.len(),
            required_ints(view_members(args@), key@) == (if all_ints(items) {
                Ok(int_items(items))
            } else {
                Err(non_integer(key@))
            }),
            out@.len() == i,
            forall|k: int| 0 <= k < i ==> (#[trigger] items[k]).as_i64() == Some(out@[k]),
        decreases arr.len() - i,
    {
        proof {
            lemma_view_items_index(arr@, i as int);
        }
        match arr[i].as_i64() {
            Some(n) => {
                out.push(n);
            },
            None => {
                let head = concat_str("non-integer value in ", key);
                return Err(OdooError::Validation(concat_str(head.as_str(), " array")));
            },
        }
        i = i + 1;
    }
    assert(all_ints(items));
    assert(out@ =~= int_items(items));
    Ok(out)
}

fn optional_str(args: &Vec<(String, Json)>, key: &str) -> (r: Option<String>)
    ensures
        match r {
            Some(s) => optional_text(view_members(args@), key@) == Some(s@),
            None => optional_text(view_members(args@), key@) is None,
        },
{
    match members_get(args, key) {
        Some(v) => match v.as_str() {
            Some(s) => Some(s.clone()),
            None => None,
        },
        None => None,
    }
}

fn optional_u32(args: &Vec<(String, Json)>, key: &str) -> (r: Option<u32>)
    ensures
        r == optional_count(view_members(args@), key@),
{
    match members_get(args, key) {
        Some(v) => match v.as_u64() {
            Some(n) => Some(n as u32),
            None => None,
        },
        None => None,
    }
}

fn optional_string_array(args: &Vec<(String, Json)>, key: &str) -> (r: Option<Vec<String>>)
    ensures
        match r {
            Some(v) => optional_texts(view_members(args@), key@) == Some(views_of(v@)),
            None => optional_texts(view_members(args@), key@) is None,
        },
{
    let arr = match members_get(args, key) {
        Some(v) => match v.as_array() {
            Some(a) => a,
            None => {
                return None;
            },
        },
        None => {
            return None;
        },
    };
    let ghost items = view_items(arr@);
    let ghost f = |j: JsonV| j.as_str();
    proof {
        lemma_view_items_len(arr@);
        assert(items.take(0) =~= Seq::<JsonV>::empty());
        assert(views_of(Seq::<String>::empty()) =~= items.take(0).filter_map(f));
    }
    let mut out: Vec<String> = Vec::new();
    let mut i: usize = 0;
    while i < arr.len()
        invariant
            i <= arr.len(),
            items == view_items(arr@),
            items.len() == arr@.len(),
            f == (|j: JsonV| j.as_str()),
            views_of(out@) == items.take(i as int).filter_map(f),
        decreases arr.len() - i,
    {
        proof {
            lemma_view_items_index(arr@, i as int);
            items.lemma_filter_map_take_succ(f, i as int);
        }
        let ghost before = out@;
        match arr[i].as_str() {
            Some(s) => {
                out.push(s.clone());
                assert(views_of(out@) =~= views_of(before) + seq![s@]);
            },
            None => {},
        }
        i = i + 1;
    }
    assert(items.take(arr@.len() as int) =~= items);
    Some(out)
}

fn optional_i64_array(args: &Vec<(String, Json)>, key: &str) -> (r: Option<Vec<i64>>)
    ensures
        match r {
            Some(v) => optional_ints(view_members(args@), key@) == Some(v@),
            None => optional_ints(view_members(args@), key@) is None,
        },
{
    let arr = match members_get(args, key) {
        Some(v) => match v.as_array() {
            Some(a) => a,
            None => {
                return None;
            },
        },
        None => {
            return None;
        },
    };
    let ghost items = view_items(arr@);
    let ghost f = |j: JsonV| j.as_i64();
    proof {
        lemma_view_items_len(arr@);
        assert(items.take(0) =~= Seq::<JsonV>::empty());
        assert(Seq::<i64>::empty() =~= items.take(0).filter_map(f));
    }
    let mut out: Vec<i64> = Vec::new();
    let mut i: usize = 0;
    while i < arr.len()
        invariant
            i <= arr.len(),
            items == view_items(arr@),
            items.len() == arr@.len(),
            f == (|j: JsonV| j.as_i64()),
            out@ == items.take(i as int).filter_map(f),
        decreases arr.len() - i,
    {
        proof {
            lemma_view_items_index(arr@, i as int);
            items.lemma_filter_map_take_succ(f, i as int);
        }
        let ghost before = out@;
        match arr[i].as_i64() {
            Some(n) => {
                out.push(n);
                assert(out@ =~= before + seq![n]);
            },
            None => {},
        }
        i = i + 1;
    }
    assert(items.take(arr@.len() as int) =~= items);
    Some(out)
}

fn optional_object(args: &Vec<(String, Json)>, key: &str) -> (r: Option<Vec<(String, Json)>>)
    ensures
        match r {
            Some(ms) => optional_members(view_members(args@), key@) == Some(view_members(ms@)),
            None => optional_members(view_members(args@), key@) is None,
        },
{
    match members_get(args, key) {
        Some(v) => match v.as_object() {
            Some(_) => match v.deep_clone() {
                Json::Object(ms) => Some(ms),
                _ => None,
            },
            None => None,
        },
        None => None,
    }
}

// ---------------------------------------------------------------------------------------
// Read-only mode.
// ---------------------------------------------------------------------------------------

/// Methods that only read: a fixed list of names, and names beginning with `get_`,
/// `check_`, `has_`, `is_` or `can_`.
pub open spec fn read_only_method(m: Seq<char>) -> bool {
    ||| m == "name_get"@
    ||| m == "name_search"@
    ||| m == "read_group"@
    ||| m == "fields_get"@
    ||| m == "search"@
    ||| m == "search_read"@
    ||| m == "search_count"@
    ||| m == "default_get"@
    ||| "get_"@.is_prefix_of(m)
    ||| "check_"@.is_prefix_of(m)
    ||| "has_"@.is_prefix_of(m)
    ||| "is_"@.is_prefix_of(m)
    ||| "can_"@.is_prefix_of(m)
}

/// Refuses a write when the server is read-only.
pub fn guard_write(read_only: bool) -> (r: Result<(), OdooError>)
    ensures
        r is Ok <==> !read_only,
        r matches Err(e) ==> e@ == OdooErrorV::ReadOnly,
{
    if read_only {
        return Err(OdooError::ReadOnly);
    }
    Ok(())
}

/// Whether `method` only reads, and may be called in read-only mode.
pub fn is_read_only_method(method: &str) -> (r: bool)
    ensures
        r == read_only_method(method@),
{
    str_eq(method, "name_get") || str_eq(method, "name_search") || str_eq(method, "read_group")
        || str_eq(method, "fields_get") || str_eq(method, "search") || str_eq(
        method,
        "search_read",
    ) || str_eq(method, "search_count") || str_eq(method, "default_get") || starts_with(
        method,
        "get_",
    ) || starts_with(method, "check_") || starts_with(method, "has_") || starts_with(
        method,
        "is_",
    ) || starts_with(method, "can_")
}

// ---------------------------------------------------------------------------------------
// Dispatching a tool call.
// ---------------------------------------------------------------------------------------

pub open spec fn single(call: OdooCallV) -> ToolPlanV {
    ToolPlanV { calls: seq![call], finish: Finish::Reply }
}

/// What a call of tool `tool` with arguments `args` asks of Odoo, or why it is refused.
pub open spec fn dispatch_spec(
    tool: Seq<char>,
    args: Seq<(Seq<char>, JsonV)>,
    read_only: bool,
    page_size: u32,
) -> Result<ToolPlanV, OdooErrorV> {
    if tool == "list_models"@ {
        Ok(ToolPlanV { calls: seq![list_models_call_spec()], finish: Finish::FilterModels })
    } else if tool == "describe_model"@ {
        match required_str(args, "model"@) {
            Err(e) => Err(e),
            Ok(model) => Ok(single(describe_model_call(model))),
        }
    } else if tool == "search"@ {
        match required_str(args, "model"@) {
            Err(e) => Err(e),
            Ok(model) => match required_value(args, "domain"@) {
                Err(e) => Err(e),
                Ok(domain) => {
                    let limit = effective_limit(optional_count(args, "limit"@), page_size);
                    let offset = effective_offset(optional_count(args, "offset"@));
                    Ok(
                        ToolPlanV {
                            calls: seq![
                                search_records_call(
                                    model,
                                    domain,
                                    optional_texts(args, "fields"@),
                                    limit,
                                    offset,
                                    optional_text(args, "order"@),
                                ),
                                search_count_call(model, domain),
                            ],
                            finish: Finish::Paginate { offset, limit },
                        },
                    )
                },
            },
        }
    } else if tool == "read"@ {
        match required_str(args, "model"@) {
            Err(e) => Err(e),
            Ok(model) => match required_ints(args, "ids"@) {
                Err(e) => Err(e),
                Ok(ids) => Ok(single(read_call(model, ids, optional_texts(args, "fields"@)))),
            },
        }
    } else if tool == "create"@ {
        if read_only {
            Err(OdooErrorV::ReadOnly)
        } else {
            match required_str(args, "model"@) {
                Err(e) => Err(e),
                Ok(model) => match required_value(args, "values"@) {
                    Err(e) => Err(e),
                    Ok(values) => Ok(single(create_call(model, values))),
                },
            }
        }
    } else if tool == "write"@ {
        if read_only {
            Err(OdooErrorV::ReadOnly)
        } else {
            match required_str(args, "model"@) {
                Err(e) => Err(e),
                Ok(model) => match required_ints(args, "ids"@) {
                    Err(e) => Err(e),
                    Ok(ids) => match required_value(args, "values"@) {
                        Err(e) => Err(e),
                        Ok(values) => Ok(single(write_call(model, ids, values))),
                    },
                },
            }
        }
    } else if tool == "delete"@ {
        if read_only {
            Err(OdooErrorV::ReadOnly)
        } else {
            match required_str(args, "model"@) {
                Err(e) => Err(e),
                Ok(model) => match required_ints(args, "ids"@) {
                    Err(e) => Err(e),
                    Ok(ids) => Ok(single(delete_call(model, ids))),
                },
            }
        }
    } else if tool == "call_method"@ {
        match required_str(args, "model"@) {
            Err(e) => Err(e),
            Ok(model) => match required_str(args, "method"@) {
                Err(e) => Err(e),
                Ok(method) => if read_only && !read_only_method(method) {
                    Err(OdooErrorV::ReadOnly)
                } else {
                    Ok(
                        single(
                            call_method_call(
                                model,
                                method,
                                optional_ints(args, "ids"@),
                                optional_members(args, "kwargs"@),
                            ),
                        ),
                    )
                },
            },
        }
    } else {
        Err(OdooErrorV::Validation("unknown tool: "@ + tool))
    }
}

pub open spec fn plan_result_view(r: Result<ToolPlan, OdooError>) -> Result<ToolPlanV, OdooErrorV> {
    match r {
        Ok(p) => Ok(p@),
        Err(e) => Err(e@),
    }
}

fn plan_of(calls: Vec<OdooCall>, finish: Finish) -> (r: ToolPlan)
    ensures
        r@ == (ToolPlanV { calls: call_views(calls@), finish }),
{
    ToolPlan { calls, finish }
}

fn single_plan(call: OdooCall) -> (r: ToolPlan)
    ensures
        r@ == single(call@),
{
    let ghost cv = call@;
    let mut calls: Vec<OdooCall> = Vec::new();
    calls.push(call);
    assert(call_views(calls@) =~= seq![cv]);
    ToolPlan { calls, finish: Finish::Reply }
}

/// What a call of tool `tool_name` with arguments `args` asks of Odoo, or why it is
/// refused: an unknown tool, a missing or ill-typed argument, or a write in read-only mode.
pub fn dispatch(tool_name: &str, args: &Vec<(String, Json)>, read_only: bool, page_size: u32) -> (r:
    Result<ToolPlan, OdooError>)
    ensures
        plan_result_view(r) == dispatch_spec(tool_name@, view_members(args@), read_only, page_size),
{
    if str_eq(tool_name, "list_models") {
        let call = self::list_models::list_models_call();
        let ghost cv = call@;
        let mut calls: Vec<OdooCall> = Vec::new();
        calls.push(call);
        assert(call_views(calls@) =~= seq![cv]);
        Ok(plan_of(calls, Finish::FilterModels))
    } else if str_eq(tool_name, "describe_model") {
        let model = require_str(args, "model")?;
        Ok(single_plan(self::describe_model::describe_model(model.as_str())))
    } else if str_eq(tool_name, "search") {
        let model = require_str(args, "model")?;
        let domain = require_value(args, "domain")?;
        let fields = optional_string_array(args, "fields");
        let limit = optional_u32(args, "limit");
        let offset = optional_u32(args, "offset");
        let order = optional_str(args, "order");
        let eff_limit = match limit {
            Some(l) => l,
            None => page_size,
        };
        let eff_offset = match offset {
            Some(o) => o,
            None => 0,
        };
        let (page, count) = self::search::search_calls(
            model.as_str(),
            domain,
            fields,
            eff_limit,
            eff_offset,
            order,
        );
        let ghost pv = page@;
        let ghost cv = count@;
        let mut calls: Vec<OdooCall> = Vec::new();
        calls.push(page);
        calls.push(count);
        assert(call_views(calls@) =~= seq![pv, cv]);
        Ok(plan_of(calls, Finish::Paginate { offset: eff_offset, limit: eff_limit }))
    } else if str_eq(tool_name, "read") {
        let model = require_str(args, "model")?;
        let ids = require_i64_array(args, "ids")?;
        let fields = optional_string_array(args, "fields");
        Ok(single_plan(self::read::read(model.as_str(), ids, fields)))
    } else if str_eq(tool_name, "create") {
        guard_write(read_only)?;
        let model = require_str(args, "model")?;
        let values = require_value(args, "values")?;
        Ok(single_plan(self::create::create(model.as_str(), values)))
    } else if str_eq(tool_name, "write") {
        guard_write(read_only)?;
        let model = require_str(args, "model")?;
        let ids = require_i64_array(args, "ids")?;
        let values = require_value(args, "values")?;
        Ok(single_plan(self::write::write(model.as_str(), ids, values)))
    } else if str_eq(tool_name, "delete") {
        guard_write(read_only)?;
        let model = require_str(args, "model")?;
        let ids = require_i64_array(args, "ids")?;
        Ok(single_plan(self::delete::delete(model.as_str(), ids)))
    } else if str_eq(tool_name, "call_method") {
        let model = require_str(args, "model")?;
        let method = require_str(args, "method")?;
        if read_only && !is_read_only_method(method.as_str()) {
            return Err(OdooError::ReadOnly);
        }
        let ids = optional_i64_array(args, "ids");
        let kwargs = optional_object(args, "kwargs");
        Ok(
            single_plan(
                self::call_method::call_method(model.as_str(), method.as_str(), ids, kwargs),
            ),
        )
    } else {
        Err(OdooError::Validation(concat_str("unknown tool: ", tool_name)))
    }
}

// ---------------------------------------------------------------------------------------
// Finishing a tool call.
// ---------------------------------------------------------------------------------------

/// The answer to a tool call, from the replies to its calls, in order.
pub open spec fn complete_spec(
    finish: Finish,
    inclusions: Seq<Seq<char>>,
    exclusions: Seq<Seq<char>>,
    replies: Seq<Result<JsonV, OdooErrorV>>,
) -> Result<JsonV, OdooErrorV> {
    match finish {
        Finish::Reply => replies[0],
        Finish::FilterModels => match replies[0] {
            Ok(v) => Ok(list_models_result(inclusions, exclusions, v)),
            Err(e) => Err(e),
        },
        Finish::Paginate { offset, limit } => search_result(replies[0], replies[1], offset, limit),
    }
}

/// The answer to a tool call, once the replies to its calls (in the plan's order) are in.
pub fn complete(finish: Finish, filter: &ModelFilter, replies: Vec<Result<Json, OdooError>>) -> (r:
    Result<Json, OdooError>)
    requires
        replies@.len() == finish_calls(finish),
    ensures
        result_view(r) == complete_spec(
            finish,
            filter.inclusion_patterns(),
            filter.exclusion_patterns(),
            result_views(replies@),
        ),
{
    let ghost rv = result_views(replies@);
    let mut replies = replies;
    match finish {
        Finish::Reply => {
            let first = replies.pop().unwrap();
            first
        },
        Finish::FilterModels => {
            let first = replies.pop().unwrap();
            match first {
                Ok(v) => Ok(self::list_models::list_models(filter, v)),
                Err(e) => Err(e),
            }
        },
        Finish::Paginate { offset, limit } => {
            let second = replies.pop().unwrap();
            let first = replies.pop().unwrap();
            self::search::search(first, second, offset, limit)
        },
    }
}

// ---------------------------------------------------------------------------------------
// Laws.
// ---------------------------------------------------------------------------------------

/// In read-only mode the tools `create`, `write` and `delete` are refused with
/// `ReadOnly`, whatever their arguments.
pub proof fn lemma_read_only_refuses_writes(
    tool: Seq<char>,
    args: Seq<(Seq<char>, JsonV)>,
    page_size: u32,
)
    requires
        tool == "create"@ || tool == "write"@ || tool == "delete"@,
    ensures
        dispatch_spec(tool, args, true, page_size) == Err::<ToolPlanV, OdooErrorV>(
            OdooErrorV::ReadOnly,
        ),
{
    lemma_tool_names_differ();
}

/// The method names of the write tools are not read-only methods.
pub proof fn lemma_write_methods_not_read_only()
    ensures
        !read_only_method("create"@),
        !read_only_method("write"@),
        !read_only_method("unlink"@),
{
    reveal_strlit("create");
    reveal_strlit("write");
    reveal_strlit("unlink");
    reveal_strlit("name_get");
    reveal_strlit("name_search");
    reveal_strlit("read_group");
    reveal_strlit("fields_get");
    reveal_strlit("search");
    reveal_strlit("search_read");
    reveal_strlit("search_count");
    reveal_strlit("default_get");
    reveal_strlit("get_");
    reveal_strlit("check_");
    reveal_strlit("has_");
    reveal_strlit("is_");
    reveal_strlit("can_");
    assert("create"@[0] != "name_get"@[0]);
    assert("create"@[0] != "name_search"@[0]);
    assert("create"@[0] != "read_group"@[0]);
    assert("create"@[0] != "fields_get"@[0]);
    assert("create"@[0] != "search"@[0]);
    assert("create"@[0] != "search_read"@[0]);
    assert("create"@[0] != "search_count"@[0]);
    assert("create"@[0] != "default_get"@[0]);
    assert("create"@[0] != "get_"@[0]);
    assert("create"@[1] != "check_"@[1]);
    assert("create"@[0] != "has_"@[0]);
    assert("create"@[0] != "is_"@[0]);
    assert("create"@[1] != "can_"@[1]);
    assert("write"@[0] != "name_get"@[0]);
    assert("write"@[0] != "name_search"@[0]);
    assert("write"@[0] != "read_group"@[0]);
    assert("write"@[0] != "fields_get"@[0]);
    assert("write"@[0] != "search"@[0]);
    assert("write"@[0] != "search_read"@[0]);
    assert("write"@[0] != "search_count"@[0]);
    assert("write"@[0] != "default_get"@[0]);
    assert("write"@[0] != "get_"@[0]);
    assert("write"@[0] != "check_"@[0]);
    assert("write"@[0] != "has_"@[0]);
    assert("write"@[0] != "is_"@[0]);
    assert("write"@[0] != "can_"@[0]);
    assert("unlink"@[0] != "name_get"@[0]);
    assert("unlink"@[0] != "name_search"@[0]);
    assert("unlink"@[0] != "read_group"@[0]);
    assert("unlink"@[0] != "fields_get"@[0]);
    assert("unlink"@[0] != "search"@[0]);
    assert("unlink"@[0] != "search_read"@[0]);
    assert("unlink"@[0] != "search_count"@[0]);
    assert("unlink"@[0] != "default_get"@[0]);
    assert("unlink"@[0] != "get_"@[0]);
    assert("unlink"@[0] != "check_"@[0]);
    assert("unlink"@[0] != "has_"@[0]);
    assert("unlink"@[0] != "is_"@[0]);
    assert("unlink"@[0] != "can_"@[0]);
}

/// In read-only mode, every call that a tool plans is a read-only method or `read`; in
/// particular none is `create`, `write` or `unlink`.
pub proof fn lemma_read_only_plans_only_reads(
    tool: Seq<char>,
    args: Seq<(Seq<char>, JsonV)>,
    page_size: u32,
)
    ensures
        dispatch_spec(tool, args, true, page_size) matches Ok(plan) ==> forall|i: int|
            0 <= i < plan.calls.len() ==> {
                let m = #[trigger] plan.calls[i].method;
                &&& read_only_method(m) || m == "read"@
                &&& m != "create"@ && m != "write"@ && m != "unlink"@
            },
{
    lemma_tool_names_differ();
    lemma_write_methods_not_read_only();
    reveal_strlit("read");
    reveal_strlit("create");
    reveal_strlit("write");
    reveal_strlit("unlink");
    assert("read"@[0] != "create"@[0]);
    assert("read"@[0] != "write"@[0]);
    assert("read"@[0] != "unlink"@[0]);
}

/// A plan has as many calls as its finish step takes replies.
pub proof fn lemma_plan_call_count(
    tool: Seq<char>,
    args: Seq<(Seq<char>, JsonV)>,
    read_only: bool,
    page_size: u32,
)
    ensures
        dispatch_spec(tool, args, read_only, page_size) matches Ok(plan) ==> plan.calls.len()
            == finish_calls(plan.finish),
{
}

/// Read-only mode changes nothing for the tools that only read: `list_models`,
/// `describe_model`, `search` and `read` plan the same calls, or fail the same way, either way.
pub proof fn lemma_reading_tools_ignore_read_only(
    tool: Seq<char>,
    args: Seq<(Seq<char>, JsonV)>,
    page_size: u32,
)
    requires
        tool == "list_models"@ || tool == "describe_model"@ || tool == "search"@ || tool == "read"@,
    ensures
        dispatch_spec(tool, args, true, page_size) == dispatch_spec(tool, args, false, page_size),
{
}

/// A search is planned exactly when a model name and a domain are given; its page call and
/// its count call ask the same model about the same domain, and the page call asks for the
/// very offset and page size that the answer reports.
pub proof fn lemma_search_plan(args: Seq<(Seq<char>, JsonV)>, read_only: bool, page_size: u32)
    ensures
        dispatch_spec("search"@, args, read_only, page_size) is Ok <==> (required_str(
            args,
            "model"@,
        ) is Ok && member(args, "domain"@) is Some),
        dispatch_spec("search"@, args, read_only, page_size) matches Ok(plan) ==> {
            &&& plan.calls.len() == 2
            &&& plan.finish is Paginate
            &&& plan.calls[0].method == "search_read"@
            &&& plan.calls[1].method == "search_count"@
            &&& plan.calls[0].model == required_str(args, "model"@)->Ok_0
            &&& plan.calls[1].model == required_str(args, "model"@)->Ok_0
            &&& plan.calls[0].body.get("domain"@) == member(args, "domain"@)
            &&& plan.calls[1].body.get("domain"@) == member(args, "domain"@)
            &&& plan.calls[0].body.get("offset"@) == Some(uint_value(plan.finish->offset as u64))
            &&& plan.calls[0].body.get("limit"@) == Some(uint_value(plan.finish->limit as u64))
        },
{
    reveal_strlit("search");
    reveal_strlit("list_models");
    reveal_strlit("describe_model");
    assert("search"@[0] != "list_models"@[0]);
    assert("search"@[0] != "describe_model"@[0]);
    if let Ok(model) = required_str(args, "model"@) {
        if let Ok(domain) = required_value(args, "domain"@) {
            let limit = effective_limit(optional_count(args, "limit"@), page_size);
            let offset = effective_offset(optional_count(args, "offset"@));
            lemma_page_request(
                model,
                domain,
                optional_texts(args, "fields"@),
                limit,
                offset,
                optional_text(args, "order"@),
            );
            lemma_count_request(model, domain);
        }
    }
}

/// `call_method` is planned exactly when a model and a method name are given and, in
/// read-only mode, the method only reads; otherwise a given model and method are refused
/// with `ReadOnly`. The one call is that method on that model, and it carries the record ids
/// whenever ids are given, with or without keyword arguments.
pub proof fn lemma_call_method_plan(args: Seq<(Seq<char>, JsonV)>, read_only: bool, page_size: u32)
    ensures
        (required_str(args, "model"@) is Ok && required_str(args, "method"@) is Ok) ==> (
        dispatch_spec("call_method"@, args, read_only, page_size) is Ok <==> !(read_only
            && !read_only_method(required_str(args, "method"@)->Ok_0))),
        (required_str(args, "model"@) is Ok && required_str(args, "method"@) is Ok && read_only
            && !read_only_method(required_str(args, "method"@)->Ok_0)) ==> dispatch_spec(
            "call_method"@,
            args,
            read_only,
            page_size,
        ) == Err::<ToolPlanV, OdooErrorV>(OdooErrorV::ReadOnly),
        dispatch_spec("call_method"@, args, read_only, page_size) matches Ok(plan) ==> {
            &&& plan.calls.len() == 1
            &&& plan.finish == Finish::Reply
            &&& plan.calls[0].model == required_str(args, "model"@)->Ok_0
            &&& plan.calls[0].method == required_str(args, "method"@)->Ok_0
            &&& optional_ints(args, "ids"@) matches Some(ids) ==> plan.calls[0].body.get("ids"@)
                == Some(ints_value(ids))
        },
{
    lemma_tool_names_distinct();
    if let Ok(model) = required_str(args, "model"@) {
        if let Ok(method) = required_str(args, "method"@) {
            lemma_call_method_body(
                model,
                method,
                optional_ints(args, "ids"@),
                optional_members(args, "kwargs"@),
                "ids"@,
            );
        }
    }
}

/// What each of the other tools asks of Odoo, and when it is refused: `describe_model` and
/// `read` need their arguments only; `create`, `write` and `delete` need their arguments and
/// a server that is not read-only. Each planned call is on the model named in the arguments
/// and carries the ids and values given.
pub proof fn lemma_tool_plans(args: Seq<(Seq<char>, JsonV)>, read_only: bool, page_size: u32)
    ensures
        dispatch_spec("list_models"@, args, read_only, page_size) matches Ok(plan) && plan.calls.len()
            == 1 && plan.calls[0].model == "ir.model"@ && plan.calls[0].method == "search_read"@
            && plan.finish == Finish::FilterModels,
        dispatch_spec("describe_model"@, args, read_only, page_size) is Ok <==> required_str(
            args,
            "model"@,
        ) is Ok,
        dispatch_spec("describe_model"@, args, read_only, page_size) matches Ok(plan) ==> (
        plan.calls.len() == 1 && plan.calls[0].model == required_str(args, "model"@)->Ok_0
            && plan.calls[0].method == "fields_get"@),
        dispatch_spec("read"@, args, read_only, page_size) is Ok <==> (required_str(
            args,
            "model"@,
        ) is Ok && required_ints(args, "ids"@) is Ok),
        dispatch_spec("read"@, args, read_only, page_size) matches Ok(plan) ==> (plan.calls.len()
            == 1 && plan.calls[0].model == required_str(args, "model"@)->Ok_0
            && plan.calls[0].method == "read"@ && plan.calls[0].body.get("ids"@) == Some(
            ints_value(required_ints(args, "ids"@)->Ok_0),
        )),
        dispatch_spec("create"@, args, read_only, page_size) is Ok <==> (!read_only
            && required_str(args, "model"@) is Ok && member(args, "values"@) is Some),
        dispatch_spec("create"@, args, read_only, page_size) matches Ok(plan) ==> (
        plan.calls.len() == 1 && plan.calls[0].model == required_str(args, "model"@)->Ok_0
            && plan.calls[0].method == "create"@ && plan.calls[0].body.get("vals_list"@) == Some(
            JsonV::Array(seq![member(args, "values"@)->Some_0]),
        )),
        dispatch_spec("write"@, args, read_only, page_size) is Ok <==> (!read_only && required_str(
            args,
            "model"@,
        ) is Ok && required_ints(args, "ids"@) is Ok && member(args, "values"@) is Some),
        dispatch_spec("write"@, args, read_only, page_size) matches Ok(plan) ==> (plan.calls.len()
            == 1 && plan.calls[0].model == required_str(args, "model"@)->Ok_0
            && plan.calls[0].method == "write"@ && plan.calls[0].body.get("ids"@) == Some(
            ints_value(required_ints(args, "ids"@)->Ok_0),
        ) && plan.calls[0].body.get("vals"@) == member(args, "values"@)),
        dispatch_spec("delete"@, args, read_only, page_size) is Ok <==> (!read_only
            && required_str(args, "model"@) is Ok && required_ints(args, "ids"@) is Ok),
        dispatch_spec("delete"@, args, read_only, page_size) matches Ok(plan) ==> (
        plan.calls.len() == 1 && plan.calls[0].model == required_str(args, "model"@)->Ok_0
            && plan.calls[0].method == "unlink"@ && plan.calls[0].body.get("ids"@) == Some(
            ints_value(required_ints(args, "ids"@)->Ok_0),
        )),
{
    lemma_tool_names_distinct();
    lemma_list_request();
    if let Ok(model) = required_str(args, "model"@) {
        lemma_describe_request(model, "ids"@);
        if let Ok(ids) = required_ints(args, "ids"@) {
            lemma_read_request(model, ids, optional_texts(args, "fields"@));
            lemma_delete_request(model, ids);
            if let Some(values) = member(args, "values"@) {
                lemma_write_request(model, ids, values);
            }
        }
        if let Some(values) = member(args, "values"@) {
            lemma_create_request(model, values);
        }
    }
}

/// How required arguments are read: a string argument is taken as it is given, and refused
/// as missing when it is absent or not a string; any argument is taken as given; an array
/// of ids is taken item by item, each an integer, is refused as a non-integer array as soon
/// as one item is not an integer, and is refused as missing when absent or not an array.
pub proof fn lemma_required_args(args: Seq<(Seq<char>, JsonV)>, key: Seq<char>)
    ensures
        required_str(args, key) matches Ok(s) ==> member(args, key) == Some(JsonV::Str(s)),
        !(member(args, key) matches Some(JsonV::Str(_))) ==> required_str(args, key) == Err::<
            Seq<char>,
            OdooErrorV,
        >(missing_string(key)),
        required_value(args, key) matches Ok(v) ==> member(args, key) == Some(v),
        member(args, key) is None ==> required_value(args, key) == Err::<JsonV, OdooErrorV>(
            missing_value(key),
        ),
        required_ints(args, key) is Ok <==> (member(args, key) matches Some(JsonV::Array(items))
            && forall|k: int| 0 <= k < items.len() ==> (#[trigger] items[k]).as_i64() is Some),
        required_ints(args, key) matches Ok(ids) ==> (member(args, key) matches Some(
            JsonV::Array(items),
        ) && ids.len() == items.len() && forall|k: int|
            0 <= k < items.len() ==> (#[trigger] items[k]).as_i64() == Some(ids[k])),
        !(member(args, key) matches Some(JsonV::Array(_))) ==> required_ints(args, key) == Err::<
            Seq<i64>,
            OdooErrorV,
        >(missing_array(key)),
        (member(args, key) matches Some(JsonV::Array(items)) && exists|k: int|
            0 <= k < items.len() && (#[trigger] items[k]).as_i64() is None) ==> required_ints(
            args,
            key,
        ) == Err::<Seq<i64>, OdooErrorV>(non_integer(key)),
{
    if let Some(JsonV::Array(items)) = member(args, key) {
        if exists|k: int| 0 <= k < items.len() && (#[trigger] items[k]).as_i64() is None {
            let k = choose|k: int| 0 <= k < items.len() && (#[trigger] items[k]).as_i64() is None;
            assert(!all_ints(items));
        }
    }
}

/// How optional arguments are read: a count is a non-negative integer argument, cut to
/// 32 bits, and is absent otherwise; an optional string is taken as given; an array of ids
/// keeps its integer items and skips the others, an array of names its strings.
pub proof fn lemma_optional_args(args: Seq<(Seq<char>, JsonV)>, key: Seq<char>, n: u64)
    ensures
        member(args, key) == Some(JsonV::Num(crate::json::NumberV::PosInt(n))) ==> optional_count(
            args,
            key,
        ) == Some(n as u32),
        !(member(args, key) matches Some(JsonV::Num(crate::json::NumberV::PosInt(_))))
            ==> optional_count(args, key) is None,
        optional_text(args, key) matches Some(t) ==> member(args, key) == Some(JsonV::Str(t)),
        member(args, key) matches Some(JsonV::Str(t)) ==> optional_text(args, key) == Some(t),
        member(args, key) matches Some(JsonV::Array(items)) ==> (optional_ints(args, key)
            matches Some(ids) && (forall|k: int|
            0 <= k < items.len() && (#[trigger] items[k]).as_i64() is Some ==> ids.contains(
                items[k].as_i64()->Some_0,
            )) && ids.len() <= items.len()),
        !(member(args, key) matches Some(JsonV::Array(_))) ==> optional_ints(args, key) is None,
        member(args, key) matches Some(JsonV::Array(items)) ==> (optional_texts(args, key)
            matches Some(ts) && (forall|k: int|
            0 <= k < items.len() && (#[trigger] items[k]).as_str() is Some ==> ts.contains(
                items[k].as_str()->Some_0,
            )) && ts.len() <= items.len()),
        !(member(args, key) matches Some(JsonV::Array(_))) ==> optional_texts(args, key) is None,
{
    broadcast use vstd::seq_lib::group_filter_ensures;

    if let Some(JsonV::Array(items)) = member(args, key) {
        let f = |j: JsonV| j.as_i64();
        lemma_filter_map_len(items, f, items.len() as int);
        assert(items.take(items.len() as int) =~= items);
        assert forall|k: int|
            0 <= k < items.len() && (#[trigger] items[k]).as_i64() is Some implies items.filter_map(
            f,
        ).contains(items[k].as_i64()->Some_0) by {
            lemma_filter_map_keeps(items, f, k, items.len() as int);
        }
        let g = |j: JsonV| j.as_str();
        lemma_filter_map_len(items, g, items.len() as int);
        assert forall|k: int|
            0 <= k < items.len() && (#[trigger] items[k]).as_str() is Some implies items.filter_map(
            g,
        ).contains(items[k].as_str()->Some_0) by {
            lemma_filter_map_keeps(items, g, k, items.len() as int);
        }
    }
}

/// A `filter_map` of the first `n` items has at most `n` items.
proof fn lemma_filter_map_len<A, B>(s: Seq<A>, f: spec_fn(A) -> Option<B>, n: int)
    requires
        0 <= n <= s.len(),
    ensures
        s.take(n).filter_map(f).len() <= n,
    decreases n,
{
    if n > 0 {
        lemma_filter_map_len(s, f, n - 1);
        s.lemma_filter_map_take_succ(f, n - 1);
    } else {
        assert(s.take(0) =~= Seq::<A>::empty());
    }
}

/// An item that `f` maps to a value gives that value in every `filter_map` of a prefix
/// that holds it.
proof fn lemma_filter_map_keeps<A, B>(s: Seq<A>, f: spec_fn(A) -> Option<B>, i: int, n: int)
    requires
        0 <= i < n <= s.len(),
        f(s[i]) is Some,
    ensures
        s.take(n).filter_map(f).contains(f(s[i])->Some_0),
    decreases n,
{
    s.lemma_filter_map_take_succ(f, n - 1);
    let prev = s.take(n - 1).filter_map(f);
    if n == i + 1 {
        assert(s.take(n).filter_map(f)[prev.len() as int] == f(s[i])->Some_0);
    } else {
        lemma_filter_map_keeps(s, f, i, n - 1);
        let j = choose|j: int| 0 <= j < prev.len() && prev[j] == f(s[i])->Some_0;
        assert(s.take(n).filter_map(f)[j] == prev[j]);
    }
}

/// The methods that read only: the fixed names, and every name that begins with `get_`,
/// `check_`, `has_`, `is_` or `can_`.
pub proof fn lemma_read_only_methods(rest: Seq<char>)
    ensures
        read_only_method("name_get"@),
        read_only_method("name_search"@),
        read_only_method("read_group"@),
        read_only_method("fields_get"@),
        read_only_method("search"@),
        read_only_method("search_read"@),
        read_only_method("search_count"@),
        read_only_method("default_get"@),
        read_only_method("get_"@ + rest),
        read_only_method("check_"@ + rest),
        read_only_method("has_"@ + rest),
        read_only_method("is_"@ + rest),
        read_only_method("can_"@ + rest),
{
    assert(("get_"@ + rest).subrange(0, "get_"@.len() as int) =~= "get_"@);
    assert(("check_"@ + rest).subrange(0, "check_"@.len() as int) =~= "check_"@);
    assert(("has_"@ + rest).subrange(0, "has_"@.len() as int) =~= "has_"@);
    assert(("is_"@ + rest).subrange(0, "is_"@.len() as int) =~= "is_"@);
    assert(("can_"@ + rest).subrange(0, "can_"@.len() as int) =~= "can_"@);
}

/// How a tool call is answered from its replies: a failed first reply is the answer, for
/// every tool; a single reply is passed on as it came; a model listing is filtered; a page
/// fails with the count's failure, and otherwise holds the records and the total as they
/// came, with `next_offset` the offset plus the page size.
pub proof fn lemma_complete_answers(
    finish: Finish,
    inclusions: Seq<Seq<char>>,
    exclusions: Seq<Seq<char>>,
    replies: Seq<Result<JsonV, OdooErrorV>>,
)
    requires
        replies.len() == finish_calls(finish),
    ensures
        replies[0] matches Err(e) ==> complete_spec(finish, inclusions, exclusions, replies)
            == Err::<JsonV, OdooErrorV>(e),
        finish == Finish::Reply ==> complete_spec(finish, inclusions, exclusions, replies)
            == replies[0],
        finish == Finish::FilterModels ==> (replies[0] matches Ok(v) ==> complete_spec(
            finish,
            inclusions,
            exclusions,
            replies,
        ) == Ok::<JsonV, OdooErrorV>(list_models_result(inclusions, exclusions, v))),
        finish is Paginate ==> (replies[0] is Ok && replies[1] is Err ==> complete_spec(
            finish,
            inclusions,
            exclusions,
            replies,
        ) == replies[1]),
        finish is Paginate ==> (replies[0] is Ok && replies[1] is Ok ==> (complete_spec(
            finish,
            inclusions,
            exclusions,
            replies,
        ) matches Ok(page) && page.get("records"@) == Some(replies[0]->Ok_0) && page.get(
            "total"@,
        ) == Some(replies[1]->Ok_0) && page.get("next_offset"@) == Some(
            uint_value((finish->offset + finish->limit) as u64),
        ))),
{
    if let Finish::Paginate { offset, limit } = finish {
        if let (Ok(r), Ok(t)) = (replies[0], replies[1]) {
            lemma_page_fields(r, t, offset, limit);
        }
    }
}

/// Which refusal comes first. A missing model is reported before anything else by every tool
/// that needs one, except that the write tools refuse a read-only server first; `call_method`
/// reports a missing method before it looks at read-only mode; `search`, `read`, `write` and
/// `delete` report their second argument once the model is there.
pub proof fn lemma_argument_errors_first(args: Seq<(Seq<char>, JsonV)>, read_only: bool, page_size: u32)
    ensures
        required_str(args, "model"@) is Err ==> {
            &&& dispatch_spec("describe_model"@, args, read_only, page_size) == Err::<
                ToolPlanV,
                OdooErrorV,
            >(missing_string("model"@))
            &&& dispatch_spec("search"@, args, read_only, page_size) == Err::<ToolPlanV, OdooErrorV>(
                missing_string("model"@),
            )
            &&& dispatch_spec("read"@, args, read_only, page_size) == Err::<ToolPlanV, OdooErrorV>(
                missing_string("model"@),
            )
            &&& dispatch_spec("call_method"@, args, read_only, page_size) == Err::<
                ToolPlanV,
                OdooErrorV,
            >(missing_string("model"@))
            &&& !read_only ==> dispatch_spec("create"@, args, read_only, page_size) == Err::<
                ToolPlanV,
                OdooErrorV,
            >(missing_string("model"@))
            &&& !read_only ==> dispatch_spec("write"@, args, read_only, page_size) == Err::<
                ToolPlanV,
                OdooErrorV,
            >(missing_string("model"@))
            &&& !read_only ==> dispatch_spec("delete"@, args, read_only, page_size) == Err::<
                ToolPlanV,
                OdooErrorV,
            >(missing_string("model"@))
        },
        required_str(args, "model"@) is Ok ==> {
            &&& required_str(args, "method"@) is Err ==> dispatch_spec(
                "call_method"@,
                args,
                read_only,
                page_size,
            ) == Err::<ToolPlanV, OdooErrorV>(missing_string("method"@))
            &&& member(args, "domain"@) is None ==> dispatch_spec(
                "search"@,
                args,
                read_only,
                page_size,
            ) == Err::<ToolPlanV, OdooErrorV>(missing_value("domain"@))
            &&& required_ints(args, "ids"@) matches Err(e) ==> dispatch_spec(
                "read"@,
                args,
                read_only,
                page_size,
            ) == Err::<ToolPlanV, OdooErrorV>(e)
            &&& required_ints(args, "ids"@) matches Err(e) ==> (!read_only ==> dispatch_spec(
                "delete"@,
                args,
                read_only,
                page_size,
            ) == Err::<ToolPlanV, OdooErrorV>(e))
            &&& required_ints(args, "ids"@) matches Err(e) ==> (!read_only ==> dispatch_spec(
                "write"@,
                args,
                read_only,
                page_size,
            ) == Err::<ToolPlanV, OdooErrorV>(e))
        },
{
    lemma_tool_names_distinct();
}

/// The tool names are pairwise different.
proof fn lemma_tool_names_differ()
    ensures
        "create"@ != "list_models"@,
        "create"@ != "describe_model"@,
        "create"@ != "search"@,
        "create"@ != "read"@,
        "write"@ != "list_models"@,
        "write"@ != "describe_model"@,
        "write"@ != "search"@,
        "write"@ != "read"@,
        "write"@ != "create"@,
        "delete"@ != "list_models"@,
        "delete"@ != "describe_model"@,
        "delete"@ != "search"@,
        "delete"@ != "read"@,
        "delete"@ != "create"@,
        "delete"@ != "write"@,
{
    reveal_strlit("create");
    reveal_strlit("write");
    reveal_strlit("delete");
    reveal_strlit("list_models");
    reveal_strlit("describe_model");
    reveal_strlit("search");
    reveal_strlit("read");
    assert("create"@[0] != "list_models"@[0]);
    assert("create"@[0] != "describe_model"@[0]);
    assert("create"@[0] != "search"@[0]);
    assert("create"@[0] != "read"@[0]);
    assert("write"@[0] != "list_models"@[0]);
    assert("write"@[0] != "describe_model"@[0]);
    assert("write"@[0] != "search"@[0]);
    assert("write"@[0] != "read"@[0]);
    assert("write"@[0] != "create"@[0]);
    assert("delete"@[0] != "list_models"@[0]);
    assert("delete"@[2] != "describe_model"@[2]);
    assert("delete"@[0] != "search"@[0]);
    assert("delete"@[0] != "read"@[0]);
    assert("delete"@[0] != "create"@[0]);
    assert("delete"@[0] != "write"@[0]);
}

/// A search asks for the page size given, or `PAGE_SIZE` when none is, and starts at the
/// offset given, or 0.
pub proof fn lemma_search_defaults(args: Seq<(Seq<char>, JsonV)>, read_only: bool, page_size: u32)
    requires
        required_str(args, "model"@) is Ok,
        required_value(args, "domain"@) is Ok,
    ensures
        dispatch_spec("search"@, args, read_only, page_size) matches Ok(plan) && plan.finish
            == (Finish::Paginate {
            offset: match optional_count(args, "offset"@) {
                Some(o) => o,
                None => 0,
            },
            limit: match optional_count(args, "limit"@) {
                Some(l) => l,
                None => page_size,
            },
        }),
{
    reveal_strlit("search");
    reveal_strlit("list_models");
    reveal_strlit("describe_model");
    assert("search"@[0] != "list_models"@[0]);
    assert("search"@[0] != "describe_model"@[0]);
}

} // verus!
