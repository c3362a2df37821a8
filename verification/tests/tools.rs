use mcp_odoo::error::OdooError;
use mcp_odoo::json::{Json, Number};
use mcp_odoo::model_filter::ModelFilter;
use mcp_odoo::tools::schemas::tool_schemas;
use mcp_odoo::tools::{complete, dispatch, guard_write, is_read_only_method, Finish, OdooCall};

fn s(v: &str) -> Json {
    Json::Str(v.to_string())
}

fn obj(pairs: Vec<(&str, Json)>) -> Json {
    Json::Object(pairs.into_iter().map(|(k, v)| (k.to_string(), v)).collect())
}

fn members(pairs: Vec<(&str, Json)>) -> Vec<(String, Json)> {
    pairs.into_iter().map(|(k, v)| (k.to_string(), v)).collect()
}

fn ints(v: &[i64]) -> Json {
    Json::Array(v.iter().map(|n| Json::from_i64(*n)).collect())
}

fn one_call(tool: &str, args: Vec<(&str, Json)>, read_only: bool) -> OdooCall {
    let plan = dispatch(tool, &members(args), read_only, 80).expect("plan");
    assert_eq!(plan.finish, Finish::Reply);
    let mut calls = plan.calls;
    assert_eq!(calls.len(), 1);
    calls.pop().unwrap()
}

#[test]
fn describe_model_asks_fields_get() {
    let c = one_call("describe_model", vec![("model", s("res.partner"))], false);
    assert_eq!(c.model, "res.partner");
    assert_eq!(c.method, "fields_get");
    assert_eq!(c.body, obj(vec![]));
}

#[test]
fn create_wraps_values_in_vals_list() {
    let values = obj(vec![("name", s("Acme"))]);
    let c = one_call(
        "create",
        vec![("model", s("res.partner")), ("values", obj(vec![("name", s("Acme"))]))],
        false,
    );
    assert_eq!(c.method, "create");
    assert_eq!(c.body, obj(vec![("vals_list", Json::Array(vec![values]))]));
}

#[test]
fn write_sends_ids_and_vals() {
    let c = one_call(
        "write",
        vec![
            ("model", s("res.partner")),
            ("ids", ints(&[1, 2])),
            ("values", obj(vec![("active", Json::Bool(false))])),
        ],
        false,
    );
    assert_eq!(c.method, "write");
    assert_eq!(
        c.body,
        obj(vec![("ids", ints(&[1, 2])), ("vals", obj(vec![("active", Json::Bool(false))]))])
    );
}

#[test]
fn delete_calls_unlink() {
    let c = one_call("delete", vec![("model", s("res.partner")), ("ids", ints(&[7]))], false);
    assert_eq!(c.method, "unlink");
    assert_eq!(c.body, obj(vec![("ids", ints(&[7]))]));
}

#[test]
fn read_with_and_without_fields() {
    let c = one_call("read", vec![("model", s("res.partner")), ("ids", ints(&[3, -4]))], false);
    assert_eq!(c.method, "read");
    assert_eq!(c.body, obj(vec![("ids", ints(&[3, -4]))]));
    assert_eq!(
        c.body.get("ids"),
        Some(&Json::Array(vec![
            Json::Num(Number::PosInt(3)),
            Json::Num(Number::NegInt(-4))
        ]))
    );
    let c = one_call(
        "read",
        vec![
            ("model", s("res.partner")),
            ("ids", ints(&[3])),
            ("fields", Json::Array(vec![s("name"), Json::from_i64(5), s("email")])),
        ],
        false,
    );
    assert_eq!(
        c.body,
        obj(vec![("ids", ints(&[3])), ("fields", Json::Array(vec![s("name"), s("email")]))])
    );
}

#[test]
fn read_refuses_non_integer_ids() {
    let r = dispatch(
        "read",
        &members(vec![("model", s("res.partner")), ("ids", Json::Array(vec![Json::from_i64(1), s("2")]))]),
        false,
        80,
    );
    assert_eq!(
        r.err(),
        Some(OdooError::Validation("non-integer value in ids array".to_string()))
    );
}

#[test]
fn missing_arguments_are_named() {
    let r = dispatch("describe_model", &members(vec![]), false, 80);
    assert_eq!(
        r.err(),
        Some(OdooError::Validation("missing required string parameter: model".to_string()))
    );
    let r = dispatch("search", &members(vec![("model", s("res.partner"))]), false, 80);
    assert_eq!(
        r.err(),
        Some(OdooError::Validation("missing required parameter: domain".to_string()))
    );
    let r = dispatch("delete", &members(vec![("model", s("res.partner")), ("ids", s("1"))]), false, 80);
    assert_eq!(
        r.err(),
        Some(OdooError::Validation("missing required array parameter: ids".to_string()))
    );
    let r = dispatch("describe_model", &members(vec![("model", Json::from_i64(1))]), false, 80);
    assert_eq!(
        r.err(),
        Some(OdooError::Validation("missing required string parameter: model".to_string()))
    );
}

#[test]
fn unknown_tool_is_refused() {
    let r = dispatch("drop_database", &members(vec![]), false, 80);
    assert_eq!(r.err(), Some(OdooError::Validation("unknown tool: drop_database".to_string())));
}

#[test]
fn read_only_blocks_write_tools() {
    for tool in ["create", "write", "delete"] {
        let r = dispatch(
            tool,
            &members(vec![("model", s("res.partner")), ("ids", ints(&[1])), ("values", obj(vec![]))]),
            true,
            80,
        );
        assert_eq!(r.err(), Some(OdooError::ReadOnly));
    }
    // Read-only mode is checked before the arguments.
    let r = dispatch("create", &members(vec![]), true, 80);
    assert_eq!(r.err(), Some(OdooError::ReadOnly));
}

#[test]
fn read_only_allows_reading_tools() {
    assert!(dispatch("list_models", &members(vec![]), true, 80).is_ok());
    let c = one_call("read", vec![("model", s("res.partner")), ("ids", ints(&[1]))], true);
    assert_eq!(c.method, "read");
}

#[test]
fn read_only_call_method_rules() {
    let ok = one_call(
        "call_method",
        vec![("model", s("res.partner")), ("method", s("name_search"))],
        true,
    );
    assert_eq!(ok.method, "name_search");
    let ok = one_call(
        "call_method",
        vec![("model", s("res.partner")), ("method", s("get_formview_action"))],
        true,
    );
    assert_eq!(ok.method, "get_formview_action");
    let r = dispatch(
        "call_method",
        &members(vec![("model", s("res.partner")), ("method", s("action_archive"))]),
        true,
        80,
    );
    assert_eq!(r.err(), Some(OdooError::ReadOnly));
    let r = dispatch(
        "call_method",
        &members(vec![("model", s("res.partner")), ("method", s("unlink"))]),
        true,
        80,
    );
    assert_eq!(r.err(), Some(OdooError::ReadOnly));
    // Without read-only mode any method goes through.
    let ok = one_call(
        "call_method",
        vec![("model", s("res.partner")), ("method", s("action_archive"))],
        false,
    );
    assert_eq!(ok.method, "action_archive");
}

#[test]
fn call_method_body_from_kwargs_and_ids() {
    let c = one_call(
        "call_method",
        vec![
            ("model", s("res.partner")),
            ("method", s("message_post")),
            ("ids", Json::Array(vec![Json::from_i64(4), s("x"), Json::from_i64(5)])),
            ("kwargs", obj(vec![("body", s("hi")), ("ids", ints(&[99]))])),
        ],
        false,
    );
    // The ids argument replaces an `ids` keyword argument, in place; non-integers are dropped.
    assert_eq!(c.body, obj(vec![("body", s("hi")), ("ids", ints(&[4, 5]))]));
    let c = one_call(
        "call_method",
        vec![("model", s("res.partner")), ("method", s("check_access")), ("kwargs", s("not an object"))],
        false,
    );
    assert_eq!(c.body, obj(vec![]));
}

#[test]
fn is_read_only_method_list_and_prefixes() {
    for m in [
        "name_get",
        "name_search",
        "read_group",
        "fields_get",
        "search",
        "search_read",
        "search_count",
        "default_get",
        "get_x",
        "check_access_rights",
        "has_group",
        "is_company",
        "can_edit",
    ] {
        assert!(is_read_only_method(m), "{m}");
    }
    for m in ["create", "write", "unlink", "read", "searches", "get", "action_confirm", ""] {
        assert!(!is_read_only_method(m), "{m}");
    }
}

#[test]
fn guard_write_follows_mode() {
    assert_eq!(guard_write(false), Ok(()));
    assert_eq!(guard_write(true), Err(OdooError::ReadOnly));
}

#[test]
fn list_models_plan_and_filtering() {
    let plan = dispatch("list_models", &members(vec![]), false, 80).unwrap();
    assert_eq!(plan.finish, Finish::FilterModels);
    assert_eq!(plan.calls.len(), 1);
    let c = &plan.calls[0];
    assert_eq!(c.model, "ir.model");
    assert_eq!(c.method, "search_read");
    assert_eq!(
        c.body,
        obj(vec![
            ("domain", Json::Array(vec![])),
            ("fields", Json::Array(vec![s("model"), s("name"), s("info")])),
        ])
    );
    let filter = ModelFilter::new(vec!["res.*".into()], vec![]);
    let reply = Json::Array(vec![
        obj(vec![("model", s("res.partner")), ("name", s("Contact"))]),
        obj(vec![("model", s("sale.order")), ("name", s("Sale Order"))]),
    ]);
    let answer = complete(plan.finish, &filter, vec![Ok(reply)]).unwrap();
    assert_eq!(
        answer,
        Json::Array(vec![obj(vec![("model", s("res.partner")), ("name", s("Contact"))])])
    );
    // A reply that is not a list is passed on as it is.
    let answer = complete(Finish::FilterModels, &filter, vec![Ok(s("odd"))]).unwrap();
    assert_eq!(answer, s("odd"));
    let failed = complete(Finish::FilterModels, &filter, vec![Err(OdooError::ReadOnly)]);
    assert_eq!(failed, Err(OdooError::ReadOnly));
}

#[test]
fn search_uses_page_size_by_default() {
    let domain = Json::Array(vec![Json::Array(vec![s("is_company"), s("="), Json::Bool(true)])]);
    let plan = dispatch(
        "search",
        &members(vec![("model", s("res.partner")), ("domain", domain.deep_clone())]),
        false,
        80,
    )
    .unwrap();
    assert_eq!(plan.finish, Finish::Paginate { offset: 0, limit: 80 });
    assert_eq!(plan.calls.len(), 2);
    assert_eq!(plan.calls[0].method, "search_read");
    assert_eq!(
        plan.calls[0].body,
        obj(vec![
            ("domain", domain.deep_clone()),
            ("fields", Json::Array(vec![])),
            ("limit", Json::from_u64(80)),
            ("offset", Json::from_u64(0)),
        ])
    );
    assert_eq!(plan.calls[1].method, "search_count");
    assert_eq!(plan.calls[1].body, obj(vec![("domain", domain)]));
}

#[test]
fn search_with_all_arguments() {
    let plan = dispatch(
        "search",
        &members(vec![
            ("model", s("res.partner")),
            ("domain", Json::Array(vec![])),
            ("fields", Json::Array(vec![s("name")])),
            ("limit", Json::from_u64(10)),
            ("offset", Json::from_u64(20)),
            ("order", s("name asc")),
        ]),
        false,
        80,
    )
    .unwrap();
    assert_eq!(plan.finish, Finish::Paginate { offset: 20, limit: 10 });
    assert_eq!(
        plan.calls[0].body,
        obj(vec![
            ("domain", Json::Array(vec![])),
            ("fields", Json::Array(vec![s("name")])),
            ("limit", Json::from_u64(10)),
            ("offset", Json::from_u64(20)),
            ("order", s("name asc")),
        ])
    );
}

#[test]
fn search_limit_is_cut_to_32_bits() {
    let plan = dispatch(
        "search",
        &members(vec![
            ("model", s("res.partner")),
            ("domain", Json::Array(vec![])),
            ("limit", Json::from_u64((1u64 << 32) + 5)),
            ("offset", Json::from_i64(-1)),
        ]),
        false,
        80,
    )
    .unwrap();
    assert_eq!(plan.finish, Finish::Paginate { offset: 0, limit: 5 });
}

#[test]
fn search_page_metadata() {
    let records = Json::Array(vec![obj(vec![("id", Json::from_i64(1))])]);
    let page = complete(
        Finish::Paginate { offset: 20, limit: 10 },
        &ModelFilter::new(vec![], vec![]),
        vec![Ok(records.deep_clone()), Ok(Json::from_u64(31))],
    )
    .unwrap();
    assert_eq!(page.get("records"), Some(&records));
    assert_eq!(page.get("total"), Some(&Json::from_u64(31)));
    assert_eq!(page.get("has_more"), Some(&Json::Bool(true)));
    assert_eq!(page.get("next_offset"), Some(&Json::from_u64(30)));
    let last = complete(
        Finish::Paginate { offset: 20, limit: 10 },
        &ModelFilter::new(vec![], vec![]),
        vec![Ok(records.deep_clone()), Ok(Json::from_u64(30))],
    )
    .unwrap();
    assert_eq!(last.get("has_more"), Some(&Json::Bool(false)));
    // A count that is not a number counts as 0.
    let odd = complete(
        Finish::Paginate { offset: 0, limit: 80 },
        &ModelFilter::new(vec![], vec![]),
        vec![Ok(records), Ok(s("many"))],
    )
    .unwrap();
    assert_eq!(odd.get("has_more"), Some(&Json::Bool(false)));
    assert_eq!(odd.get("next_offset"), Some(&Json::from_u64(80)));
}

#[test]
fn search_reports_first_failure() {
    let f = ModelFilter::new(vec![], vec![]);
    let r = complete(
        Finish::Paginate { offset: 0, limit: 1 },
        &f,
        vec![Err(OdooError::NotFound("a".into())), Err(OdooError::ReadOnly)],
    );
    assert_eq!(r, Err(OdooError::NotFound("a".into())));
    let r = complete(
        Finish::Paginate { offset: 0, limit: 1 },
        &f,
        vec![Ok(Json::Array(vec![])), Err(OdooError::ReadOnly)],
    );
    assert_eq!(r, Err(OdooError::ReadOnly));
}

#[test]
fn reply_is_passed_through() {
    let f = ModelFilter::new(vec![], vec![]);
    assert_eq!(complete(Finish::Reply, &f, vec![Ok(Json::from_i64(42))]), Ok(Json::from_i64(42)));
}

#[test]
fn tool_schemas_announce_the_eight_tools() {
    let defs = tool_schemas();
    let names: Vec<&str> = defs.iter().map(|d| d.name).collect();
    assert_eq!(
        names,
        vec!["list_models", "describe_model", "search", "read", "create", "write", "delete", "call_method"]
    );
    for d in &defs {
        let schema = Json::Object(
            d.schema.iter().map(|(k, v)| (k.clone(), v.deep_clone())).collect(),
        );
        assert_eq!(schema.get("type"), Some(&s("object")));
        // Every announced tool is known to dispatch.
        let r = dispatch(d.name, &members(vec![]), false, 80);
        if let Err(OdooError::Validation(m)) = &r {
            assert!(!m.starts_with("unknown tool"), "{m}");
        }
    }
    let search = &defs[2];
    assert_eq!(
        search.description,
        "Search records in an Odoo model with domain filters. Returns paginated results with total count."
    );
    let required = search.schema.iter().find(|(k, _)| k == "required").map(|(_, v)| v);
    assert_eq!(required, Some(&Json::Array(vec![s("model"), s("domain")])));
}
