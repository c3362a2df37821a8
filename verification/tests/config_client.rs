use mcp_odoo::config::{parse_comma_list, parse_url, url_check_outcome, Config};
use mcp_odoo::error::OdooError;
use mcp_odoo::json::Json;
use mcp_odoo::odoo_client::{call_outcome, client_settings, endpoint_url};

fn config(url: &str, key: &str, db: &str) -> Config {
    Config {
        odoo_url: url.to_string(),
        odoo_api_key: key.to_string(),
        odoo_db: db.to_string(),
        model_include_raw: "*".to_string(),
        model_exclude_raw: String::new(),
        read_only: false,
        page_size: 80,
    }
}

#[test]
fn comma_lists() {
    assert_eq!(parse_comma_list(""), Vec::<String>::new());
    assert_eq!(parse_comma_list("*"), vec!["*".to_string()]);
    assert_eq!(
        parse_comma_list(" res.* , sale.*,stock.move "),
        vec!["res.*".to_string(), "sale.*".to_string(), "stock.move".to_string()]
    );
    assert_eq!(parse_comma_list(","), vec![String::new(), String::new()]);
    assert_eq!(parse_comma_list("a,,b"), vec!["a".to_string(), String::new(), "b".to_string()]);
    assert_eq!(parse_comma_list("\u{a0}x\t\n"), vec!["x".to_string()]);
    assert_eq!(parse_comma_list("  "), vec![String::new()]);
}

#[test]
fn config_patterns() {
    let mut c = config("http://localhost:8069/", "k", "db");
    c.model_include_raw = "res.*, sale.*".to_string();
    c.model_exclude_raw = "res.config.*".to_string();
    assert_eq!(c.model_include(), vec!["res.*".to_string(), "sale.*".to_string()]);
    assert_eq!(c.model_exclude(), vec!["res.config.*".to_string()]);
    c.model_exclude_raw = String::new();
    assert!(c.model_exclude().is_empty());
}

#[test]
fn urls_are_parsed_and_normalised() {
    assert_eq!(parse_url("http://localhost:8069"), Ok("http://localhost:8069/".to_string()));
    assert_eq!(
        parse_url("HTTPS://Example.COM/odoo/"),
        Ok("https://example.com/odoo/".to_string())
    );
    let e = parse_url("not a url").unwrap_err();
    assert!(e.starts_with("invalid URL: "), "{e}");
    assert_eq!(e, "invalid URL: relative URL without a base");
}

#[test]
fn url_outcome_given_parser_result() {
    assert_eq!(url_check_outcome(Ok("x".to_string())), Ok("x".to_string()));
    assert_eq!(url_check_outcome(Err("boom".to_string())), Err("invalid URL: boom".to_string()));
}

#[test]
fn settings_from_config() {
    let s = client_settings(&config("http://localhost:8069///", "SECRET", "prod")).unwrap();
    assert_eq!(s.authorization, "Bearer SECRET");
    assert_eq!(s.database, "prod");
    assert_eq!(s.base_url, "http://localhost:8069");
    let s = client_settings(&config("http://h/odoo/", "k", "d\u{e9}")).unwrap();
    assert_eq!(s.base_url, "http://h/odoo");
    assert_eq!(s.database, "d\u{e9}");
}

#[test]
fn settings_refuse_bad_header_values() {
    let r = client_settings(&config("http://h/", "bad\nkey", "db"));
    assert_eq!(
        r.err(),
        Some(OdooError::Auth("invalid API key header: failed to parse header value".to_string()))
    );
    let r = client_settings(&config("http://h/", "key", "d\u{7f}b"));
    assert_eq!(
        r.err(),
        Some(OdooError::Auth("invalid database header: failed to parse header value".to_string()))
    );
    assert!(client_settings(&config("http://h/", "tab\tkey", "db")).is_ok());
}

#[test]
fn endpoints() {
    assert_eq!(
        endpoint_url("http://localhost:8069", "res.partner", "search_read"),
        "http://localhost:8069/json/2/res.partner/search_read"
    );
}

#[test]
fn replies() {
    let body = Json::Object(vec![("message".to_string(), Json::Str("nope".to_string()))]);
    assert_eq!(call_outcome(200, Ok(Json::from_i64(5))), Ok(Json::from_i64(5)));
    assert_eq!(
        call_outcome(200, Err("error decoding response body".to_string())),
        Err(OdooError::Http("error decoding response body".to_string()))
    );
    assert_eq!(call_outcome(403, Ok(body)), Err(OdooError::AccessDenied("nope".to_string())));
    assert_eq!(
        call_outcome(500, Err("not json".to_string())),
        Err(OdooError::OdooApi {
            name: "odoo.exceptions.ServerError".to_string(),
            message: "Internal Server Error".to_string()
        })
    );
}

#[test]
fn http_status_mapping() {
    let body = Json::Object(vec![
        ("name".to_string(), Json::Str("odoo.exceptions.UserError".to_string())),
        ("message".to_string(), Json::Str("bad".to_string())),
    ]);
    let empty = Json::Object(vec![]);
    assert_eq!(OdooError::from_http_status(401, &body), OdooError::Auth("bad".into()));
    assert_eq!(OdooError::from_http_status(401, &empty), OdooError::Auth("unknown error".into()));
    assert_eq!(OdooError::from_http_status(403, &body), OdooError::AccessDenied("bad".into()));
    assert_eq!(OdooError::from_http_status(404, &body), OdooError::NotFound("bad".into()));
    assert_eq!(OdooError::from_http_status(422, &body), OdooError::Validation("bad".into()));
    assert_eq!(
        OdooError::from_http_status(500, &body),
        OdooError::OdooApi { name: "odoo.exceptions.UserError".into(), message: "bad".into() }
    );
    assert_eq!(
        OdooError::from_http_status(502, &body),
        OdooError::OdooApi { name: "HTTP 502".into(), message: "bad".into() }
    );
    assert_eq!(
        OdooError::from_http_status(0, &Json::Null),
        OdooError::OdooApi { name: "HTTP 0".into(), message: "unknown error".into() }
    );
    let numeric = Json::Object(vec![("message".to_string(), Json::from_i64(3))]);
    assert_eq!(
        OdooError::from_http_status(418, &numeric),
        OdooError::OdooApi { name: "HTTP 418".into(), message: "unknown error".into() }
    );
}

#[test]
fn error_messages() {
    assert_eq!(OdooError::Auth("x".into()).message(), "Authentication failed: x");
    assert_eq!(OdooError::AccessDenied("x".into()).message(), "Access denied: x");
    assert_eq!(OdooError::NotFound("x".into()).message(), "Not found: x");
    assert_eq!(OdooError::Validation("x".into()).message(), "Validation error: x");
    assert_eq!(
        OdooError::OdooApi { name: "n".into(), message: "m".into() }.message(),
        "Odoo API error (n): m"
    );
    assert_eq!(OdooError::Http("x".into()).message(), "HTTP error: x");
    assert_eq!(OdooError::ReadOnly.message(), "Read-only mode: write operations are blocked");
}
