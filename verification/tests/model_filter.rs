use mcp_odoo::json::Json;
use mcp_odoo::model_filter::ModelFilter;

fn entry(pairs: &[(&str, &str)]) -> Json {
    Json::Object(
        pairs
            .iter()
            .map(|(k, v)| (k.to_string(), Json::Str(v.to_string())))
            .collect(),
    )
}

fn model_of(j: &Json) -> Option<&Json> {
    j.get("model")
}

#[test]
fn empty_include_matches_all() {
    let f = ModelFilter::new(vec![], vec![]);
    assert!(f.matches("res.partner"));
    assert!(f.matches("sale.order"));
}

#[test]
fn wildcard_include_matches_all() {
    let f = ModelFilter::new(vec!["*".into()], vec![]);
    assert!(f.matches("res.partner"));
}

#[test]
fn specific_include_pattern() {
    let f = ModelFilter::new(vec!["res.*".into()], vec![]);
    assert!(f.matches("res.partner"));
    assert!(!f.matches("sale.order"));
}

#[test]
fn multiple_include_patterns() {
    let f = ModelFilter::new(vec!["res.*".into(), "sale.*".into()], vec![]);
    assert!(f.matches("res.partner"));
    assert!(f.matches("sale.order"));
    assert!(!f.matches("stock.move"));
}

#[test]
fn exclude_takes_precedence() {
    let f = ModelFilter::new(vec!["res.*".into()], vec!["res.config.*".into()]);
    assert!(f.matches("res.partner"));
    assert!(!f.matches("res.config.settings"));
}

#[test]
fn exclude_with_wildcard_include() {
    let f = ModelFilter::new(vec!["*".into()], vec!["ir.*".into()]);
    assert!(f.matches("res.partner"));
    assert!(!f.matches("ir.model"));
}

#[test]
fn filter_json_models() {
    let f = ModelFilter::new(vec!["res.*".into()], vec![]);
    let models = vec![
        entry(&[("model", "res.partner"), ("name", "Contact")]),
        entry(&[("model", "sale.order"), ("name", "Sale Order")]),
        entry(&[("model", "res.users"), ("name", "Users")]),
    ];
    let result = f.filter(models);
    assert_eq!(result.len(), 2);
    assert_eq!(model_of(&result[0]), Some(&Json::Str("res.partner".to_string())));
    assert_eq!(model_of(&result[1]), Some(&Json::Str("res.users".to_string())));
}

#[test]
fn filter_skips_entries_without_model_field() {
    let f = ModelFilter::new(vec![], vec![]);
    let models = vec![entry(&[("name", "No model field")])];
    let result = f.filter(models);
    assert!(result.is_empty());
}

#[test]
fn filter_skips_entries_whose_model_is_not_a_string() {
    let f = ModelFilter::new(vec![], vec![]);
    let models = vec![
        Json::Object(vec![("model".to_string(), Json::from_i64(3))]),
        Json::Null,
        entry(&[("model", "res.partner")]),
    ];
    let result = f.filter(models);
    assert_eq!(result.len(), 1);
    assert_eq!(model_of(&result[0]), Some(&Json::Str("res.partner".to_string())));
}

#[test]
fn filter_keeps_order_and_whole_entries() {
    let f = ModelFilter::new(vec!["*".into()], vec!["ir.*".into()]);
    let models = vec![
        entry(&[("model", "sale.order"), ("name", "Sale Order")]),
        entry(&[("model", "ir.model"), ("name", "Models")]),
        entry(&[("model", "res.partner"), ("name", "Contact")]),
    ];
    let result = f.filter(models);
    assert_eq!(
        result,
        vec![
            entry(&[("model", "sale.order"), ("name", "Sale Order")]),
            entry(&[("model", "res.partner"), ("name", "Contact")]),
        ]
    );
}

#[test]
fn glob_does_not_match_other_prefix() {
    // glob_match is called for real: a wrapper that ignored its pattern would fail here.
    let f = ModelFilter::new(vec!["res.partner".into()], vec![]);
    assert!(f.matches("res.partner"));
    assert!(!f.matches("res.partners"));
    assert!(!f.matches("res"));
}

#[test]
fn glob_question_mark_and_braces() {
    let f = ModelFilter::new(vec!["res.?artner".into(), "{sale,stock}.*".into()], vec![]);
    assert!(f.matches("res.partner"));
    assert!(f.matches("stock.move"));
    assert!(f.matches("sale.order"));
    assert!(!f.matches("account.move"));
}

#[test]
fn exclusion_alone_hides_only_its_matches() {
    let f = ModelFilter::new(vec![], vec!["mail.*".into(), "bus.*".into()]);
    assert!(!f.matches("mail.message"));
    assert!(!f.matches("bus.bus"));
    assert!(f.matches("res.partner"));
}

#[test]
fn wildcard_among_other_patterns_is_not_special() {
    // Only an include list made of `*` alone skips the glob test; mixed with another
    // pattern, `*` is matched by the glob engine like any other pattern.
    let f = ModelFilter::new(vec!["*".into(), "res.*".into()], vec![]);
    assert!(f.matches("res.partner"));
    assert!(f.matches("sale.order"));
}

#[test]
fn decide_given_hits() {
    let f = ModelFilter::new(vec!["res.*".into(), "sale.*".into()], vec!["res.config.*".into()]);
    assert!(f.decide(&vec![true, false], &vec![false]));
    assert!(!f.decide(&vec![false, false], &vec![false]));
    assert!(!f.decide(&vec![true, true], &vec![true]));
    let all = ModelFilter::new(vec!["*".into()], vec![]);
    assert!(all.decide(&vec![false], &vec![]));
    let none = ModelFilter::new(vec![], vec!["x".into()]);
    assert!(none.decide(&vec![], &vec![false]));
    assert!(!none.decide(&vec![], &vec![true]));
}
