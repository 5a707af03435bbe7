use subconverter::extra_settings::{ExtraSettings, GlobalSettings};
use subconverter::filter::{
    apply_verdicts, evaluation_result, failures_of, stage_outcome, FilterError, ScriptRun,
};
use subconverter::json::node_json;
use subconverter::proxy::Proxy;

fn node(remark: &str, port: u16) -> Proxy {
    Proxy {
        proxy_type: "ss".to_string(),
        remark: remark.to_string(),
        group: "g".to_string(),
        hostname: "example.com".to_string(),
        port,
        udp: None,
        tfo: Some(true),
        skip_cert_verify: Some(false),
    }
}

fn three() -> Vec<Proxy> {
    vec![node("A", 80), node("B", 0), node("C", 443)]
}

fn remarks(nodes: &[Proxy]) -> Vec<String> {
    nodes.iter().map(|n| n.remark.clone()).collect()
}

#[test]
fn port_filter_drops_port_zero() {
    let mut settings = ExtraSettings::default();
    let mut nodes = three();
    let r = settings.eval_filter_function(&mut nodes, "filter = n => n.port > 0");
    assert_eq!(r, Ok(()));
    assert_eq!(nodes, vec![node("A", 80), node("C", 443)]);
}

#[test]
fn always_true_keeps_everything_in_order() {
    let mut settings = ExtraSettings::default();
    let mut nodes = three();
    let r = settings.eval_filter_function(&mut nodes, "function filter(n) { return true; }");
    assert_eq!(r, Ok(()));
    assert_eq!(nodes, three());
}

#[test]
fn always_false_keeps_nothing() {
    let mut settings = ExtraSettings::default();
    let mut nodes = three();
    let r = settings.eval_filter_function(&mut nodes, "function filter(n) { return false; }");
    assert_eq!(r, Ok(()));
    assert!(nodes.is_empty());
}

#[test]
fn top_level_throw_leaves_nodes_unchanged() {
    let mut settings = ExtraSettings::default();
    let mut nodes = three();
    let r = settings.eval_filter_function(
        &mut nodes,
        "function filter(n) { return false; }\nthrow new Error('boom');",
    );
    assert!(matches!(r, Err(FilterError::ScriptException(ref m)) if m.contains("boom")));
    assert_eq!(nodes, three());
}

#[test]
fn thrown_plain_value_is_a_script_exception() {
    let mut settings = ExtraSettings::default();
    let mut nodes = three();
    let r = settings.eval_filter_function(&mut nodes, "throw 3;");
    assert!(matches!(r, Err(FilterError::ScriptException(_))));
    assert_eq!(nodes, three());
}

#[test]
fn source_with_nul_byte_is_an_eval_error() {
    let mut settings = ExtraSettings::default();
    let mut nodes = three();
    let r = settings.eval_filter_function(&mut nodes, "var filter = n => false;\0");
    assert!(matches!(r, Err(FilterError::EvalError(_))));
    assert_eq!(nodes, three());
}

#[test]
fn missing_filter_is_reported_and_nodes_unchanged() {
    let mut settings = ExtraSettings::default();
    let mut nodes = three();
    let r = settings.eval_filter_function(&mut nodes, "var keep = false;");
    assert_eq!(r, Err(FilterError::MissingFilterFunction));
    assert_eq!(nodes, three());
}

#[test]
fn filter_that_is_not_a_function_is_missing() {
    let mut settings = ExtraSettings::default();
    let mut nodes = three();
    let r = settings.eval_filter_function(&mut nodes, "var filter = 42;");
    assert_eq!(r, Err(FilterError::MissingFilterFunction));
    assert_eq!(nodes, three());
}

#[test]
fn throwing_call_drops_only_that_node() {
    let mut settings = ExtraSettings::default();
    let mut nodes = three();
    let script = "function filter(n) { if (n.port == 0) throw new Error('zero'); return n.port != 443; }";
    let r = settings.eval_filter_function(&mut nodes, script);
    assert_eq!(r, Ok(()));
    assert_eq!(remarks(&nodes), vec!["A".to_string()]);
}

#[test]
fn non_boolean_result_drops_the_node() {
    let mut settings = ExtraSettings::default();
    let mut nodes = three();
    let r = settings.eval_filter_function(&mut nodes, "var filter = n => n.port == 80 ? true : 'yes'");
    assert_eq!(r, Ok(()));
    assert_eq!(remarks(&nodes), vec!["A".to_string()]);
}

#[test]
fn string_fields_reach_the_script() {
    let mut settings = ExtraSettings::default();
    let mut nodes = vec![node("HK \"01\"\n", 1), node("US 02", 2), node("back\\slash", 3)];
    let script = "var filter = n => n.remark.startsWith('HK \"') || n.remark === 'back\\\\slash'";
    let r = settings.eval_filter_function(&mut nodes, script);
    assert_eq!(r, Ok(()));
    assert_eq!(remarks(&nodes), vec!["HK \"01\"\n".to_string(), "back\\slash".to_string()]);
}

#[test]
fn flags_reach_the_script() {
    let mut settings = ExtraSettings::default();
    let mut nodes = three();
    let script = "var filter = n => n.udp === null && n.tfo === true && n.skip_cert_verify === false && n.proxy_type === 'ss'";
    let r = settings.eval_filter_function(&mut nodes, script);
    assert_eq!(r, Ok(()));
    assert_eq!(nodes, three());
}

#[test]
fn same_script_twice_gives_same_survivors() {
    let mut settings = ExtraSettings::default();
    let script = "var filter = n => n.remark !== 'B' && n.port < 400";
    let mut first = three();
    let mut second = three();
    assert_eq!(settings.eval_filter_function(&mut first, script), Ok(()));
    assert_eq!(settings.eval_filter_function(&mut second, script), Ok(()));
    assert_eq!(first, second);
    assert_eq!(remarks(&first), vec!["A".to_string()]);
}

#[test]
fn second_run_reuses_the_context() {
    let mut settings = ExtraSettings::default();
    let mut nodes = three();
    let r = settings.eval_filter_function(&mut nodes, "var marker = 7; function filter(n) { return true; }");
    assert_eq!(r, Ok(()));
    assert!(settings.js_context.is_some());
    let r = settings.eval_filter_function(&mut nodes, "function filter(n) { return typeof marker !== 'undefined' && marker === 7; }");
    assert_eq!(r, Ok(()));
    assert_eq!(nodes, three());
}

#[test]
fn init_creates_context_once() {
    let mut settings = ExtraSettings::default();
    assert!(settings.js_context.is_none());
    assert_eq!(settings.init_js_context(), Ok(()));
    assert!(settings.js_context.is_some() && settings.js_runtime.is_some());
    let mut nodes = three();
    assert_eq!(settings.eval_filter_function(&mut nodes, "var counter = 1; var filter = n => true"), Ok(()));
    assert_eq!(settings.init_js_context(), Ok(()));
    let r = settings.eval_filter_function(&mut nodes, "counter += 1; var filter = n => counter === 2");
    assert_eq!(r, Ok(()));
    assert_eq!(nodes.len(), 3);
}

#[test]
fn empty_node_list_stays_empty() {
    let mut settings = ExtraSettings::default();
    let mut nodes: Vec<Proxy> = Vec::new();
    assert_eq!(settings.eval_filter_function(&mut nodes, "var filter = n => true"), Ok(()));
    assert!(nodes.is_empty());
}

#[test]
fn verdicts_keep_only_true() {
    let mut nodes = three();
    let verdicts = vec![Ok(true), Err("boom".to_string()), Ok(false)];
    apply_verdicts(&mut nodes, &verdicts);
    assert_eq!(nodes, vec![node("A", 80)]);
}

#[test]
fn verdicts_all_true_and_all_false() {
    let mut nodes = three();
    apply_verdicts(&mut nodes, &vec![Ok(true), Ok(true), Ok(true)]);
    assert_eq!(nodes, three());
    apply_verdicts(&mut nodes, &vec![Ok(false), Ok(false), Ok(false)]);
    assert!(nodes.is_empty());
}

#[test]
fn verdicts_failed_call_in_the_middle() {
    let mut nodes = three();
    apply_verdicts(&mut nodes, &vec![Ok(true), Err("x".to_string()), Ok(true)]);
    assert_eq!(nodes, vec![node("A", 80), node("C", 443)]);
}

#[test]
fn stage_outcomes() {
    assert_eq!(stage_outcome(Ok(()), true), Ok(()));
    assert_eq!(stage_outcome(Ok(()), false), Err(FilterError::MissingFilterFunction));
    let thrown = FilterError::ScriptException("t".to_string());
    assert_eq!(stage_outcome(Err(thrown.clone()), true), Err(thrown));
    let fault = FilterError::EvalError("f".to_string());
    assert_eq!(stage_outcome(Err(fault.clone()), false), Err(fault));
}

#[test]
fn node_json_exact_text() {
    let mut p = node("a\"b\\c\n\u{1}", 8080);
    p.udp = Some(true);
    assert_eq!(
        node_json(&p),
        "{\"proxy_type\":\"ss\",\"remark\":\"a\\\"b\\\\c\\u000a\\u0001\",\"group\":\"g\",\"hostname\":\"example.com\",\"port\":8080,\"udp\":true,\"tfo\":true,\"skip_cert_verify\":false}"
    );
    let q = node("é", 0);
    assert!(node_json(&q).contains("\"remark\":\"é\",\"group\""));
    assert!(node_json(&q).contains("\"port\":0,"));
    assert!(node_json(&node("x", 65535)).contains("\"port\":65535,"));
}

#[test]
fn defaults_fall_back_to_flow() {
    let s = ExtraSettings::default();
    assert_eq!(s.clash_proxies_style, "flow");
    assert_eq!(s.clash_proxy_groups_style, "flow");
    assert!(!s.clash_new_field_name);
    assert!(!s.enable_rule_generator && !s.authorized);
    assert!(s.udp.is_none() && s.js_context.is_none() && s.js_runtime.is_none());
    assert!(s.rename_array.is_empty() && s.surge_ssr_path.is_empty());
}

#[test]
fn defaults_follow_global_values() {
    let mut g = GlobalSettings::new();
    g.enable_rule_gen = true;
    g.overwrite_original_rules = true;
    g.surge_ssr_path = "/usr/bin/ssr".to_string();
    g.clash_proxies_style = "block".to_string();
    let s = ExtraSettings::from_global(&g);
    assert!(s.enable_rule_generator && s.overwrite_original_rules);
    assert_eq!(s.surge_ssr_path, "/usr/bin/ssr");
    assert_eq!(s.clash_proxies_style, "block");
    assert_eq!(s.clash_proxy_groups_style, "flow");
}

#[test]
fn run_filter_returns_failed_call_texts() {
    let mut settings = ExtraSettings::default();
    let mut nodes = three();
    let script = "function filter(n) { if (n.port == 0) throw new Error('zero port'); return true; }";
    let failed = settings.run_filter(&mut nodes, script).unwrap();
    assert_eq!(failed.len(), 1);
    assert!(failed[0].contains("zero port"));
    assert_eq!(nodes, vec![node("A", 80), node("C", 443)]);
}

#[test]
fn run_filter_without_failures() {
    let mut settings = ExtraSettings::default();
    let mut nodes = three();
    let failed = settings.run_filter(&mut nodes, "var filter = n => n.port > 0").unwrap();
    assert!(failed.is_empty());
    assert_eq!(remarks(&nodes), vec!["A".to_string(), "C".to_string()]);
}

#[test]
fn failure_texts_in_order() {
    let verdicts = vec![Err("one".to_string()), Ok(true), Ok(false), Err("two".to_string())];
    assert_eq!(failures_of(&verdicts), vec!["one".to_string(), "two".to_string()]);
    assert!(failures_of(&vec![Ok(true), Ok(false)]).is_empty());
}

#[test]
fn declared_filter_works_too() {
    let mut settings = ExtraSettings::default();
    let mut nodes = three();
    let r = settings.eval_filter_function(&mut nodes, "var filter = n => n.port > 0");
    assert_eq!(r, Ok(()));
    assert_eq!(remarks(&nodes), vec!["A".to_string(), "C".to_string()]);
}

#[test]
fn syntax_error_is_an_eval_error() {
    let mut settings = ExtraSettings::default();
    let mut nodes = three();
    let r = settings.eval_filter_function(&mut nodes, "function filter(n) { return (; }");
    assert!(matches!(r, Err(FilterError::EvalError(_))));
    assert_eq!(nodes, three());
}

#[test]
fn filter_found_after_evaluation_is_the_one_called() {
    let mut settings = ExtraSettings::default();
    let mut nodes = three();
    let script = "var filter = function (n) { filter = function (m) { return false; }; return true; };";
    let r = settings.eval_filter_function(&mut nodes, script);
    assert_eq!(r, Ok(()));
    assert_eq!(nodes, three());
}

#[test]
fn evaluation_classification() {
    assert_eq!(evaluation_result(ScriptRun::Completed), Ok(()));
    assert_eq!(
        evaluation_result(ScriptRun::Thrown(Some("SyntaxError".to_string()), "bad".to_string())),
        Err(FilterError::EvalError("bad".to_string()))
    );
    assert_eq!(
        evaluation_result(ScriptRun::Thrown(Some("TypeError".to_string()), "t".to_string())),
        Err(FilterError::ScriptException("t".to_string()))
    );
    assert_eq!(
        evaluation_result(ScriptRun::Thrown(None, "3".to_string())),
        Err(FilterError::ScriptException("3".to_string()))
    );
    assert_eq!(
        evaluation_result(ScriptRun::Failed("nul".to_string())),
        Err(FilterError::EvalError("nul".to_string()))
    );
}
