use deckgl_session::controller::BGAPPDeckGLWASM;
use deckgl_session::doubles::{RecordingRenderer, ScriptedHost};
use deckgl_session::value::{HostValue, LayerConfig};

fn host() -> ScriptedHost {
    ScriptedHost { now: 0, step: 5, webgl2: true, webgl: true }
}

fn controller() -> BGAPPDeckGLWASM<RecordingRenderer> {
    BGAPPDeckGLWASM::new("map".to_owned())
}

#[test]
fn metrics_json_is_exact_and_parseable() {
    let mut env = host();
    let mut c = controller();
    c.initialize(&mut env).unwrap();
    c.add_scatterplot_layer(&mut env, "a".to_owned());
    let s = c.get_performance_metrics();
    assert_eq!(
        s,
        "{\"init_time_ms\":5,\"render_time_ms\":5,\"layer_count\":1,\"memory_usage_kb\":0,\"fps\":0}"
    );
    let v: serde_json::Value = serde_json::from_str(&s).unwrap();
    assert_eq!(v["init_time_ms"], serde_json::Value::from(5u64));
    assert_eq!(v["layer_count"], serde_json::Value::from(1u64));
}

#[test]
fn sanity_aggregate_is_false_without_a_renderer() {
    let mut env = host();
    let mut c = controller();
    c.add_scatterplot_layer(&mut env, "a".to_owned());
    let report = c.run_sanity_checks(&mut env);
    let v: serde_json::Value = serde_json::from_str(&report).unwrap();
    assert_eq!(v["all_passed"], serde_json::Value::Bool(false));
    assert_eq!(v["checks"]["deck_instance_created"], serde_json::Value::Bool(false));
    assert_eq!(v["checks"]["wasm_initialized"], serde_json::Value::Bool(true));
    assert_eq!(v["checks"]["layers_created"], serde_json::Value::Bool(true));
}

#[test]
fn sanity_aggregate_passes_on_a_healthy_session() {
    let mut env = host();
    let mut c = controller();
    c.initialize(&mut env).unwrap();
    c.add_heatmap_layer(&mut env, "t".to_owned());
    let report = c.run_sanity_checks(&mut env);
    let v: serde_json::Value = serde_json::from_str(&report).unwrap();
    assert_eq!(v["all_passed"], serde_json::Value::Bool(true));
    assert_eq!(v["checks"]["webgl2_available"], serde_json::Value::Bool(true));
    // One layer at the fixed hundred-kilobyte estimate.
    assert_eq!(v["performance"]["memory_usage_kb"], serde_json::Value::from(100u64));
    assert_eq!(v["performance"]["layer_count"], serde_json::Value::from(1u64));
}

#[test]
fn sanity_reflects_a_missing_webgl_context() {
    let mut env = ScriptedHost { now: 0, step: 5, webgl2: false, webgl: false };
    let mut c = controller();
    c.initialize(&mut env).unwrap();
    c.add_heatmap_layer(&mut env, "t".to_owned());
    let report = c.run_sanity_checks(&mut env);
    let v: serde_json::Value = serde_json::from_str(&report).unwrap();
    assert_eq!(v["checks"]["webgl2_available"], serde_json::Value::Bool(false));
    assert_eq!(v["all_passed"], serde_json::Value::Bool(false));
}

#[test]
fn webgl_fallback_tier_still_counts_as_available() {
    let mut env = ScriptedHost { now: 0, step: 5, webgl2: false, webgl: true };
    let mut c = controller();
    c.initialize(&mut env).unwrap();
    c.add_heatmap_layer(&mut env, "t".to_owned());
    let report = c.run_sanity_checks(&mut env);
    let v: serde_json::Value = serde_json::from_str(&report).unwrap();
    assert_eq!(v["checks"]["webgl2_available"], serde_json::Value::Bool(true));
    assert_eq!(v["all_passed"], serde_json::Value::Bool(true));
}

#[test]
fn layer_config_round_trips_through_the_host_form() {
    let cfg = LayerConfig {
        id: "x".to_owned(),
        layer_type: "ScatterplotLayer".to_owned(),
        data: vec![HostValue::Num(12200), HostValue::Str("Cabinda".to_owned())],
    };
    let v = cfg.to_host_value();
    let back = LayerConfig::from_host_value(v).unwrap();
    assert_eq!(back.id, "x");
    assert_eq!(back.layer_type, "ScatterplotLayer");
    assert_eq!(back.data, vec![HostValue::Num(12200), HostValue::Str("Cabinda".to_owned())]);
}

#[test]
fn generated_layers_round_trip_through_the_host_form() {
    let mut env = host();
    let mut c = controller();
    c.add_heatmap_layer(&mut env, "temp1".to_owned());
    let cfg = c.layers.pop().unwrap();
    let expected_len = cfg.data.len();
    let back = LayerConfig::from_host_value(cfg.to_host_value()).unwrap();
    assert_eq!(back.id, "temp1");
    assert_eq!(back.layer_type, "HeatmapLayer");
    assert_eq!(back.data.len(), expected_len);
}

#[test]
fn malformed_host_values_are_rejected() {
    assert!(LayerConfig::from_host_value(HostValue::Num(3)).is_none());
    assert!(LayerConfig::from_host_value(HostValue::Obj(Vec::new())).is_none());
    let wrong_name = HostValue::Obj(vec![
        ("id".to_owned(), HostValue::Str("x".to_owned())),
        ("kind".to_owned(), HostValue::Str("ScatterplotLayer".to_owned())),
        ("data".to_owned(), HostValue::Arr(Vec::new())),
    ]);
    assert!(LayerConfig::from_host_value(wrong_name).is_none());
}
