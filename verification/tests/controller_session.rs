use deckgl_session::controller::BGAPPDeckGLWASM;
use deckgl_session::doubles::{RecordingRenderer, ScriptedHost, UnavailableRenderer};
use deckgl_session::ports::EnvError;

fn host() -> ScriptedHost {
    ScriptedHost { now: 0, step: 5, webgl2: true, webgl: true }
}

fn controller() -> BGAPPDeckGLWASM<RecordingRenderer> {
    BGAPPDeckGLWASM::new("map".to_owned())
}

#[test]
fn initialize_builds_renderer_with_the_session_config() {
    let mut env = host();
    let mut c = controller();
    let r = c.initialize(&mut env);
    assert_eq!(r, Ok(true));
    let deck = c.deck_instance.as_ref().unwrap();
    assert_eq!(deck.built_with.container, "map");
    assert!(deck.built_with.controller);
    assert_eq!(deck.built_with.initial_view_state.longitude, 12000);
    assert_eq!(deck.built_with.initial_view_state.latitude, -11000);
    assert_eq!(deck.built_with.initial_view_state.zoom, 5000);
    // The scripted clock advances 5 ms between the two readings.
    assert_eq!(c.performance.init_time_ms, 5);
}

#[test]
fn first_scatterplot_add_pushes_exactly_one_layer() {
    let mut env = host();
    let mut c = controller();
    c.initialize(&mut env).unwrap();
    c.add_scatterplot_layer(&mut env, "a".to_owned());
    assert_eq!(c.performance.layer_count, 1);
    let deck = c.deck_instance.as_ref().unwrap();
    assert_eq!(deck.snapshots.len(), 1);
    let last = deck.snapshots.last().unwrap();
    assert_eq!(last.len(), 1);
    assert_eq!(last[0].0, "a");
    assert_eq!(last[0].1, "ScatterplotLayer");
    assert_eq!(last[0].2, 50);
}

#[test]
fn adds_before_initialize_grow_the_registry_without_a_renderer() {
    let mut env = host();
    let mut c = controller();
    c.add_scatterplot_layer(&mut env, "early".to_owned());
    assert_eq!(c.performance.layer_count, 1);
    assert!(c.deck_instance.is_none());
    // A renderer built afterwards has seen none of it.
    c.initialize(&mut env).unwrap();
    assert_eq!(c.deck_instance.as_ref().unwrap().snapshots.len(), 0);
    // The next add pushes the whole registry, both layers at once.
    c.add_heatmap_layer(&mut env, "late".to_owned());
    assert_eq!(c.performance.layer_count, 2);
    let deck = c.deck_instance.as_ref().unwrap();
    assert_eq!(deck.snapshots.len(), 1);
    assert_eq!(deck.snapshots[0].len(), 2);
    assert_eq!(deck.snapshots[0][0].1, "ScatterplotLayer");
    assert_eq!(deck.snapshots[0][1].1, "HeatmapLayer");
}

#[test]
fn render_time_is_monotonically_nondecreasing() {
    let mut env = host();
    let mut c = controller();
    c.initialize(&mut env).unwrap();
    let t0 = c.performance.render_time_ms;
    c.add_scatterplot_layer(&mut env, "one".to_owned());
    let t1 = c.performance.render_time_ms;
    c.add_heatmap_layer(&mut env, "two".to_owned());
    let t2 = c.performance.render_time_ms;
    assert!(t1 >= t0);
    assert!(t2 >= t1);
    // With a scripted 5 ms step the accumulation is exact.
    assert_eq!(t1, 5);
    assert_eq!(t2, 10);
}

#[test]
fn duplicate_layer_ids_coexist() {
    let mut env = host();
    let mut c = controller();
    c.initialize(&mut env).unwrap();
    c.add_scatterplot_layer(&mut env, "same".to_owned());
    c.add_scatterplot_layer(&mut env, "same".to_owned());
    assert_eq!(c.performance.layer_count, 2);
    let deck = c.deck_instance.as_ref().unwrap();
    assert_eq!(deck.snapshots[1].len(), 2);
    assert_eq!(deck.snapshots[1][0].0, "same");
    assert_eq!(deck.snapshots[1][1].0, "same");
}

#[test]
fn heatmap_scenario_on_canvas_map() {
    let mut env = host();
    let mut c = controller();
    let r = c.initialize(&mut env);
    assert_eq!(r, Ok(true));
    c.add_heatmap_layer(&mut env, "temp1".to_owned());
    assert_eq!(c.performance.layer_count, 1);
    assert_eq!(c.layers[0].layer_type, "HeatmapLayer");
    assert_eq!(c.layers[0].id, "temp1");
    assert_eq!(c.layers[0].data.len(), 28);
}

#[test]
fn initialize_surfaces_an_environment_failure() {
    let mut env = host();
    let mut c: BGAPPDeckGLWASM<UnavailableRenderer> = BGAPPDeckGLWASM::new("map".to_owned());
    let r = c.initialize(&mut env);
    assert_eq!(r, Err(EnvError::EnvironmentUnavailable));
    assert!(c.deck_instance.is_none());
    assert_eq!(c.performance.init_time_ms, 0);
    // The controller stays usable but inert for rendering.
    c.add_scatterplot_layer(&mut env, "a".to_owned());
    assert_eq!(c.performance.layer_count, 1);
    assert!(c.deck_instance.is_none());
}

#[test]
fn cleanup_releases_the_renderer_and_keeps_the_state_readable() {
    let mut env = host();
    let mut c = controller();
    c.initialize(&mut env).unwrap();
    c.add_scatterplot_layer(&mut env, "a".to_owned());
    c.cleanup();
    assert!(c.deck_instance.is_none());
    assert_eq!(c.performance.layer_count, 1);
    assert_eq!(c.layers.len(), 1);
    assert!(!c.get_performance_metrics().is_empty());
    // Cleaning up twice is harmless.
    c.cleanup();
    assert!(c.deck_instance.is_none());
}
