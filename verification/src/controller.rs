//! The session controller: it owns the view state, the append-only layer
//! registry, the performance metrics and the optional renderer handle, and
//! it drives every mutation of them.

use crate::data::{
    fishing_dataset_ok, fishing_record_ok, spec_initial_view, species_at, temperature_dataset_ok,
    temperature_record_ok, zone_at, FishingZone, TemperaturePoint, ViewState,
};
use crate::metrics::{append_metrics_json, spec_metrics_json, spec_zero_metrics, PerformanceMetrics};
use crate::ports::{registry_model, DeckConfig, DeckRenderer, EnvError, HostEnv};
use crate::sanity::{
    report_json, spec_checks, spec_memory_estimate, spec_report_json, SanityChecks,
};
use crate::value::{
    encodes_fishing, encodes_temperature, fishing_value_ok, temperature_value_ok, HostValue,
    LayerConfig, LayerModel,
};
use vstd::prelude::*;

verus! {

/// A visualization session: view state, layer registry, metrics, and the
/// handle to the external renderer, absent until `initialize` succeeds.
pub struct BGAPPDeckGLWASM<R: DeckRenderer> {
    pub deck_instance: Option<R>,
    pub view_state: ViewState,
    pub layers: Vec<LayerConfig>,
    pub performance: PerformanceMetrics,
    pub canvas_id: String,
}

impl<R: DeckRenderer> BGAPPDeckGLWASM<R> {
    /// What a successful `initialize` guarantees: nothing but the renderer
    /// handle and `init_time_ms` change, a handle is present, it has
    /// received nothing yet, and it was built with the target surface, the
    /// wholesale view state and the controller flag enabled.
    pub open spec fn initialize_ok_post(pre: Self, post: Self) -> bool {
        &&& post.layers == pre.layers
        &&& post.view_state == pre.view_state
        &&& post.canvas_id == pre.canvas_id
        &&& post.performance.render_time_ms == pre.performance.render_time_ms
        &&& post.performance.layer_count == pre.performance.layer_count
        &&& post.performance.memory_usage_kb == pre.performance.memory_usage_kb
        &&& post.performance.fps == pre.performance.fps
        &&& post.deck_instance matches Some(d) && d.pushed() == Seq::<Seq<LayerModel>>::empty()
            && d.config() == (DeckConfig {
            container: pre.canvas_id,
            initial_view_state: pre.view_state,
            controller: true,
        })
    }

    /// What one add-layer call guarantees: exactly one configuration with
    /// the given id and type tag is appended, the counters are synced, the
    /// cumulative render time never decreases, and — exactly when a
    /// renderer is attached — the whole new registry is pushed to it.
    pub open spec fn add_post(pre: Self, post: Self, id: Seq<char>, tag: Seq<char>) -> bool {
        &&& post.layers@.len() == pre.layers@.len() + 1
        &&& forall|k: int| 0 <= k < pre.layers@.len() ==> post.layers@[k] == pre.layers@[k]
        &&& post.layers@.last().id@ == id
        &&& post.layers@.last().layer_type@ == tag
        &&& post.performance.layer_count == post.layers@.len()
        &&& post.performance.render_time_ms >= pre.performance.render_time_ms
        &&& post.performance.init_time_ms == pre.performance.init_time_ms
        &&& post.performance.memory_usage_kb == pre.performance.memory_usage_kb
        &&& post.performance.fps == pre.performance.fps
        &&& post.view_state == pre.view_state
        &&& post.canvas_id == pre.canvas_id
        &&& (pre.deck_instance is None ==> post.deck_instance is None)
        &&& (pre.deck_instance matches Some(d0) ==> post.deck_instance matches Some(d1)
            && d1.pushed() == d0.pushed().push(registry_model(post.layers@)) && d1.config()
            == d0.config())
    }

    /// Builds a controller for the given target surface: camera over the
    /// Angolan coast, empty registry, zeroed metrics, no renderer yet.
    pub fn new(canvas_id: String) -> (c: Self)
        ensures
            c.deck_instance is None,
            c.view_state == spec_initial_view(),
            c.layers@ == Seq::<LayerConfig>::empty(),
            c.performance == spec_zero_metrics(),
            c.canvas_id == canvas_id,
    {
        let view_state = ViewState {
            longitude: 12000,
            latitude: -11000,
            zoom: 5000,
            pitch: 0,
            bearing: 0,
        };
        let c = BGAPPDeckGLWASM {
            deck_instance: None,
            view_state,
            layers: Vec::new(),
            performance: PerformanceMetrics {
                init_time_ms: 0,
                render_time_ms: 0,
                layer_count: 0,
                memory_usage_kb: 0,
                fps: 0,
            },
            canvas_id,
        };
        proof {
            assert(c.layers@ =~= Seq::<LayerConfig>::empty());
        }
        c
    }

    /// Builds the external renderer for the current view state and target
    /// surface and stores its handle, timing the construction into
    /// `init_time_ms` (overwritten, not accumulated).  On failure to
    /// acquire the environment the error is surfaced, the handle stays
    /// absent, and the controller remains usable but inert for rendering.
    pub fn initialize<E: HostEnv>(&mut self, env: &mut E) -> (r: Result<bool, EnvError>)
        ensures
            final(self).layers == old(self).layers,
            final(self).view_state == old(self).view_state,
            final(self).canvas_id == old(self).canvas_id,
            final(self).performance.render_time_ms == old(self).performance.render_time_ms,
            final(self).performance.layer_count == old(self).performance.layer_count,
            final(self).performance.memory_usage_kb == old(self).performance.memory_usage_kb,
            final(self).performance.fps == old(self).performance.fps,
            r matches Ok(b) ==> b && Self::initialize_ok_post(*old(self), *final(self)),
            r is Err ==> final(self).deck_instance is None
                && final(self).performance.init_time_ms == old(self).performance.init_time_ms,
    {
        let start = env.now_ms();
        let config = DeckConfig {
            container: self.canvas_id.clone(),
            initial_view_state: self.view_state,
            controller: true,
        };
        match R::create(config) {
            Ok(d) => {
                self.deck_instance = Some(d);
                let end = env.now_ms();
                self.performance.init_time_ms = end.saturating_sub(start);
                Ok(true)
            },
            Err(e) => {
                self.deck_instance = None;
                Err(e)
            },
        }
    }

    /// Generates the fishing-abundance dataset: for each of the five fixed
    /// coastal zones, ten samples offset `(i - 5) * 0.1` degrees from the
    /// zone's base position, with abundance `50 + 15 i` and the species
    /// taken from the catalog round robin.  Fifty records, always.
    pub fn create_angola_fishing_data(&self) -> (r: Vec<FishingZone>)
        ensures
            fishing_dataset_ok(r@),
    {
        let mut data: Vec<FishingZone> = Vec::new();
        let mut z: usize = 0;
        while z < 5
            invariant
                z <= 5,
                data@.len() == z * 10,
                forall|k: int|
                    0 <= k < data@.len() ==> #[trigger] fishing_record_ok(
                        data@[k],
                        k / 10,
                        k % 10,
                    ),
            decreases 5 - z,
        {
            let (zone_label, base_lat, base_lng) = zone_at(z);
            let mut i: usize = 0;
            while i < 10
                invariant
                    z < 5,
                    i <= 10,
                    data@.len() == z * 10 + i,
                    zone_label@ == crate::data::zone_name(z as int),
                    base_lat == crate::data::zone_latitude(z as int),
                    base_lng == crate::data::zone_longitude(z as int),
                    forall|k: int|
                        0 <= k < data@.len() ==> #[trigger] fishing_record_ok(
                            data@[k],
                            k / 10,
                            k % 10,
                        ),
                decreases 10 - i,
            {
                let offset: i64 = (i as i64 - 5) * 100;
                let mut pos: Vec<i64> = Vec::new();
                pos.push(base_lng + offset);
                pos.push(base_lat + offset);
                let rec = FishingZone {
                    position: pos,
                    abundance: 50000 + (i as i64) * 15000,
                    species: species_at(i % 5),
                    zone: zone_label.clone(),
                };
                data.push(rec);
                proof {
                    let zi = z as int;
                    let ii = i as int;
                    let k = data@.len() - 1;
                    assert(k == zi * 10 + ii);
                    assert(k / 10 == zi && k % 10 == ii) by (nonlinear_arith)
                        requires
                            0 <= zi < 5,
                            0 <= ii < 10,
                            k == zi * 10 + ii,
                    ;
                    assert(fishing_record_ok(data@[k], zi, ii));
                }
                i += 1;
            }
            z += 1;
        }
        data
    }

    /// Generates the sea-surface-temperature grid: latitude -16 to -4 in
    /// steps of 2 degrees, longitude 11 to 14 in steps of 1 degree, weight
    /// `0.3 + (latitude + 10) * 0.05`.  Twenty-eight records, always.
    pub fn create_temperature_data(&self) -> (r: Vec<TemperaturePoint>)
        ensures
            temperature_dataset_ok(r@),
    {
        let mut data: Vec<TemperaturePoint> = Vec::new();
        let mut row: usize = 0;
        while row < 7
            invariant
                row <= 7,
                data@.len() == row * 4,
                forall|k: int|
                    0 <= k < data@.len() ==> #[trigger] temperature_record_ok(
                        data@[k],
                        k / 4,
                        k % 4,
                    ),
            decreases 7 - row,
        {
            let mut col: usize = 0;
            while col < 4
                invariant
                    row < 7,
                    col <= 4,
                    data@.len() == row * 4 + col,
                    forall|k: int|
                        0 <= k < data@.len() ==> #[trigger] temperature_record_ok(
                            data@[k],
                            k / 4,
                            k % 4,
                        ),
                decreases 4 - col,
            {
                let lat_deg: i64 = -16 + 2 * (row as i64);
                let mut pos: Vec<i64> = Vec::new();
                pos.push(11000 + (col as i64) * 1000);
                pos.push(lat_deg * 1000);
                let rec = TemperaturePoint { position: pos, weight: 300 + (lat_deg + 10) * 50 };
                data.push(rec);
                proof {
                    let ri = row as int;
                    let ci = col as int;
                    let k = data@.len() - 1;
                    assert(k == ri * 4 + ci);
                    assert(k / 4 == ri && k % 4 == ci) by (nonlinear_arith)
                        requires
                            0 <= ri < 7,
                            0 <= ci < 4,
                            k == ri * 4 + ci,
                    ;
                    assert(temperature_record_ok(data@[k], ri, ci));
                }
                col += 1;
            }
            row += 1;
        }
        data
    }

    /// Pushes the whole current registry to the renderer, when one is
    /// attached.  With no handle present this is a deliberate silent
    /// no-op, so that layers may be added before `initialize` runs.
    fn update_deck_layers(&mut self)
        ensures
            final(self).layers == old(self).layers,
            final(self).view_state == old(self).view_state,
            final(self).performance == old(self).performance,
            final(self).canvas_id == old(self).canvas_id,
            old(self).deck_instance is None ==> final(self).deck_instance is None,
            old(self).deck_instance matches Some(d0) ==> final(self).deck_instance matches Some(d1)
                && d1.pushed() == d0.pushed().push(registry_model(old(self).layers@))
                && d1.config() == d0.config(),
    {
        match &mut self.deck_instance {
            Some(d) => d.set_layers(&self.layers),
            None => {},
        }
    }

    /// Appends a scatterplot layer backed by a fresh fishing dataset,
    /// syncs the registry to the renderer when one is attached, and
    /// accumulates the elapsed time into `render_time_ms`.
    pub fn add_scatterplot_layer<E: HostEnv>(&mut self, env: &mut E, layer_id: String)
        ensures
            Self::add_post(*old(self), *final(self), layer_id@, "ScatterplotLayer"@),
            final(self).layers@.last().data@.len() == 50,
            forall|k: int|
                0 <= k < 50 ==> fishing_value_ok(
                    #[trigger] final(self).layers@.last().data@[k],
                    k / 10,
                    k % 10,
                ),
    {
        let start = env.now_ms();
        let records = self.create_angola_fishing_data();
        let mut data: Vec<HostValue> = Vec::new();
        let mut k: usize = 0;
        while k < records.len()
            invariant
                fishing_dataset_ok(records@),
                k <= 50,
                data@.len() == k,
                forall|j: int| 0 <= j < k ==> fishing_value_ok(#[trigger] data@[j], j / 10, j % 10),
            decreases 50 - k,
        {
            proof {
                assert(fishing_record_ok(records@[k as int], k as int / 10, k as int % 10));
            }
            let v = records[k].to_host_value();
            data.push(v);
            proof {
                assert(encodes_fishing(v, records@[k as int]));
                assert(fishing_value_ok(data@[k as int], k as int / 10, k as int % 10));
            }
            k += 1;
        }
        let cfg = LayerConfig { id: layer_id, layer_type: "ScatterplotLayer".to_owned(), data };
        self.layers.push(cfg);
        self.update_deck_layers();
        let end = env.now_ms();
        let elapsed = end.saturating_sub(start);
        self.performance.render_time_ms = self.performance.render_time_ms.saturating_add(elapsed);
        self.performance.layer_count = self.layers.len();
    }

    /// Appends a heatmap layer backed by a fresh temperature grid, syncs
    /// the registry to the renderer when one is attached, and accumulates
    /// the elapsed time into `render_time_ms`.
    pub fn add_heatmap_layer<E: HostEnv>(&mut self, env: &mut E, layer_id: String)
        ensures
            Self::add_post(*old(self), *final(self), layer_id@, "HeatmapLayer"@),
            final(self).layers@.last().data@.len() == 28,
            forall|k: int|
                0 <= k < 28 ==> temperature_value_ok(
                    #[trigger] final(self).layers@.last().data@[k],
                    k / 4,
                    k % 4,
                ),
    {
        let start = env.now_ms();
        let records = self.create_temperature_data();
        let mut data: Vec<HostValue> = Vec::new();
        let mut k: usize = 0;
        while k < records.len()
            invariant
                temperature_dataset_ok(records@),
                k <= 28,
                data@.len() == k,
                forall|j: int|
                    0 <= j < k ==> temperature_value_ok(#[trigger] data@[j], j / 4, j % 4),
            decreases 28 - k,
        {
            proof {
                assert(temperature_record_ok(records@[k as int], k as int / 4, k as int % 4));
            }
            let v = records[k].to_host_value();
            data.push(v);
            proof {
                assert(encodes_temperature(v, records@[k as int]));
                assert(temperature_value_ok(data@[k as int], k as int / 4, k as int % 4));
            }
            k += 1;
        }
        let cfg = LayerConfig { id: layer_id, layer_type: "HeatmapLayer".to_owned(), data };
        self.layers.push(cfg);
        self.update_deck_layers();
        let end = env.now_ms();
        let elapsed = end.saturating_sub(start);
        self.performance.render_time_ms = self.performance.render_time_ms.saturating_add(elapsed);
        self.performance.layer_count = self.layers.len();
    }

    /// Probes the capability tiers in order: `webgl2` first, then the
    /// plain `webgl` fallback.  True when either context can be obtained;
    /// which tier succeeded is not kept.
    fn check_webgl_support<E: HostEnv>(&self, env: &mut E) -> bool {
        if env.probe_context("webgl2") {
            true
        } else if env.probe_context("webgl") {
            true
        } else {
            false
        }
    }

    /// Runs the sanity pass: recomputes the derived memory estimate (the
    /// one field this pass writes), probes WebGL availability, and returns
    /// the JSON report of the named checks, the metrics snapshot, the
    /// aggregate result and a capture timestamp.
    pub fn run_sanity_checks<E: HostEnv>(&mut self, env: &mut E) -> (r: String)
        ensures
            final(self).layers == old(self).layers,
            final(self).deck_instance == old(self).deck_instance,
            final(self).view_state == old(self).view_state,
            final(self).canvas_id == old(self).canvas_id,
            final(self).performance == (PerformanceMetrics {
                memory_usage_kb: spec_memory_estimate(old(self).layers@.len() as int),
                ..old(self).performance
            }),
            exists|webgl: bool, ts: u64|
                r@ == #[trigger] spec_report_json(
                    spec_checks(
                        old(self).deck_instance is Some,
                        old(self).layers@.len() as int,
                        final(self).performance,
                        webgl,
                    ),
                    final(self).performance,
                    ts,
                ),
    {
        let webgl = self.check_webgl_support(env);
        let len64 = self.layers.len() as u64;
        let estimate: u64 = if len64 <= u64::MAX / 100 {
            len64 * 100
        } else {
            u64::MAX
        };
        self.performance.memory_usage_kb = estimate;
        let checks = SanityChecks {
            wasm_initialized: true,
            deck_instance_created: self.deck_instance.is_some(),
            layers_created: self.layers.len() > 0,
            webgl2_available: webgl,
            init_time_acceptable: self.performance.init_time_ms < 1000,
            render_time_acceptable: self.performance.render_time_ms < 500,
            memory_usage_acceptable: estimate < 10000,
        };
        let ts = env.now_ms();
        let r = report_json(&checks, &self.performance, ts);
        proof {
            assert(checks == spec_checks(
                old(self).deck_instance is Some,
                old(self).layers@.len() as int,
                self.performance,
                webgl,
            ));
        }
        r
    }

    /// Renders the current metrics as JSON, field for field.
    pub fn get_performance_metrics(&self) -> (r: String)
        ensures
            r@ == spec_metrics_json(self.performance),
    {
        let mut out = String::new();
        append_metrics_json(&mut out, &self.performance);
        out
    }

    /// Tears the renderer down and releases the handle.  The registry, the
    /// view state and the metrics stay readable afterwards.
    pub fn cleanup(&mut self)
        ensures
            final(self).deck_instance is None,
            final(self).layers == old(self).layers,
            final(self).view_state == old(self).view_state,
            final(self).performance == old(self).performance,
            final(self).canvas_id == old(self).canvas_id,
    {
        match &mut self.deck_instance {
            Some(d) => d.finalize(),
            None => {},
        }
        self.deck_instance = None;
    }

    /// After a successful `initialize` of a controller with an empty
    /// registry, followed by one scatterplot add, the registry holds
    /// exactly one layer, and the renderer's one and only push so far is
    /// that single scatterplot layer.
    pub proof fn lemma_first_scatterplot_push(c0: Self, c1: Self, c2: Self, id: Seq<char>)
        requires
            c0.layers@.len() == 0,
            Self::initialize_ok_post(c0, c1),
            Self::add_post(c1, c2, id, "ScatterplotLayer"@),
        ensures
            c2.performance.layer_count == 1,
            c2.deck_instance is Some,
            (c2.deck_instance->0).pushed().len() == 1,
            (c2.deck_instance->0).pushed().last().len() == 1,
            (c2.deck_instance->0).pushed().last()[0].id == id,
            (c2.deck_instance->0).pushed().last()[0].layer_type == "ScatterplotLayer"@,
    {
        assert(registry_model(c2.layers@).len() == 1);
        assert(registry_model(c2.layers@)[0] == c2.layers@[0].model());
        assert(c2.layers@.last() == c2.layers@[0]);
    }

    /// The cumulative render time never decreases: after a second add it
    /// is at least what it was after the first, which is at least what it
    /// was before any add.
    pub proof fn lemma_render_time_monotone(
        c0: Self,
        c1: Self,
        c2: Self,
        id1: Seq<char>,
        id2: Seq<char>,
        tag1: Seq<char>,
        tag2: Seq<char>,
    )
        requires
            Self::add_post(c0, c1, id1, tag1),
            Self::add_post(c1, c2, id2, tag2),
        ensures
            c2.performance.render_time_ms >= c1.performance.render_time_ms,
            c1.performance.render_time_ms >= c0.performance.render_time_ms,
    {
    }
}

} // verus!
