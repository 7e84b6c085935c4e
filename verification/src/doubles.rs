//! Substitutes for the two ports, for use in tests: a renderer that records
//! what it is asked to draw, and a host environment that answers from a
//! script.

use crate::ports::{DeckConfig, DeckRenderer, EnvError, HostEnv};
use crate::value::{LayerConfig, LayerModel};
use crate::ports::registry_model;
use vstd::prelude::*;

verus! {

/// A recording stand-in for the rendering engine.  It keeps the
/// configuration it was built with and, for every snapshot pushed to it,
/// the id, type tag and payload length of each layer.  Tests read the
/// fields; contracts speak through the trait's model.
pub struct RecordingRenderer {
    /// The configuration the renderer was created with.
    pub built_with: DeckConfig,
    /// One entry per push: `(id, layer_type, payload length)` of each layer
    /// of the snapshot, in registry order.
    pub snapshots: Vec<Vec<(String, String, usize)>>,
    /// Whether `finalize` has been called.
    pub finalized: bool,
    /// The model of the push history.
    pub history: Ghost<Seq<Seq<LayerModel>>>,
}

impl DeckRenderer for RecordingRenderer {
    open spec fn pushed(&self) -> Seq<Seq<LayerModel>> {
        self.history@
    }

    open spec fn config(&self) -> DeckConfig {
        self.built_with
    }

    fn create(config: DeckConfig) -> (r: Result<Self, EnvError>) {
        Ok(
            RecordingRenderer {
                built_with: config,
                snapshots: Vec::new(),
                finalized: false,
                history: Ghost(Seq::empty()),
            },
        )
    }

    fn set_layers(&mut self, layers: &Vec<LayerConfig>) {
        let mut summary: Vec<(String, String, usize)> = Vec::new();
        let mut i: usize = 0;
        while i < layers.len()
            invariant
                i <= layers@.len(),
            decreases layers@.len() - i,
        {
            let c = &layers[i];
            summary.push((c.id.clone(), c.layer_type.clone(), c.data.len()));
            i += 1;
        }
        self.snapshots.push(summary);
        self.history = Ghost(self.history@.push(registry_model(layers@)));
    }

    fn finalize(&mut self) {
        self.finalized = true;
    }
}

/// A stand-in for the rendering engine in a host whose environment cannot
/// be acquired: building it always fails, so no value of this type ever
/// exists at run time.
pub struct UnavailableRenderer {
    /// The model of the push history.
    pub history: Ghost<Seq<Seq<LayerModel>>>,
}

impl DeckRenderer for UnavailableRenderer {
    open spec fn pushed(&self) -> Seq<Seq<LayerModel>> {
        self.history@
    }

    fn create(config: DeckConfig) -> (r: Result<Self, EnvError>) {
        Err(EnvError::EnvironmentUnavailable)
    }

    fn set_layers(&mut self, layers: &Vec<LayerConfig>) {
        self.history = Ghost(self.history@.push(registry_model(layers@)));
    }

    fn finalize(&mut self) {
    }
}

/// A scripted stand-in for the host environment: the clock advances by a
/// fixed step after every reading, and the capability probe answers from a
/// fixed table.
pub struct ScriptedHost {
    /// The clock's next reading, in milliseconds.
    pub now: u64,
    /// How far the clock advances after each reading.
    pub step: u64,
    /// Whether a `webgl2` context is available.
    pub webgl2: bool,
    /// Whether a `webgl` context is available.
    pub webgl: bool,
}

impl HostEnv for ScriptedHost {
    fn now_ms(&mut self) -> u64 {
        let t = self.now;
        self.now = self.now.saturating_add(self.step);
        t
    }

    fn probe_context(&mut self, tier: &str) -> bool {
        if tier.to_owned() == "webgl2".to_owned() {
            self.webgl2
        } else if tier.to_owned() == "webgl".to_owned() {
            self.webgl
        } else {
            false
        }
    }
}

} // verus!
