//! The two ports the controller depends on: the external rendering engine
//! and the host environment (clock and capability probe).  The production
//! implementations wrap the real engine and browser; recording and scripted
//! doubles substitute for them under test.

use crate::data::ViewState;
use crate::value::{LayerConfig, LayerModel};
use vstd::prelude::*;

verus! {

/// The configuration handed to the external renderer when it is built: the
/// target surface, the initial view state taken wholesale, and the
/// controller-enabled flag.
#[derive(Debug)]
pub struct DeckConfig {
    pub container: String,
    pub initial_view_state: ViewState,
    pub controller: bool,
}

/// Failure to acquire the host environment (no window, document or target
/// surface).  Fatal for `initialize` and surfaced to the caller; the
/// controller stays usable but inert for rendering.
#[derive(Debug, PartialEq, Eq, Structural, Clone, Copy)]
pub enum EnvError {
    EnvironmentUnavailable,
}

/// The model of one registry snapshot as the renderer sees it.
pub open spec fn registry_model(layers: Seq<LayerConfig>) -> Seq<LayerModel> {
    layers.map(|i: int, c: LayerConfig| c.model())
}

/// The port to the external rendering engine.  The controller depends only
/// on this interface.
pub trait DeckRenderer: Sized {
    /// The history of layer snapshots this renderer has received, oldest
    /// first.  The default says nothing; an implementation whose contracts
    /// are relied on overrides it with its real model.
    open spec fn pushed(&self) -> Seq<Seq<LayerModel>> {
        Seq::empty()
    }

    /// The configuration this renderer was built with.  The default says
    /// nothing; an implementation whose contracts are relied on overrides
    /// it with its real model.
    open spec fn config(&self) -> DeckConfig {
        vstd::pervasive::arbitrary()
    }

    /// Builds a renderer for the given configuration.  Fails exactly when
    /// the host environment cannot be acquired.  A fresh renderer has
    /// received nothing and remembers its configuration.
    fn create(config: DeckConfig) -> (r: Result<Self, EnvError>)
        ensures
            r matches Ok(d) ==> d.pushed() == Seq::<Seq<LayerModel>>::empty() && d.config()
                == config,
    ;

    /// Replaces the renderer's layer set with the given snapshot — the
    /// whole registry, not a delta; idempotent full-replace semantics.
    fn set_layers(&mut self, layers: &Vec<LayerConfig>)
        ensures
            final(self).pushed() == old(self).pushed().push(registry_model(layers@)),
            final(self).config() == old(self).config(),
    ;

    /// Tears the renderer down.
    fn finalize(&mut self);
}

/// The port to the host environment.  Nothing is assumed of either method:
/// every contract of the controller holds whatever they return.
pub trait HostEnv {
    /// A reading of the wall clock, in milliseconds.
    fn now_ms(&mut self) -> u64;

    /// Whether a rendering context of the given capability tier (such as
    /// `"webgl2"` or `"webgl"`) can be obtained from the host.
    fn probe_context(&mut self, tier: &str) -> bool;
}

} // verus!
