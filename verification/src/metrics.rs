//! Timing and derived resource-usage metrics accumulated across a session,
//! and their JSON rendering.

use crate::json::{append_u64, spec_dec};
use vstd::prelude::*;
use vstd::string::StringExecFns;

verus! {

/// Performance metrics of one session.  `render_time_ms` is cumulative and
/// never reset; `init_time_ms` holds the duration of the last successful
/// `initialize` (overwritten, not accumulated); `memory_usage_kb` is a
/// derived estimate of one hundred kilobytes per layer; `fps` is an unused
/// placeholder kept for the report shape.
#[derive(PartialEq, Eq, Structural, Clone, Copy, Debug)]
pub struct PerformanceMetrics {
    pub init_time_ms: u64,
    pub render_time_ms: u64,
    pub layer_count: usize,
    pub memory_usage_kb: u64,
    pub fps: u64,
}

/// The metrics of a freshly constructed controller: all zero.
pub open spec fn spec_zero_metrics() -> PerformanceMetrics {
    PerformanceMetrics {
        init_time_ms: 0,
        render_time_ms: 0,
        layer_count: 0,
        memory_usage_kb: 0,
        fps: 0,
    }
}

/// The JSON rendering of the metrics, field for field.
pub open spec fn spec_metrics_json(p: PerformanceMetrics) -> Seq<char> {
    "{\"init_time_ms\":"@ + spec_dec(p.init_time_ms as nat) + ",\"render_time_ms\":"@ + spec_dec(
        p.render_time_ms as nat,
    ) + ",\"layer_count\":"@ + spec_dec(p.layer_count as nat) + ",\"memory_usage_kb\":"@
        + spec_dec(p.memory_usage_kb as nat) + ",\"fps\":"@ + spec_dec(p.fps as nat) + "}"@
}

/// Appends the JSON rendering of `p` to `out`.
pub fn append_metrics_json(out: &mut String, p: &PerformanceMetrics)
    ensures
        final(out)@ == old(out)@ + spec_metrics_json(*p),
{
    out.append("{\"init_time_ms\":");
    append_u64(out, p.init_time_ms);
    out.append(",\"render_time_ms\":");
    append_u64(out, p.render_time_ms);
    out.append(",\"layer_count\":");
    append_u64(out, p.layer_count as u64);
    out.append(",\"memory_usage_kb\":");
    append_u64(out, p.memory_usage_kb);
    out.append(",\"fps\":");
    append_u64(out, p.fps);
    out.append("}");
    proof {
        assert(out@ =~= old(out)@ + spec_metrics_json(*p));
    }
}

} // verus!
