//! The sanity checker: a read-mostly diagnostic pass aggregating
//! environment capability detection with the accumulated metrics into a
//! named set of boolean health checks plus an aggregate result.

use crate::json::{append_bool, append_u64, spec_bool, spec_dec};
use crate::metrics::{append_metrics_json, spec_metrics_json, PerformanceMetrics};
use vstd::prelude::*;
use vstd::string::StringExecFns;

verus! {

/// The named boolean health checks of one sanity pass.
#[derive(PartialEq, Eq, Structural, Clone, Copy, Debug)]
pub struct SanityChecks {
    pub wasm_initialized: bool,
    pub deck_instance_created: bool,
    pub layers_created: bool,
    pub webgl2_available: bool,
    pub init_time_acceptable: bool,
    pub render_time_acceptable: bool,
    pub memory_usage_acceptable: bool,
}

/// The aggregate result: the conjunction of all seven checks.
pub open spec fn spec_all_passed(c: SanityChecks) -> bool {
    c.wasm_initialized && c.deck_instance_created && c.layers_created && c.webgl2_available
        && c.init_time_acceptable && c.render_time_acceptable && c.memory_usage_acceptable
}

/// The checks computed for a session whose renderer handle presence is
/// `deck_present`, registry length `layers_len`, metrics `p` (with the
/// memory estimate already recomputed), and capability probe result
/// `webgl`.
pub open spec fn spec_checks(
    deck_present: bool,
    layers_len: int,
    p: PerformanceMetrics,
    webgl: bool,
) -> SanityChecks {
    SanityChecks {
        wasm_initialized: true,
        deck_instance_created: deck_present,
        layers_created: layers_len > 0,
        webgl2_available: webgl,
        init_time_acceptable: p.init_time_ms < 1000,
        render_time_acceptable: p.render_time_ms < 500,
        memory_usage_acceptable: p.memory_usage_kb < 10000,
    }
}

/// The derived memory estimate: one hundred kilobytes per registered
/// layer, saturating at the top of the range.
pub open spec fn spec_memory_estimate(layers_len: int) -> u64 {
    if layers_len * 100 <= u64::MAX {
        (layers_len * 100) as u64
    } else {
        u64::MAX
    }
}

/// An aggregate result cannot pass without a renderer handle: whenever
/// the handle is absent, `all_passed` is false, whatever every other input
/// is.
pub proof fn lemma_all_passed_needs_renderer(layers_len: int, p: PerformanceMetrics, webgl: bool)
    ensures
        !spec_all_passed(spec_checks(false, layers_len, p, webgl)),
{
}

/// The JSON rendering of the checks mapping, field for field.
pub open spec fn spec_checks_json(c: SanityChecks) -> Seq<char> {
    "{\"wasm_initialized\":"@ + spec_bool(c.wasm_initialized) + ",\"deck_instance_created\":"@
        + spec_bool(c.deck_instance_created) + ",\"layers_created\":"@ + spec_bool(
        c.layers_created,
    ) + ",\"webgl2_available\":"@ + spec_bool(c.webgl2_available) + ",\"init_time_acceptable\":"@
        + spec_bool(c.init_time_acceptable) + ",\"render_time_acceptable\":"@ + spec_bool(
        c.render_time_acceptable,
    ) + ",\"memory_usage_acceptable\":"@ + spec_bool(c.memory_usage_acceptable) + "}"@
}

/// The JSON rendering of a full sanity report: the checks mapping, the
/// metrics snapshot, the aggregate result, and the capture timestamp.
pub open spec fn spec_report_json(c: SanityChecks, p: PerformanceMetrics, ts: u64) -> Seq<char> {
    "{\"checks\":"@ + spec_checks_json(c) + ",\"performance\":"@ + spec_metrics_json(p)
        + ",\"all_passed\":"@ + spec_bool(spec_all_passed(c)) + ",\"timestamp\":"@ + spec_dec(
        ts as nat,
    ) + "}"@
}

/// Concatenation regrouped around an accumulated middle part.
proof fn lemma_append_step<A>(base: Seq<A>, acc: Seq<A>, seg: Seq<A>)
    ensures
        (base + acc) + seg == base + (acc + seg),
{
    vstd::seq_lib::lemma_concat_associative(base, acc, seg);
}

/// Appends the JSON rendering of the checks mapping to `out`.
pub fn append_checks_json(out: &mut String, c: &SanityChecks)
    ensures
        final(out)@ == old(out)@ + spec_checks_json(*c),
{
    let ghost base = out@;
    out.append("{\"wasm_initialized\":");
    let ghost mut acc: Seq<char> = "{\"wasm_initialized\":"@;
    append_bool(out, c.wasm_initialized);
    proof {
        lemma_append_step(base, acc, spec_bool(c.wasm_initialized));
        acc = acc + spec_bool(c.wasm_initialized);
    }
    out.append(",\"deck_instance_created\":");
    proof {
        lemma_append_step(base, acc, ",\"deck_instance_created\":"@);
        acc = acc + ",\"deck_instance_created\":"@;
    }
    append_bool(out, c.deck_instance_created);
    proof {
        lemma_append_step(base, acc, spec_bool(c.deck_instance_created));
        acc = acc + spec_bool(c.deck_instance_created);
    }
    out.append(",\"layers_created\":");
    proof {
        lemma_append_step(base, acc, ",\"layers_created\":"@);
        acc = acc + ",\"layers_created\":"@;
    }
    append_bool(out, c.layers_created);
    proof {
        lemma_append_step(base, acc, spec_bool(c.layers_created));
        acc = acc + spec_bool(c.layers_created);
    }
    out.append(",\"webgl2_available\":");
    proof {
        lemma_append_step(base, acc, ",\"webgl2_available\":"@);
        acc = acc + ",\"webgl2_available\":"@;
    }
    append_bool(out, c.webgl2_available);
    proof {
        lemma_append_step(base, acc, spec_bool(c.webgl2_available));
        acc = acc + spec_bool(c.webgl2_available);
    }
    out.append(",\"init_time_acceptable\":");
    proof {
        lemma_append_step(base, acc, ",\"init_time_acceptable\":"@);
        acc = acc + ",\"init_time_acceptable\":"@;
    }
    append_bool(out, c.init_time_acceptable);
    proof {
        lemma_append_step(base, acc, spec_bool(c.init_time_acceptable));
        acc = acc + spec_bool(c.init_time_acceptable);
    }
    out.append(",\"render_time_acceptable\":");
    proof {
        lemma_append_step(base, acc, ",\"render_time_acceptable\":"@);
        acc = acc + ",\"render_time_acceptable\":"@;
    }
    append_bool(out, c.render_time_acceptable);
    proof {
        lemma_append_step(base, acc, spec_bool(c.render_time_acceptable));
        acc = acc + spec_bool(c.render_time_acceptable);
    }
    out.append(",\"memory_usage_acceptable\":");
    proof {
        lemma_append_step(base, acc, ",\"memory_usage_acceptable\":"@);
        acc = acc + ",\"memory_usage_acceptable\":"@;
    }
    append_bool(out, c.memory_usage_acceptable);
    proof {
        lemma_append_step(base, acc, spec_bool(c.memory_usage_acceptable));
        acc = acc + spec_bool(c.memory_usage_acceptable);
    }
    out.append("}");
    proof {
        lemma_append_step(base, acc, "}"@);
        acc = acc + "}"@;
        assert(out@ == base + acc);
        assert(acc == spec_checks_json(*c));
    }
}

/// Builds the JSON rendering of a full sanity report.
pub fn report_json(c: &SanityChecks, p: &PerformanceMetrics, ts: u64) -> (r: String)
    ensures
        r@ == spec_report_json(*c, *p, ts),
{
    let mut out = String::new();
    let ghost base = out@;
    out.append("{\"checks\":");
    let ghost mut acc: Seq<char> = "{\"checks\":"@;
    append_checks_json(&mut out, c);
    proof {
        lemma_append_step(base, acc, spec_checks_json(*c));
        acc = acc + spec_checks_json(*c);
    }
    out.append(",\"performance\":");
    proof {
        lemma_append_step(base, acc, ",\"performance\":"@);
        acc = acc + ",\"performance\":"@;
    }
    append_metrics_json(&mut out, p);
    proof {
        lemma_append_step(base, acc, spec_metrics_json(*p));
        acc = acc + spec_metrics_json(*p);
    }
    out.append(",\"all_passed\":");
    proof {
        lemma_append_step(base, acc, ",\"all_passed\":"@);
        acc = acc + ",\"all_passed\":"@;
    }
    let all = c.wasm_initialized && c.deck_instance_created && c.layers_created
        && c.webgl2_available && c.init_time_acceptable && c.render_time_acceptable
        && c.memory_usage_acceptable;
    append_bool(&mut out, all);
    proof {
        lemma_append_step(base, acc, spec_bool(all));
        acc = acc + spec_bool(all);
    }
    out.append(",\"timestamp\":");
    proof {
        lemma_append_step(base, acc, ",\"timestamp\":"@);
        acc = acc + ",\"timestamp\":"@;
    }
    append_u64(&mut out, ts);
    proof {
        lemma_append_step(base, acc, spec_dec(ts as nat));
        acc = acc + spec_dec(ts as nat);
    }
    out.append("}");
    proof {
        lemma_append_step(base, acc, "}"@);
        acc = acc + "}"@;
        assert(out@ == base + acc);
        assert(base =~= Seq::<char>::empty());
        assert(base + acc =~= acc);
        assert(acc == spec_report_json(*c, *p, ts));
    }
    out
}

} // verus!
