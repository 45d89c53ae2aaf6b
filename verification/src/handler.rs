//! The two request handlers: the health probe and the metrics scrape.

use vstd::prelude::*;
use crate::format::append_json_escaped;
use crate::format::exposition_text;
use crate::format::health_body;
use crate::format::int_to_decimal;
use crate::metrics::lemma_descriptor_valid;
use crate::metrics::spec_label_key;
use crate::metrics::spec_metric_help;
use crate::metrics::spec_metric_name;
use crate::model::AppState;
use crate::model::Reply;
use crate::prom::gauge_value;
use crate::prom::int_gauge_expose;
use crate::prom::int_gauge_set;

verus! {

/// The largest magnitude of a gauge value whose text rendering this library
/// pins down exactly (the range where the metrics library's float carrying
/// the sample is exact).
pub open spec fn exact_render_bound() -> int {
    9007199254740992
}

/// The metrics endpoint's body for a given configuration, in the text
/// exposition format.
pub open spec fn metrics_body(ccu: int, env: Seq<char>) -> Seq<char> {
    exposition_text(
        spec_metric_name(),
        spec_metric_help(),
        seq![(spec_label_key(), env)],
        int_to_decimal(ccu),
    )
}

/// Answers the health probe: status 200 and the JSON payload
/// `{"status":"success","message":"<env>"}` for the configured environment,
/// on every invocation and for every valid configuration.
pub fn health_checker_handler(state: &AppState) -> (r: Reply)
    ensures
        r.status == 200,
        r.body@ == health_body(state.config.env@),
{
    let mut body = String::from_str("{\"status\":\"success\",\"message\":\"");
    append_json_escaped(&mut body, state.config.env.as_str());
    body.append("\"}");
    proof {
        assert(body@ =~= health_body(state.config.env@));
    }
    Reply { status: 200, body }
}

/// Answers a metrics scrape: first stores the configured CCU value in the
/// gauge — on every call, so the very first scrape already sees it — then
/// renders the gauge in the text exposition format. The configuration is
/// untouched, and after the call the gauge holds exactly `config.ccu`,
/// whatever it held before.
pub fn metrics_handler(state: &mut AppState) -> (r: String)
    requires
        old(state).wf(),
    ensures
        final(state).wf(),
        final(state).config == old(state).config,
        gauge_value(final(state).metric.ccu_template) == old(state).config.ccu as int,
        -exact_render_bound() <= old(state).config.ccu as int <= exact_render_bound() ==> r@
            == metrics_body(old(state).config.ccu as int, old(state).config.env@),
{
    int_gauge_set(&mut state.metric.ccu_template, state.config.ccu);
    proof {
        lemma_descriptor_valid();
        reveal_strlit("infra_ccu_setup");
    }
    match int_gauge_expose(&state.metric.ccu_template) {
        Ok(text) => text,
        Err(_) => {
            // The encoder cannot fail on a named family; if it ever did, the
            // scrape degrades to an empty body rather than an error.
            String::new()
        },
    }
}

} // verus!
