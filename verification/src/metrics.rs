//! Initialization of the one gauge the service exposes.

use vstd::prelude::*;
use crate::format::is_valid_label_name;
use crate::format::is_valid_metric_name;
use crate::model::Config;
use crate::model::Metric;
use crate::model::MetricsError;
use crate::prom::gauge_value;
use crate::prom::int_gauge_new;

verus! {

/// The fixed name of the gauge.
pub open spec fn spec_metric_name() -> Seq<char> {
    "infra_ccu_setup"@
}

/// The fixed help string of the gauge.
pub open spec fn spec_metric_help() -> Seq<char> {
    "The environment setup based on ccu template"@
}

/// The fixed name of the gauge's one label.
pub open spec fn spec_label_key() -> Seq<char> {
    "environment"@
}

/// The fixed name of the gauge.
pub fn metric_name() -> (r: &'static str)
    ensures
        r@ == spec_metric_name(),
{
    "infra_ccu_setup"
}

/// The fixed help string of the gauge.
pub fn metric_help() -> (r: &'static str)
    ensures
        r@ == spec_metric_help(),
{
    "The environment setup based on ccu template"
}

/// The fixed name of the gauge's one label.
pub fn label_key() -> (r: &'static str)
    ensures
        r@ == spec_label_key(),
{
    "environment"
}

/// The gauge's fixed name, help string and label name satisfy the metrics
/// library's identifier rules, so creating the gauge always succeeds.
pub proof fn lemma_descriptor_valid()
    ensures
        is_valid_metric_name(spec_metric_name()),
        is_valid_label_name(spec_label_key()),
        spec_metric_help().len() > 0,
{
    reveal_strlit("infra_ccu_setup");
    reveal_strlit("The environment setup based on ccu template");
    reveal_strlit("environment");
}

/// Creates the one integer gauge, named `infra_ccu_setup` and labelled with
/// the configured environment name. The descriptor is fixed and valid, so
/// this never actually fails.
pub fn metrics_init(config: &Config) -> (res: Result<Metric, MetricsError>)
    ensures
        res is Ok,
        res matches Ok(m) ==> m.wf(config.env@) && gauge_value(m.ccu_template) == 0,
{
    proof {
        lemma_descriptor_valid();
    }
    match int_gauge_new(metric_name(), metric_help(), label_key(), config.env.as_str()) {
        Ok(g) => Ok(Metric { ccu_template: g }),
        Err(_) => Err(MetricsError::Registration),
    }
}

} // verus!
