//! The data the service carries: the startup configuration, the gauge
//! handle, the state shared with the request handlers, and the error types
//! of the two fallible startup steps.

use vstd::prelude::*;
use crate::metrics::spec_label_key;
use crate::metrics::spec_metric_help;
use crate::metrics::spec_metric_name;
use crate::prom::gauge_help;
use crate::prom::gauge_labels;
use crate::prom::gauge_name;
use crate::prom::CcuGauge;

verus! {

/// The configuration loaded once at process start: a numeric CCU count and
/// an environment name. Never mutated afterwards.
#[derive(Clone, Debug)]
pub struct Config {
    pub ccu: i64,
    pub env: String,
}

/// The one metric of the service: an integer gauge labelled with the
/// environment name.
pub struct Metric {
    pub ccu_template: CcuGauge,
}

impl Metric {
    /// The gauge carries the fixed metric name and help string, and exactly
    /// one constant label, `environment`, holding `env`.
    pub open spec fn wf(self, env: Seq<char>) -> bool {
        &&& gauge_name(self.ccu_template) == spec_metric_name()
        &&& gauge_help(self.ccu_template) == spec_metric_help()
        &&& gauge_labels(self.ccu_template) == seq![(spec_label_key(), env)]
    }
}

/// Everything the request handlers share: the immutable configuration and
/// the gauge handle.
pub struct AppState {
    pub config: Config,
    pub metric: Metric,
}

impl AppState {
    /// The gauge's label names the configured environment.
    pub open spec fn wf(self) -> bool {
        self.metric.wf(self.config.env@)
    }
}

/// An HTTP response as the library states it: a status code and a body.
pub struct Reply {
    pub status: u16,
    pub body: String,
}

/// Why loading the configuration failed.
#[derive(Clone, Copy, Debug, PartialEq, Eq, Structural)]
pub enum ConfigError {
    /// `ccu` was given neither as `--ccu` nor in the `CCU` variable.
    MissingCcu,
    /// `env` was given neither as `--env` nor in the `ENV` variable.
    MissingEnv,
    /// The `ccu` value does not parse as a 64-bit integer.
    InvalidCcu,
    /// An argument that is not one of the two known flags.
    UnknownArgument,
    /// A flag stood last on the command line, with no value after it.
    MissingFlagValue,
    /// A flag was given more than once.
    DuplicateFlag,
}

impl ConfigError {
    /// The diagnostic printed when startup fails on this error.
    pub open spec fn spec_message(self) -> Seq<char> {
        match self {
            ConfigError::MissingCcu => "missing required value for ccu: pass --ccu or set CCU"@,
            ConfigError::MissingEnv => "missing required value for env: pass --env or set ENV"@,
            ConfigError::InvalidCcu => "the ccu value is not a valid 64-bit integer"@,
            ConfigError::UnknownArgument => "unrecognized command-line argument"@,
            ConfigError::MissingFlagValue => "a flag is missing its value"@,
            ConfigError::DuplicateFlag => "a flag was given more than once"@,
        }
    }

    /// The diagnostic printed when startup fails on this error.
    pub fn message(&self) -> (r: &'static str)
        ensures
            r@ == self.spec_message(),
    {
        match self {
            ConfigError::MissingCcu => "missing required value for ccu: pass --ccu or set CCU",
            ConfigError::MissingEnv => "missing required value for env: pass --env or set ENV",
            ConfigError::InvalidCcu => "the ccu value is not a valid 64-bit integer",
            ConfigError::UnknownArgument => "unrecognized command-line argument",
            ConfigError::MissingFlagValue => "a flag is missing its value",
            ConfigError::DuplicateFlag => "a flag was given more than once",
        }
    }
}

/// Why initializing the metric failed.
#[derive(Clone, Copy, Debug, PartialEq, Eq, Structural)]
pub enum MetricsError {
    /// The metrics library rejected the gauge's descriptor.
    Registration,
}

impl MetricsError {
    /// The diagnostic printed when startup fails on this error.
    pub open spec fn spec_message(self) -> Seq<char> {
        match self {
            MetricsError::Registration => "registering the ccu gauge failed"@,
        }
    }

    /// The diagnostic printed when startup fails on this error.
    pub fn message(&self) -> (r: &'static str)
        ensures
            r@ == self.spec_message(),
    {
        match self {
            MetricsError::Registration => "registering the ccu gauge failed",
        }
    }
}

} // verus!
