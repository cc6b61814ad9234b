//! The enforcer's data model: which alert transports a verdict is sent to.
//! Dispatching the alerts performs network I/O and stays outside the
//! library.

use vstd::prelude::*;
use crate::model::{AlertConfig, AnalysisResult, Recommendation};

verus! {

/// Whether a verdict's recommendation demands an alert: everything but a
/// plain log entry does.
pub open spec fn spec_should_alert(rec: Recommendation) -> bool {
    rec != Recommendation::LogOnly
}

/// Decides whether an alert is dispatched for a verdict; the dispatch
/// itself performs network I/O and stays outside the library.
pub fn should_alert(result: &AnalysisResult) -> (r: bool)
    ensures
        r == spec_should_alert(result.recommendation),
{
    match result.recommendation {
        Recommendation::LogOnly => false,
        _ => true,
    }
}

/// Enforcement configuration: the alert transports to use per verdict.
pub struct Enforcer {
    alerts: AlertConfig,
}

impl Enforcer {
    /// The held alert configuration.
    pub closed spec fn config(self) -> AlertConfig {
        self.alerts
    }

    /// Creates an enforcer over an alert configuration.
    pub fn new(config: AlertConfig) -> (r: Enforcer)
        ensures
            r.config() == config,
    {
        Enforcer { alerts: config }
    }

    /// Gives back the held alert configuration.
    pub fn alert_config(&self) -> (r: &AlertConfig)
        ensures
            *r == self.config(),
    {
        &self.alerts
    }
}

} // verus!
