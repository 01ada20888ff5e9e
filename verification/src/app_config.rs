use vstd::prelude::*;

use crate::aave_portfolio_tracker::config::{AavePortfolioTrackerConfig, LimitsOutOfOrder};
use crate::logger::LoggingConfig;

verus! {

/// The whole service configuration.
pub struct AppConfig {
    pub logging: LoggingConfig,
    pub aave_portfolio_tracker: AavePortfolioTrackerConfig,
}

impl AppConfig {
    /// Accepts the configuration exactly when the tracker section is consistent.
    pub fn verify(&self) -> (res: Result<(), LimitsOutOfOrder>)
        ensures
            res is Ok <==> self.aave_portfolio_tracker.health_factor_notification_lower_limit
                <= self.aave_portfolio_tracker.health_factor_notification_upper_limit,
            res matches Err(e) ==> e.lower == self.aave_portfolio_tracker.health_factor_notification_lower_limit
                && e.upper == self.aave_portfolio_tracker.health_factor_notification_upper_limit,
    {
        self.aave_portfolio_tracker.verify()
    }
}

} // verus!
