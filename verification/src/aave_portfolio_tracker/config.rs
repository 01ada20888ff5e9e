use vstd::prelude::*;

verus! {

/// The `[aave_portfolio_tracker]` section of the configuration.
///
/// The health factor limits are in wad (the health factor times 10^18), the
/// unit in which Aave reports the health factor. A limit may be negative, as
/// the number in the configuration file may be.
pub struct AavePortfolioTrackerConfig {
    pub health_factor_notification_lower_limit: i128,
    pub health_factor_notification_upper_limit: i128,
    pub cron_schedule: String,
}

/// The lower health factor limit is above the upper one.
#[derive(Clone, Copy, Debug, PartialEq, Eq)]
pub struct LimitsOutOfOrder {
    pub lower: i128,
    pub upper: i128,
}

impl AavePortfolioTrackerConfig {
    /// Accepts the configuration exactly when the lower limit is not above the upper limit.
    pub fn verify(&self) -> (res: Result<(), LimitsOutOfOrder>)
        ensures
            res is Ok <==> self.health_factor_notification_lower_limit <= self.health_factor_notification_upper_limit,
            res matches Err(e) ==> e.lower == self.health_factor_notification_lower_limit
                && e.upper == self.health_factor_notification_upper_limit,
    {
        if self.health_factor_notification_lower_limit > self.health_factor_notification_upper_limit {
            return Err(LimitsOutOfOrder {
                lower: self.health_factor_notification_lower_limit,
                upper: self.health_factor_notification_upper_limit,
            });
        }
        Ok(())
    }
}

/// The tracker's settings as a configuration file writes them, each one there
/// or not: the single notification limit of the documented form, or a lower and
/// an upper limit; the schedule, when it stands in the section.
pub struct TrackerSettings {
    pub health_factor_notification_limit: Option<i128>,
    pub health_factor_notification_lower_limit: Option<i128>,
    pub health_factor_notification_upper_limit: Option<i128>,
    pub cron_schedule: Option<String>,
}

/// Why settings make no tracker configuration.
#[derive(Clone, Copy, Debug, PartialEq, Eq)]
pub enum SettingsError {
    /// Neither the single limit alone nor both the lower and the upper limit are given.
    UnclearLimits,
    /// No schedule, neither in the section nor at the top of the file.
    MissingSchedule,
}

/// The lower and upper limits that settings give: the single notification limit
/// as both, or the lower and upper limits; `None` for any other combination.
pub open spec fn settings_limits(s: TrackerSettings) -> Option<(i128, i128)> {
    match (s.health_factor_notification_limit, s.health_factor_notification_lower_limit, s.health_factor_notification_upper_limit) {
        (Some(l), None, None) => Some((l, l)),
        (None, Some(lower), Some(upper)) => Some((lower, upper)),
        _ => None,
    }
}

impl AavePortfolioTrackerConfig {
    /// The configuration that the settings of the file make. The notification
    /// limit is the single limit when the file gives one (the upper limit is
    /// then the same), else the lower limit. The schedule is the section's,
    /// else the one at the top of the file. Fails on unclear limits first, then
    /// on a missing schedule.
    pub fn from_settings(settings: TrackerSettings, top_cron_schedule: Option<String>) -> (res: Result<Self, SettingsError>)
        ensures
            settings_limits(settings) is None ==> res == Err::<Self, SettingsError>(SettingsError::UnclearLimits),
            settings_limits(settings) is Some && settings.cron_schedule is None && top_cron_schedule is None
                ==> res == Err::<Self, SettingsError>(SettingsError::MissingSchedule),
            res matches Ok(c) ==> {
                &&& settings_limits(settings) == Some((c.health_factor_notification_lower_limit, c.health_factor_notification_upper_limit))
                &&& c.cron_schedule == match settings.cron_schedule {
                    Some(schedule) => schedule,
                    None => top_cron_schedule.unwrap(),
                }
            },
            settings_limits(settings) is Some && (settings.cron_schedule is Some || top_cron_schedule is Some) ==> res is Ok,
            res matches Ok(c) ==> match settings.health_factor_notification_limit {
                Some(l) => c.health_factor_notification_lower_limit == l && c.health_factor_notification_upper_limit == l,
                None => settings.health_factor_notification_lower_limit == Some(c.health_factor_notification_lower_limit)
                    && settings.health_factor_notification_upper_limit == Some(c.health_factor_notification_upper_limit),
            },
    {
        let (lower, upper) = match (
            settings.health_factor_notification_limit,
            settings.health_factor_notification_lower_limit,
            settings.health_factor_notification_upper_limit,
        ) {
            (Some(l), None, None) => (l, l),
            (None, Some(lower), Some(upper)) => (lower, upper),
            _ => return Err(SettingsError::UnclearLimits),
        };
        let cron_schedule = match settings.cron_schedule {
            Some(schedule) => schedule,
            None => match top_cron_schedule {
                Some(schedule) => schedule,
                None => return Err(SettingsError::MissingSchedule),
            },
        };
        Ok(AavePortfolioTrackerConfig {
            health_factor_notification_lower_limit: lower,
            health_factor_notification_upper_limit: upper,
            cron_schedule,
        })
    }
}

/// Settings of the documented form, with the single notification limit, give
/// limits in order, so the configuration check accepts them.
pub proof fn lemma_single_limit_in_order(settings: TrackerSettings)
    requires
        settings.health_factor_notification_limit is Some,
        settings.health_factor_notification_lower_limit is None,
        settings.health_factor_notification_upper_limit is None,
    ensures
        settings_limits(settings) matches Some(limits) && limits.0 <= limits.1,
{
}

/// Settings that give only a lower and an upper limit give exactly those two
/// limits, in that order, whichever is larger; settings that give only the
/// single limit give it as both. So limits out of order reach the
/// configuration check as they were written.
pub proof fn lemma_settings_limits_as_written(settings: TrackerSettings)
    ensures
        settings.health_factor_notification_limit is None && settings.health_factor_notification_lower_limit is Some
            && settings.health_factor_notification_upper_limit is Some ==> settings_limits(settings) == Some((
            settings.health_factor_notification_lower_limit.unwrap(),
            settings.health_factor_notification_upper_limit.unwrap(),
        )),
        settings.health_factor_notification_limit matches Some(l)
            ==> (settings.health_factor_notification_lower_limit is None && settings.health_factor_notification_upper_limit is None
                <==> settings_limits(settings) == Some((l, l))),
        settings_limits(settings) matches Some(limits) ==> (
            (settings.health_factor_notification_limit == Some(limits.0) && limits.0 == limits.1)
            || (settings.health_factor_notification_lower_limit == Some(limits.0)
                && settings.health_factor_notification_upper_limit == Some(limits.1))),
{
}

} // verus!
