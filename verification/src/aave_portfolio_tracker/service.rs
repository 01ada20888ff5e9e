use vstd::prelude::*;

use super::config::AavePortfolioTrackerConfig;
use crate::address::{parse_address, parsed_address, EthAddress};
use crate::cross_service_commands::{BotToTrackerCommand, TrackerToBotCommand};
use crate::portfolio::AavePortfolio;

verus! {

/// The wallet that the tracker watches, read from the text of its configured
/// address (`ETH_ADDRESS`): an optional `0x` and 40 hex digits; `None` when the
/// text is not an address, which stops the tracker from starting.
pub fn parse_wallet_address(text: &str) -> (res: Option<EthAddress>)
    ensures
        res is Some <==> parsed_address(text@) is Some,
        res matches Some(a) ==> a.bytes@ == parsed_address(text@).unwrap(),
{
    parse_address(text)
}

/// A health factor calls for a notification when it is below the configured
/// notification limit, the lower limit of the configuration.
pub open spec fn calls_for_notification(config: AavePortfolioTrackerConfig, health_factor: u128) -> bool {
    (health_factor as int) < config.health_factor_notification_lower_limit
}

/// What the scheduled job does with a freshly fetched portfolio: the health
/// drop notification for the bot when the health factor is below the limit,
/// nothing when it is within the acceptable range.
pub fn scheduled_job_notification(config: &AavePortfolioTrackerConfig, portfolio: AavePortfolio) -> (res: Option<TrackerToBotCommand>)
    ensures
        calls_for_notification(*config, portfolio.health_factor) ==> res == Some(TrackerToBotCommand::NotifyHealthDrop { portfolio }),
        !calls_for_notification(*config, portfolio.health_factor) ==> res is None,
        (portfolio.health_factor as int) < config.health_factor_notification_lower_limit
            ==> res == Some(TrackerToBotCommand::NotifyHealthDrop { portfolio }),
        (portfolio.health_factor as int) >= config.health_factor_notification_lower_limit ==> res is None,
{
    let limit = config.health_factor_notification_lower_limit;
    if limit <= 0 || portfolio.health_factor >= limit as u128 {
        return None;
    }
    Some(TrackerToBotCommand::NotifyHealthDrop { portfolio })
}

/// The answer to a request of the bot, given the portfolio fetched for it:
/// the portfolio is sent whatever its health factor.
pub fn bot_command_reply(command: BotToTrackerCommand, portfolio: AavePortfolio) -> (res: TrackerToBotCommand)
    ensures
        res == (TrackerToBotCommand::NotifyHealthDrop { portfolio }),
{
    match command {
        BotToTrackerCommand::GetPortfolio => TrackerToBotCommand::NotifyHealthDrop { portfolio },
    }
}

/// A portfolio that the scheduled job reports would be reported with any lower health factor too.
pub proof fn lemma_notification_monotone(config: AavePortfolioTrackerConfig, lower_hf: u128, higher_hf: u128)
    requires
        lower_hf <= higher_hf,
        calls_for_notification(config, higher_hf),
    ensures
        calls_for_notification(config, lower_hf),
{
}

/// Exactly the health factors below the lower limit call for a notification: a
/// health factor at or above the limit never does, one below it always does.
pub proof fn lemma_notification_exactly_below_limit(config: AavePortfolioTrackerConfig, health_factor: u128)
    ensures
        calls_for_notification(config, health_factor) <==> (health_factor as int) < config.health_factor_notification_lower_limit,
{
}

} // verus!
