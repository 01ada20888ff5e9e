use vstd::prelude::*;

use crate::portfolio::AavePortfolio;

verus! {

/// Messages from the portfolio tracker to the telegram bot.
pub enum TrackerToBotCommand {
    NotifyHealthDrop { portfolio: AavePortfolio },
}

/// Requests that the telegram bot sends to the portfolio tracker.
#[derive(Clone, Copy, Debug, PartialEq, Eq)]
pub enum BotToTrackerCommand {
    GetPortfolio,
}

} // verus!
