use vstd::prelude::*;

use crate::portfolio::AavePortfolio;

verus! {

/// Messages from the portfolio tracker to the telegram service.
pub enum BotCommand {
    NotifyHealthDrop { portfolio: AavePortfolio },
}

/// Requests that the telegram service sends to the portfolio tracker.
#[derive(Clone, Copy, Debug, PartialEq, Eq)]
pub enum TrackerCommand {
    GetPortfolio,
}

} // verus!
