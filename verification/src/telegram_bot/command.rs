use vstd::prelude::*;

verus! {

/// The commands that users can send to the bot: `/help` and `/portfolio`.
#[derive(Clone, Copy, Debug, PartialEq, Eq)]
pub enum TelegramBotExternalCommand {
    /// Display the list of commands.
    Help,
    /// Get the current portfolio.
    Portfolio,
}

} // verus!
