use vstd::prelude::*;
use vstd::string::*;

use super::command::TelegramBotExternalCommand;
use crate::cross_service_commands::{BotToTrackerCommand, TrackerToBotCommand};
use crate::portfolio::{telegram_message_text, texts_match, AmountTexts};

verus! {

/// Where to learn more about the bot; appended to every refusal.
pub const MORE_INFO: &'static str = "More info: https://github.com/optifat/aave-portfolio-manage";

/// The error text when a command of the owner could not be carried out.
pub const ANSWER_FAILURE: &'static str = "Failed to process incoming external command";

/// What the bot does about an incoming command.
#[derive(Debug, PartialEq, Eq)]
pub enum BotAnswer {
    /// Send the descriptions of the commands to the owner.
    SendDescriptions,
    /// Ask the tracker for the portfolio.
    RequestPortfolio(BotToTrackerCommand),
    /// Send `text` to the chat `chat_id`.
    Reply { chat_id: i64, text: String },
}

/// The refusal sent to anyone but the owner.
pub open spec fn no_access_text(cmd: TelegramBotExternalCommand) -> Seq<char> {
    match cmd {
        TelegramBotExternalCommand::Help => "Current implementation of this bot is for personal usage only.\n "@ + MORE_INFO@,
        _ => "You have no access!\n "@ + MORE_INFO@,
    }
}

/// The refusal for `cmd` from a chat that is not the owner's.
pub fn no_access_answer(cmd: TelegramBotExternalCommand) -> (s: String)
    ensures
        s@ == no_access_text(cmd),
{
    let mut s = match cmd {
        TelegramBotExternalCommand::Help => String::from_str("Current implementation of this bot is for personal usage only.\n "),
        _ => String::from_str("You have no access!\n "),
    };
    s.append(MORE_INFO);
    s
}

/// Decides the answer to `cmd` arriving from chat `msg_chat_id`, the bot's
/// owner being chat `owner_chat_id`: the owner's commands are carried out,
/// anyone else is refused in their own chat.
pub fn answer(owner_chat_id: i64, msg_chat_id: i64, cmd: TelegramBotExternalCommand) -> (res: BotAnswer)
    ensures
        msg_chat_id == owner_chat_id ==> res == match cmd {
            TelegramBotExternalCommand::Help => BotAnswer::SendDescriptions,
            TelegramBotExternalCommand::Portfolio => BotAnswer::RequestPortfolio(BotToTrackerCommand::GetPortfolio),
        },
        msg_chat_id != owner_chat_id ==> (res matches BotAnswer::Reply { chat_id, text } && chat_id == msg_chat_id
            && text@ == no_access_text(cmd)),
{
    if msg_chat_id == owner_chat_id {
        match cmd {
            TelegramBotExternalCommand::Help => BotAnswer::SendDescriptions,
            TelegramBotExternalCommand::Portfolio => BotAnswer::RequestPortfolio(BotToTrackerCommand::GetPortfolio),
        }
    } else {
        BotAnswer::Reply { chat_id: msg_chat_id, text: no_access_answer(cmd) }
    }
}

/// The text that the bot sends to its owner for a message of the tracker: the
/// summary of the portfolio it carries, with the given amount texts.
pub fn notification_text(command: &TrackerToBotCommand, amounts: &AmountTexts) -> (s: String)
    requires
        command matches TrackerToBotCommand::NotifyHealthDrop { portfolio } && texts_match(*portfolio, *amounts),
    ensures
        command matches TrackerToBotCommand::NotifyHealthDrop { portfolio } && s@ == telegram_message_text(*portfolio, *amounts),
{
    match command {
        TrackerToBotCommand::NotifyHealthDrop { portfolio } => portfolio.to_telegram_message(amounts),
    }
}

} // verus!
