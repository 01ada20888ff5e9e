use aave_portfolio_manager::commands::{BotCommand, TrackerCommand};
use aave_portfolio_manager::cross_service_commands::{BotToTrackerCommand, TrackerToBotCommand};
use aave_portfolio_manager::portfolio::{AavePortfolio, AmountTexts, ERC20Balance};
use aave_portfolio_manager::telegram_bot::command::TelegramBotExternalCommand;
use aave_portfolio_manager::telegram_bot::telegram_client::{answer, no_access_answer, notification_text, BotAnswer};
use aave_portfolio_manager::telegram_service;
use aave_portfolio_manager::telegram_service::command::TelegramBotExternalCommand as Cmd;
use aave_portfolio_manager::telegram_service::telegram_bot as svc;

fn portfolio() -> AavePortfolio {
    AavePortfolio {
        supply: vec![("USDT".to_string(), ERC20Balance { decimals: 6, balance: 1_000_000 })],
        debt: vec![],
        net: 100_000_000,
        health_factor: 1_000_000_000_000_000_000,
    }
}

#[test]
fn owner_commands_are_carried_out() {
    assert_eq!(answer(42, 42, TelegramBotExternalCommand::Help), BotAnswer::SendDescriptions);
    assert_eq!(
        answer(42, 42, TelegramBotExternalCommand::Portfolio),
        BotAnswer::RequestPortfolio(BotToTrackerCommand::GetPortfolio)
    );
}

#[test]
fn strangers_are_refused_in_their_chat() {
    assert_eq!(
        answer(42, 7, TelegramBotExternalCommand::Help),
        BotAnswer::Reply {
            chat_id: 7,
            text: "Current implementation of this bot is for personal usage only.\n More info: https://github.com/optifat/aave-portfolio-manage".to_string(),
        }
    );
    assert_eq!(
        no_access_answer(TelegramBotExternalCommand::Portfolio),
        "You have no access!\n More info: https://github.com/optifat/aave-portfolio-manage"
    );
}

#[test]
fn service_bot_answers() {
    assert_eq!(svc::answer(1, 1, Cmd::Portfolio), svc::BotAnswer::RequestPortfolio(TrackerCommand::GetPortfolio));
    assert_eq!(svc::answer(1, 1, Cmd::Help), svc::BotAnswer::SendDescriptions);
    assert_eq!(
        svc::no_access_answer(Cmd::Help),
        "Current implementation of this bot is for personal usage only.\n  More info: https://github.com/optifat/aave-portfolio-manage"
    );
    match svc::answer(1, -5, Cmd::Portfolio) {
        svc::BotAnswer::Reply { chat_id, text } => {
            assert_eq!(chat_id, -5);
            assert_eq!(text, "You have no access!\n  More info: https://github.com/optifat/aave-portfolio-manage");
        }
        _ => panic!("expected a refusal"),
    }
}

#[test]
fn notifications_carry_the_portfolio_summary() {
    let expected = "📊 *AAVE Portfolio Summary*\n\n💰 *Supplied*\n  • USDT: 1.00\n\n\n📈 *Net Value*: $1.00\n🛡️ *Health Factor*: 1.00";
    let texts = || AmountTexts {
        supply: vec!["1.00".to_string()],
        debt: vec![],
        net: "1.00".to_string(),
        health_factor: "1.00".to_string(),
    };
    assert_eq!(notification_text(&TrackerToBotCommand::NotifyHealthDrop { portfolio: portfolio() }, &texts()), expected);
    assert_eq!(
        telegram_service::telegram_bot::notification_text(&BotCommand::NotifyHealthDrop { portfolio: portfolio() }, &texts()),
        expected
    );
}
