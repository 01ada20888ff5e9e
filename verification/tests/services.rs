use aave_portfolio_manager::aave_portfolio_tracker::config::{AavePortfolioTrackerConfig, LimitsOutOfOrder, SettingsError, TrackerSettings};
use aave_portfolio_manager::aave_portfolio_tracker::service::{bot_command_reply, scheduled_job_notification};
use aave_portfolio_manager::app_config::AppConfig;
use aave_portfolio_manager::args::Args;
use aave_portfolio_manager::cross_service_commands::{BotToTrackerCommand, TrackerToBotCommand};
use aave_portfolio_manager::data_fetchers::defi_llama_data_fetcher::price_fetcher::{coin_index, price_key, price_url};
use aave_portfolio_manager::data_fetchers::defi_llama_data_fetcher::{DefiLlamaDataFetcher, DEFI_LLAMA_ENDPOINT};
use aave_portfolio_manager::logger::{LevelFilter, LoggingConfig};
use aave_portfolio_manager::portfolio::AavePortfolio;
use aave_portfolio_manager::address::EthAddress;

const WAD: u128 = 1_000_000_000_000_000_000;
const WAD_LIMIT: i128 = 1_000_000_000_000_000_000;

fn config(lower: i128, upper: i128) -> AavePortfolioTrackerConfig {
    AavePortfolioTrackerConfig {
        health_factor_notification_lower_limit: lower,
        health_factor_notification_upper_limit: upper,
        cron_schedule: "0 */5 * * * *".to_string(),
    }
}

fn portfolio(hf: u128) -> AavePortfolio {
    AavePortfolio { supply: vec![], debt: vec![], net: 0, health_factor: hf }
}

#[test]
fn config_limits_in_order_pass() {
    assert_eq!(config(11 * WAD_LIMIT / 10, 2 * WAD_LIMIT).verify(), Ok(()));
    assert_eq!(config(WAD_LIMIT, WAD_LIMIT).verify(), Ok(()));
}

#[test]
fn config_limits_out_of_order_fail() {
    assert_eq!(config(2 * WAD_LIMIT, WAD_LIMIT).verify(), Err(LimitsOutOfOrder { lower: 2 * WAD_LIMIT, upper: WAD_LIMIT }));
    let app = AppConfig { logging: LoggingConfig { level: "info".to_string() }, aave_portfolio_tracker: config(3, 2) };
    assert_eq!(app.verify(), Err(LimitsOutOfOrder { lower: 3, upper: 2 }));
}

#[test]
fn health_drop_is_notified_below_limit() {
    let c = config(11 * WAD_LIMIT / 10, 2 * WAD_LIMIT);
    match scheduled_job_notification(&c, portfolio(WAD)) {
        Some(TrackerToBotCommand::NotifyHealthDrop { portfolio }) => assert_eq!(portfolio.health_factor, WAD),
        None => panic!("expected a notification"),
    }
}

#[test]
fn healthy_portfolio_is_not_notified() {
    let c = config(11 * WAD_LIMIT / 10, 2 * WAD_LIMIT);
    assert!(scheduled_job_notification(&c, portfolio(11 * WAD / 10)).is_none());
    assert!(scheduled_job_notification(&c, portfolio(5 * WAD)).is_none());
}

#[test]
fn requested_portfolio_is_always_sent() {
    match bot_command_reply(BotToTrackerCommand::GetPortfolio, portfolio(9 * WAD)) {
        TrackerToBotCommand::NotifyHealthDrop { portfolio } => assert_eq!(portfolio.health_factor, 9 * WAD),
    }
}

#[test]
fn log_levels() {
    let level = |s: &str| LoggingConfig { level: s.to_string() }.level_filter();
    assert_eq!(level("info"), LevelFilter::Info);
    assert_eq!(level("DEBUG"), LevelFilter::Debug);
    assert_eq!(level("Warn"), LevelFilter::Warn);
    assert_eq!(level("off"), LevelFilter::Off);
    assert_eq!(level("tRaCe"), LevelFilter::Trace);
    assert_eq!(level("error"), LevelFilter::Error);
    assert_eq!(level("verbose"), LevelFilter::Info);
    assert_eq!(level(""), LevelFilter::Info);
}

#[test]
fn price_key_and_url() {
    let mut bytes = [0u8; 20];
    bytes[0] = 0xab;
    bytes[19] = 0x0c;
    let key = price_key("ethereum", &EthAddress { bytes });
    assert_eq!(key, "ethereum:0xab0000000000000000000000000000000000000c");
    assert_eq!(
        price_url(DEFI_LLAMA_ENDPOINT, &key),
        "https://coins.llama.fi/prices/current/ethereum:0xab0000000000000000000000000000000000000c"
    );
}

#[test]
fn coin_lookup() {
    let keys = vec!["ethereum:0x01".to_string(), "ethereum:0x02".to_string()];
    assert_eq!(coin_index(&keys, &"ethereum:0x02".to_string()).ok(), Some(1));
    let err = coin_index(&keys, &"ethereum:0x03".to_string()).err().unwrap();
    assert_eq!(err.message(), "Failed to get CoinData for ethereum:0x03");
}

#[test]
fn defi_llama_fetcher_and_args() {
    let _fetcher: DefiLlamaDataFetcher = DefiLlamaDataFetcher::new();
    let args = Args { config: "Config.toml".to_string() };
    assert_eq!(args.config, "Config.toml");
}

#[test]
fn negative_limits_out_of_order_fail() {
    assert_eq!(config(-WAD_LIMIT, -2 * WAD_LIMIT).verify(), Err(LimitsOutOfOrder { lower: -WAD_LIMIT, upper: -2 * WAD_LIMIT }));
    assert_eq!(config(-2 * WAD_LIMIT, -WAD_LIMIT).verify(), Ok(()));
}

#[test]
fn negative_lower_limit_never_notifies() {
    let c = config(-WAD_LIMIT, WAD_LIMIT);
    assert!(scheduled_job_notification(&c, portfolio(0)).is_none());
    let z = config(0, WAD_LIMIT);
    assert!(scheduled_job_notification(&z, portfolio(0)).is_none());
    let one = config(1, WAD_LIMIT);
    assert!(scheduled_job_notification(&one, portfolio(0)).is_some());
}

fn settings(limit: Option<i128>, lower: Option<i128>, upper: Option<i128>, cron: Option<&str>) -> TrackerSettings {
    TrackerSettings {
        health_factor_notification_limit: limit,
        health_factor_notification_lower_limit: lower,
        health_factor_notification_upper_limit: upper,
        cron_schedule: cron.map(|c| c.to_string()),
    }
}

#[test]
fn documented_single_limit_is_accepted() {
    let c = AavePortfolioTrackerConfig::from_settings(settings(Some(11 * WAD_LIMIT / 10), None, None, None), Some("0 */5 * * * *".to_string())).unwrap();
    assert_eq!(c.health_factor_notification_lower_limit, 11 * WAD_LIMIT / 10);
    assert_eq!(c.health_factor_notification_upper_limit, 11 * WAD_LIMIT / 10);
    assert_eq!(c.cron_schedule, "0 */5 * * * *");
    assert_eq!(c.verify(), Ok(()));
}

#[test]
fn lower_and_upper_limits_are_accepted() {
    let c = AavePortfolioTrackerConfig::from_settings(settings(None, Some(WAD_LIMIT), Some(2 * WAD_LIMIT), Some("a")), Some("b".to_string())).unwrap();
    assert_eq!(c.health_factor_notification_lower_limit, WAD_LIMIT);
    assert_eq!(c.health_factor_notification_upper_limit, 2 * WAD_LIMIT);
    assert_eq!(c.cron_schedule, "a");
}

#[test]
fn unclear_limits_or_missing_schedule_are_refused() {
    let f = |s: TrackerSettings, top: Option<&str>| AavePortfolioTrackerConfig::from_settings(s, top.map(|t| t.to_string())).err();
    assert_eq!(f(settings(None, None, None, Some("a")), None), Some(SettingsError::UnclearLimits));
    assert_eq!(f(settings(None, Some(1), None, Some("a")), None), Some(SettingsError::UnclearLimits));
    assert_eq!(f(settings(Some(1), Some(1), Some(2), Some("a")), None), Some(SettingsError::UnclearLimits));
    assert_eq!(f(settings(Some(1), None, None, None), None), Some(SettingsError::MissingSchedule));
    assert_eq!(f(settings(None, None, None, None), None), Some(SettingsError::UnclearLimits));
}
