[package]
name = "aave_portfolio_manager"
version = "0.1.0"
edition = "2021"
publish = false

[dependencies]
anyhow = "=1.0.104"
async-trait = "=0.1.92"
clap = { version = "=4.6.7", features = ["derive"] }
config = { version = "=0.14.1", default-features = false, features = ["toml"] }
dotenvy = "=0.15.7"
env_logger = { version = "=0.11.11", default-features = false }
ethers = { version = "=2.0.14", default-features = false, features = ["abigen"] }
log = "=0.4.35"
reqwest = { version = "=0.11.27", default-features = false, features = ["json"] }
serde = { version = "=1.0.229", features = ["derive"] }
takecell = "=0.1.1"
teloxide = { version = "=0.13.0", default-features = false, features = ["macros"] }
tokio = { version = "=1.54.1", features = ["full"] }
tokio-cron-scheduler = "=0.13.0"
