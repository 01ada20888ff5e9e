# Aave portfolio manager

A service that watches a wallet's Aave v3 position on Ethereum and sends a
Telegram message when the health factor drops below a configured limit.

- `src/` is the verified library (Verus): addresses and 256-bit amounts, the
  token registries, the order of the chain reads that fetch a portfolio (a
  state machine that the program drives), the assembly of a portfolio from
  what the chain returns
  (ERC-20 balances by symbol, collateral and debt reserves, net value and health
  factor), the Telegram summary text (from the amount texts that the program
  writes), the DefiLlama
  price key, URL and lookup, the configuration checks and the decimal limits,
  the wallet address, the tracker's notification decision and the bot's
  answers to commands.
  Health factors and limits are kept in wad (10^18) and the net value in the
  oracle's base unit (10^8), the units in which Aave reports them.
- `app/` is the program around it: configuration file and environment, the
  two-decimal float texts of the summary's amounts,
  logging, the Ethereum node and DefiLlama requests, the Telegram bot, the
  schedule and the channels between the tracker and the bot.
- `tests/` runs the library on concrete values.

## Configuration

The configuration file may be written with `cron_schedule` at the top of the file and a single
`[aave_portfolio_tracker] health_factor_notification_limit`:

```toml
cron_schedule = "0 */5 * * * *"

[logging]
level = "info"

[aave_portfolio_tracker]
health_factor_notification_limit = 1.1
```

It may instead give `health_factor_notification_lower_limit` and
`health_factor_notification_upper_limit` (both), and `cron_schedule` inside the
section; the lower limit must not be above the
upper one, and it is then the notification limit. A file that gives the single
limit together with a lower or upper limit, or only one of the two, is refused,
and so is a file without a schedule. A health factor below the notification
limit is reported.

Each limit is read from its decimal text as a wad amount; nonzero digits past
the eighteenth decimal round the amount away from zero to the next wad unit,
so that "below the limit" is decided exactly on the wad health factor that Aave
reports (no health factor is below a negative limit either way). A limit that
is not a finite number is refused.

The amounts of the Telegram summary are written by the program, from
floating-point values with two decimals (`{:.2}`); the
library assembles the summary from those texts.
