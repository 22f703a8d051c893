# finance_query_cli

The logic of `fq`, a command-line tool for market data and SEC EDGAR
filings, as a library whose behaviour is specified and proved with Verus.

## Layout

- `src/` — the verified library.
  - `commands/` — arguments of the commands, how their textual choices are
    read (intervals, ranges, statement types, regions, asset types, the
    `--indicators` list), how the `edgar` command starts, the service files
    of the alert watcher, the names of market sessions and the market-hours
    table, what the `grades`, `filings`, `facts`, `financials`, `dividends`
    and `splits` commands select and in which order, and the interactive
    views of `chart`, `filings`, `news` and `financials`.
  - `edgar/` — the interactive filings browser: its state, the effect of
    each key, search paging, the form filter, and what its header, footer
    and list show.
  - `dashboard/` — the market dashboard: tabs, screener categories,
    watchlists, the effect of each key, the status line, and the state
    changes around the data it fetches.
  - `backtest/` — the strategy builder's choices and the codes and
    upsert/delete rules of saved presets.
  - `config.rs` — the CLI configuration and the rule that picks the EDGAR
    contact email.
  - `format.rs`, `text.rs` — text shaping (truncation, CSV quoting, word
    wrapping, digit grouping) and the character-level building blocks.
- `tests/` — tests of the library on concrete values.
- `app/` — the `fq` program: argument parsing, configuration files, network
  requests, printing, and the terminal interfaces.

Every public function of `src/` carries a contract; the `law_*` proof
functions state properties that span several calls (round trips of stored
codes, cycles of the choices, what a key press keeps, the order of sorted
lists).
