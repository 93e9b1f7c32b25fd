# rwa_gold_protocol

A gold-backed token ledger. Customers hold rupees and gold tokens; tokens are minted
against a physical vault and burned when sold; a market oracle moves the gold price and a
yield engine pays interest on rupee balances; every trade is recorded in an audit trail
that can be written out as an HTML report.

The library (`src/`) is verified with Verus. Decimal arithmetic, the clock and date
formatting are done by `rust_decimal` and `chrono`, behind small trusted functions whose
contracts say what those crates compute; everything around them is proved.

- `src/decimal.rs` — `Amount`, a decimal with a 96-bit mantissa and up to 28 places, and
  its arithmetic, comparisons, parsing and display.
- `src/time.rs` — `Timestamp` and its formatting.
- `src/models.rs` — accounts, the bank (accounts filed under unique names), transactions,
  the market.
- `src/protocol.rs` — buying, selling and transferring tokens, replenishing the vault,
  oracle and yield ticks, and the audit; the ledger's laws.
- `src/report.rs` — the HTML audit report.
- `app/` — the interactive program: menu, threads, and the JSON vault file.
