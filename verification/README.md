# copy_trading_bot

A Telegram bot that watches Solana addresses and forwards their new
transactions to the chat that asked, with notification subscriptions and a
wallet loaded from the environment.

- `src/` is the verified library (Verus): address validation, the
  subscriber list, the per-chat monitor registry and command decisions,
  the signature tracker of the transaction monitor, the retry backoff,
  pool selection, and wallet loading. Calls into the Solana SDK, base64,
  bs58, serde_json and anyhow go through small trusted wrappers whose
  contracts are documented next to them.
- `app/` is the program around it: Telegram dispatching, RPC calls,
  sleeping, environment variables, files, and the floating-point amounts.
- `tests/` exercises the library on concrete values.
