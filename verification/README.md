# plinko

Verified core of the PLINKO CosmWasm contracts on Injective:

- `src/plinko_game`: the Plinko game — SHA-256 ball paths, bucket and
  payout, game and player totals, global and daily leaderboards (kept
  ranked, one row per player, at most 100 rows; the daily boards hold the
  day's best single-game profit and the amount wagered that day), house
  withdrawals and the queries.
- `src/purchase_contract`: INJ → PLINK purchases at an admin-set exchange
  rate, house funding, and the token-factory messages they ask for.
- `src/plink_token`: the minter hand-over rule of the CW20 token.
- `src/common`: amounts in decimal, sent funds, response messages and
  attributes.

Each decision is a function from stored state and message to new state and
response, with its contract proved by Verus. `app/` holds the CosmWasm entry
points: it loads storage, calls the library, stores the outcome and builds
the chain response; CW20 transfers, allowances and balances are cw20-base's.

The game's payout table (the multipliers of each bucket for a difficulty and
risk level) is an input: `app::plinko_game::contract::execute` takes it as
a function supplied by the deployment.
