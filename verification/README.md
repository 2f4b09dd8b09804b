# lp_bot

A bot that keeps a Uniswap V3 liquidity position around the current price.
It creates a position where none is recorded, watches the pool's tick, and
moves the position (remove liquidity, create a new one, sell what is left of
the non-quote token) when the price leaves the position's range.

- `src/` is the verified library (Verus): 256-bit arithmetic (`uint256`),
  tick ranges, fee tiers and the time-weighted tick (`ticks`), the liquidity a
  quote deposit buys (`liquidity`), the WETH size of the deposit as a
  fraction of the pool price, proved in 512-bit arithmetic (`wide`,
  `pricing`; its decimal writing and reading are calls into
  `uniswap-sdk-core` and `alloy-primitives`), the amounts a new position takes
  (`pricing`, through `uniswap-v3-sdk`), reading the minted position's ID from
  receipt logs (`logs`), the rebalancing decisions (`strategy`), the
  resend-with-more-gas rule for transactions (`tx`) and `remove_decimals`
  (`text`).
- `app/` is the program around it: configuration file, RPC calls,
  transaction signing and sending, and the floating-point conversions of the
  configuration's percentages and sizes.
- `tests/` runs the library on concrete values.
