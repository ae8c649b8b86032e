# payout_plan

Verified core of a monthly payout plan program: a plan is funded in USDT, becomes
active once its deposits reach one hundred monthly payouts, pays its owner a monthly
amount (converted to tBTC at a given price) that grows by 0.3726% after each payout,
and can be put into an emergency mode in which the whole remaining balance is withdrawn.

- `src/key.rs`: 32-byte account addresses.
- `src/error.rs`: the reasons an operation is refused.
- `src/plan.rs`: the plan's state, its operations and their specifications.
- `src/events.rs`: the events that report each instruction.
- `src/payout_plan.rs`: the instructions, with the owner check.
- `src/laws.rs`: properties that hold across operations.
- `app/`: the Anchor program that stores plans in accounts and emits the events.
