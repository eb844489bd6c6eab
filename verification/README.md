# real_estate

Verified instruction logic of a tokenized real-estate fundraising program:
sponsors list a property as a fixed supply of tokens sold for USDC into
escrow; a listing that reaches its raise target is funded and, once the
sponsor takes the escrow, active; the sponsor deposits rental income that
holders claim pro rata; holders can ask to redeem and the sponsor burns
their tokens; a failed or cancelled raise is refunded.

- `src/` is the library, proved with Verus. Each instruction is a function
  from the accounts it reads (plain values), its arguments and the current
  time to the accounts' new values and the event it reports; its contract
  gives the exact error, in order of the checks, and the exact new state.
  `src/laws.rs` holds the reward arithmetic laws: rental income is never
  over-distributed, over one deposit or many, also while holders leave
  between deposits, and is paid pro rata.
  `src/steps.rs` states what any instruction may do to a listing and a
  position, and `src/sequence_laws.rs` proves, over any run of
  instructions, that fundraising once left is never re-entered, escrow is
  released once, and refunds, rental claims and redemption approvals are
  each paid once.
- `tests/` runs the library on concrete values.
- `app/` is the on-chain program around the library: Anchor account
  validation, clock reads, token and metadata invocations, and events.
