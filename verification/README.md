# dsync_rust

The verified core of the DSYNC job marketplace, a Solana program written
with Anchor: clients register, post paid jobs whose price sits in a token
vault, workers start jobs and hand in submissions, the job's validator
accepts one, and the winner claims the price.

- `src/state.rs`: the accounts' data (`Client`, `Job`, `Submission`), the job
  states and the space allocated for each account.
- `src/pubkey.rs`: account addresses.
- `src/pda.rs`: the seeds of the program's derived addresses and the calls that
  derive them.
- `src/bumps.rs`: the bump seeds found while checking an instruction's accounts.
- `src/accounts.rs`: each instruction's accounts, their checks and the token
  calls built from them.
- `src/dsync_rust.rs`: the instruction handlers.
- `src/laws.rs`: properties that span several handlers and checks.
- `app/lib.rs`: the Anchor program that hands accounts to the handlers and
  makes the token calls they ask for.

The account checks in `src/accounts.rs` (`try_accounts`, `exit`) state what
the program's account attributes require: addresses derived from seeds,
signer and writability (accounts the instruction creates included), that the
system and token program accounts are those programs, the `constraint = ...`
conditions, that accounts the instruction creates are not yet allocated and
start zeroed, and that stored data fits the allocated space. On chain these
checks are the ones Anchor generates from the attributes in `app/lib.rs`; the
app does not call the library's checks, so the access-control laws in
`src/laws.rs` are statements about that model of the attributes. Not
modelled: that program accounts are executable, that the program's accounts
carry its type tag and owner, that token accounts and mints belong to the
token program, and the payer's funding of created accounts.
