# teamwallet

A democratic multi-signature team wallet for Solana: an owner, voters and contributors
create proposals (transfers, swaps, membership and threshold changes, program upgrades
and deletions, token management), vote on them, and execute those that reach the
wallet's vote threshold.

## Layout

- `src/` — the verified library, written in Verus.
  - `pubkey.rs` — addresses and the list operations the wallet uses on them.
  - `state/` — the accounts the wallet keeps, each with its well-formedness predicate.
  - `instructions/` — one module per instruction: what it checks, in which order, and
    what it changes; every refusal leaves the accounts as they were.
  - `cpi.rs` — the calls to other programs that an executed action asks for.
  - `solana.rs` — the calls into `anchor-lang` and `spl-token-metadata-interface` that
    the library makes (address derivation, the loader's and the metadata interface's
    instruction builders), with the contracts they are trusted to meet.
  - `laws.rs` — properties that span instructions (one vote per voter, execution only at
    the threshold, what adding and then removing a member gives back, ...).
- `tests/` — tests of the library on concrete values.
- `app/` — the on-chain program: account validation, the clock, signing as the team
  wallet and the calls to the token, loader and swap programs.
