# TricklePay streams, verified

A stream locks a sum of tokens from a sender and releases it to a recipient
linearly over time. The recipient can withdraw whatever has vested at any
moment; the sender can cancel and reclaim only what has not yet vested. This
crate is the logic of that contract, written and proved in
[Verus](https://github.com/verus-lang/verus).

## How a stream works

- **Start and end** bound the linear release. At the start nothing has vested;
  at the end the full amount has; in between the vested amount grows in
  proportion to the elapsed time, rounded down.
- **Cliff** is a moment before which nothing can be withdrawn. Once it is
  reached, everything accrued since the start unlocks at once. A stream whose
  cliff is its start has no cliff.
- **Withdraw** takes what has vested minus what was already taken, or a named
  part of it.
- **Cancel** stops a stream early. What has vested stays with the recipient; the
  rest goes back to the sender. The total is frozen at what had vested, so that
  nothing is locked any more and progress is full.

A stream of 1000 over `[100, 1100]`:

| Time | vested, no cliff | locked | vested, cliff at 600 | locked |
| --- | --- | --- | --- | --- |
| 50 | 0 | 1000 | 0 | 1000 |
| 350 | 250 | 750 | 0 | 1000 |
| 600 | 500 | 500 | 500 | 500 |
| 850 | 750 | 250 | 750 | 250 |
| 1100 | 1000 | 0 | 1000 | 0 |
| 9999 | 1000 | 0 | 1000 | 0 |

## Layout

```
src/            the library, all of it verified
  types.rs      addresses, the stream record and its status
  vesting.rs    how much of a stream is due at a given moment
  terms.rs      what a sender asks for, and when it is refused
  events.rs     what the contract asks of the host and publishes
  contract.rs   the contract: its state and its calls
  error.rs      errors and their stable codes
  laws/         what holds of streams, calls and whole histories
app/            the contract on Soroban: storage, authorization, token transfers
tests/          the library by itself, and on a Soroban test host with a real token
```

The contract decides and the host acts. A call on `StreamContract` changes the
contract's own state and hands back what is to be done: the tokens to move, the
event to publish, and for how long to keep the state alive. A refused call
changes nothing. `app/` reads what a call needs out of the ledger, demands the
authorization that the call needs, lets the library decide and carries the
decision out. Opening a stream needs the authorization of the sender that the
call names; for a withdrawal or a cancellation the library says whose it is.

## What is proved

Every function states exactly what it returns and when it refuses.
`src/laws/` adds what spans functions, among it:

- from its deployment on, whatever is asked, by whom and when, the contract holds
  every token that it has yet to pay out (`law_every_history_is_solvent`);
- what goes into a stream comes out of it again, all of it and no more
  (`law_a_stream_pays_out_what_was_put_in`);
- nobody but its sender and its recipient can change a stream
  (`law_a_stream_changes_only_with_its_parties`);
- a call looks only at the stream it names, so a host need read and write only
  that one record (`law_a_call_looks_only_at_the_stream_it_names`);
- withdrawals never overtake vesting (`law_withdrawals_never_overtake_vesting`);
- ids are contiguous and never reused
  (`law_ids_are_contiguous_and_never_reused`).

The library calls nothing outside the Rust standard library, and takes nothing on
trust but what Verus itself says of it.
