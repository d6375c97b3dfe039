# grandpa_voter

The decisions of a voter in the GRANDPA finality gadget, as a state machine that is
verified with Verus.

- `src/primitives.rs`: what hashes, ids and block numbers have to be able to do.
- `src/messages.rs`: the messages that voters exchange.
- `src/round.rs`: the voter set, the state of a tally, the data of a round.
- `src/voting_round.rs`: what a round decides from what it holds.
- `src/step.rs`: the steps of a round, from the start to its end.
- `src/voter.rs`: a voter that goes from round to round.
- `src/laws.rs`: what holds of every run of a round.
- `app/`: runs the steps on streams, sinks and timers of the `futures` crate. The
  tally of the votes and the access to the chain are traits of the environment.

A block that is newly finalized in a round is reported once the vote that finalized it is
counted.

A round that has no local voter, or one that is not in the voter set, casts nothing,
and goes on as if it had.
