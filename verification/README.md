# interledger_stream

The sending side of the STREAM transport protocol of Interledger, verified with Verus.

- `src/sender.rs`: opens a payment, decides what to do next, makes packets, takes replies
- `src/payment.rs`: the state of a payment and its receipt (`src/delivery.rs`)
- `src/reply.rs`: what a Fulfill or Reject does to a payment
- `src/rates.rs`: the least amount a recipient has to accept, on exact rationals
  (`src/rational.rs`, on top of `num`)
- `src/laws.rs`, `src/history.rs`: what holds across operations and whole runs
- `src/packet.rs`, `src/text.rs`, `src/error.rs`, `src/clock.rs`: packets, messages, errors, time
- `app/`: runs payments on `tokio` over an Interledger node

Encryption, the congestion controller and the network are behind traits of `app/`.
