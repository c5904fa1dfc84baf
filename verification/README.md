# rocketmq_client

The decisions of a RocketMQ producer, written and proved in Verus, and the
asynchronous code that carries them out.

The library makes no calls to the network and reads no clock. Where a producer
needs something from outside, a function of the library says what, and another one
takes what came of it. Each of them states exactly what it decides. Of the
application's hooks it is stated that each was told or asked, of what, and what
follows from the answers; not in which order, nor that no call was made twice.

- `src/producer.rs`: the producer's parts, its state, its hooks
- `src/start.rs`: starting it
- `src/topic_route.rs`: its table of routes, which its clones share
- `src/send_default.rs`: one send, with its attempts
- `src/send_kernel.rs`: one transmission to a broker
- `src/send_laws.rs`, `src/kernel_laws.rs`: whole sends and transmissions, and
  what holds of all of them
- `src/message.rs`, `src/types.rs`, `src/config.rs`, `src/hook.rs`,
  `src/error.rs`: the values they work on
- `src/text.rs`: numbers and lists as text
- `src/admin_broker_processor.rs`: a broker's answer to administrative requests
- `src/outside.rs`: what is taken from other crates on trust

Names and numbers of the protocol (error codes, property names, flags) come in with
`ProtocolConstants`; the proofs hold for any choice of them.

`app/` runs a producer on a `Platform`: the client, its transport and its fault
strategy.
