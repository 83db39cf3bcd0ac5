# actopts

A small actor library. Actors own an unbounded mailbox, are addressed
through `Pid` (strong) and `WeakPid` (weak) handles, run the jobs their
mailbox delivers, stop on request, can have streams forwarded into them,
and can subscribe to broadcast registries.

`src/` is the verified library: the mailbox plumbing and what a sender is
told (`pid.rs`, `callback.rs`, `error.rs`), the run loop's decision per
mailbox event and the listener table (`context.rs`, `listeners.rs`), the
stream-forwarding stages (`pump.rs`), the broadcast and service registries
(`registry.rs`), and the outside types they carry (`mailbox.rs`).

`app/` is the asynchronous runtime around it: the `Actor`, `Listener` and
`StreamListener` traits, spawning and the run loop, timers, request round
trips and the process-wide service tables.
