# Stage

Reentrant actors for Rust, with a verified core.

* **Isolation**: only one continuation belonging to an actor executes at any
  instant.
* **Reentrancy**: whenever an actor method suspends, another queued method of the
  same actor may run.
* **Resumption**: when the suspended operation becomes ready, execution resumes from
  the suspension point with exclusive access to the actor.

The schedulable unit is the continuation, one in-flight method invocation. It runs
only while it holds its actor's token, and gives the token up whenever it suspends
or ends. Continuations that wait for the token get it first in, first out. They run
on the executor that their actor was spawned on, where idle workers steal them from
each other.

## Layout

* `src/` is the library `stage_core`, verified with [Verus](https://github.com/verus-lang/verus).
  * `cell`, `lock`, `task`, `actor`, `context`, `handle`, `executor`, `deque`: the
    runtime's data structures and decisions, each function with its contract.
  * `model`, `laws`: the runtime as a transition system over the functions that those
    contracts speak of, and what holds in every state that it can get into:
    isolation, order, affinity, reentrancy, cancellation, panic isolation.
  * `codegen`: the attributes `actor` and `actor_fn`, from the tokens of the annotated
    item to what takes its place.
* `app/` is the crate `stage` around it: worker threads, futures and wakers, the
  pointers to the actors' states, the Tokio reactor for leaf futures, and putting
  generated code together. `app/stage_macros.rs` is the root of the procedural macro
  crate with the two attributes; it shares `app/macros.rs`.
* `tests/` runs the library: the runtime step by step on one thread, with the real
  queues, locks and channels, and the generated code as syntax trees.

## What is trusted

The contracts of the functions marked `#[verifier::external_body]`, which call
`parking_lot` (`lock`), `crossbeam_deque` (`deque`), `tokio`'s one-shot channel
(`handle`), `syn` (`codegen::source`) and `TypeId`'s equality (`context`), and the
types declared beside them. When something comes out of a queue, a lock or a channel
depends on other threads; the contracts say only what holds whatever that is.

The model takes two things as given: that the lock of an actor lets one thread in at a
time, and that the queues of an executor hand each continuation that was pushed to one
of its workers, once. That a continuation is pushed once for each time that it gets its
actor's token follows from ownership: `Grant` cannot be copied, and pushing uses it up.
