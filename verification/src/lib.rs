//! Reentrant actors: the verified core.
//!
//! An actor owns state that only one continuation may touch at a time. A
//! continuation is one in-flight invocation of an actor method. It runs only
//! while it holds its actor's token, and gives the token up whenever it
//! suspends or ends, so that other invocations of the same actor interleave at
//! suspension points and nowhere else.
//!
//! The runtime:
//!
//! * [`cell`]: the token of one actor and the queue of continuations that wait for
//!   it; [`lock`]: the lock around these.
//! * [`task`]: one continuation, and what waking, running and cancelling do to it.
//! * [`actor`]: the cell that owns an actor, and references to it.
//! * [`context`]: how a running body reaches the state of its actor.
//! * [`handle`]: waiting for the result of an invocation, and cancelling it.
//! * [`executor`]: workers that share out continuations through the queues of
//!   [`deque`], which they take from in [`turns`].
//! * [`model`]: the runtime as a whole, as a transition system; [`laws`]: what is
//!   promised of it.
//!
//! [`codegen`] holds the code generation behind the two attributes that turn
//! ordinary async methods and functions into invocations.

pub mod actor;
pub mod cell;
pub mod codegen;
pub mod context;
pub mod deque;
pub mod executor;
pub mod handle;
pub mod laws;
pub mod lock;
pub mod model;
pub mod task;
pub mod turns;
