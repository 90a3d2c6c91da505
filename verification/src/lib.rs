//! A small verified library around an order-validation pipeline: a read-only
//! user directory is consulted for each candidate order, the user's email is
//! checked for well-formedness, and the order amount is held to a fixed
//! ceiling, failing fast on the first rejected order of a batch.
//!
//! Two small companions live beside the pipeline: a persistent singly-linked
//! list whose tails are shared, and a Fibonacci stepper that stops before
//! overflow.

pub mod fib;
pub mod list;
pub mod validation;
