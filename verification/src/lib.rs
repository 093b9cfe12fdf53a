//! A small verified pizza-ordering domain model: a decorator chain for
//! pizza pricing and description, orders with a monotonic id source, an
//! in-memory order store, a billing engine, and two simulated payment
//! adapters.

pub mod billing;
pub mod clock;
pub mod commands;
pub mod errors;
pub mod idgen;
pub mod order;
pub mod payment;
pub mod pizza;
pub mod store;
