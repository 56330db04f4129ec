//! A ledger of manufactured assets and the CO2 emissions attributed to them.
//!
//! Every asset has an owner, an immutable metadata blob, an append-only
//! emissions history, a one-way pause flag and an optional parent it was
//! split from. The ledger keeps these together with an index from accounts
//! to the assets they own, and reconstructs the emissions history of an
//! asset by walking its chain of parents.
//!
//! The ledger holds its state in memory. The caller's identity is an
//! argument of every state-changing operation, and the notifications an
//! operation gives rise to are returned to the caller, in order.

pub mod events;
pub mod index;
pub mod laws;
pub mod ledger;
pub mod model;
pub mod types;
pub mod validate;
