//! Preemptible functions: the decision logic of a preemption controller, the
//! poll adapter around it, the pool of per-thread control blocks and the
//! symbol whitelist table, each with its contract.

pub mod context;
pub mod linger;
pub mod future;
pub mod localstores;
pub mod whitelist;
