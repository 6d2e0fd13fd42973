//! Core of a peer-to-peer fiat/bitcoin trade coordinator: the order state
//! machine, its authorisation rules, and the ingress checks in front of it.

pub mod cancel;
pub mod cli;
pub mod dispute;
pub mod effect;
pub mod ingress;
pub mod laws;
pub mod machine;
pub mod new_order;
pub mod order;
pub mod pricing;
pub mod publish;
pub mod rating;
pub mod store;
pub mod trade;
