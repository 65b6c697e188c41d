//! The control plane of a premint pool node: premint identity and claim
//! checks, the premint store, the rules engine, the per-chain checker's
//! decisions and the controller that serialises every change of state.

pub mod bootnodes;
pub mod chain;
pub mod checker;
pub mod controller;
pub mod guid;
pub mod premint;
pub mod rules;
pub mod store;
pub mod types;
pub mod zora_v2;
