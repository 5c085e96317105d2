//! Authorization and state-transition core of a token-factory administration
//! contract: who may change the configuration, how burned funds are split, and
//! which instructions each operation hands to the token factory and the bank.

pub mod error;
pub mod lists;
pub mod state;
pub mod msg;
pub mod helpers;
pub mod contract;
pub mod laws;
