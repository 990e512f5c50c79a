//! Core of a smart-contract test runner: the results of a test run, the exit
//! status they lead to, the human-readable report, the bootstrap of the
//! execution ledger, and the decisions of one invocation.

pub mod outcome;
pub mod text;
pub mod render;
pub mod ledger;
pub mod runner;
pub mod session;
pub mod install;
