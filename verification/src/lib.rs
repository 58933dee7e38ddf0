//! A payroll: employees with their pay classification, schedule, method and
//! union membership, changed by transactions that a script lists, and paid on
//! payday by pay rules.
//!
//! Every transaction either makes exactly the change that its contract names
//! or fails and leaves the store as it was.

pub mod domain;
pub mod dao;
pub mod memory_dao;
pub mod pay;
pub mod interface;
pub mod usecase;
pub mod usecase_impl;
pub mod tx;
pub mod tx_impl;
pub mod tx_factory;
pub mod tx_app;
pub mod laws;
pub mod reader;
