//! Interface-to-adapter generation for services reached through an
//! invoke-by-name RPC convention.
//!
//! An [`model::Interface`] describes one service: its operations, their
//! ordered typed parameters and their optional return types. From it the
//! library synthesizes artifact names, argument and result records, a
//! dispatcher that routes a named invocation to an implementation, a proxy
//! that turns calls into remote invocations, and a scripted mock.
pub mod any;
pub mod args;
pub mod model;
pub mod naming;
pub mod records;
pub mod dispatch;
pub mod client;
pub mod runtime;
pub mod mock;
pub mod generate;
