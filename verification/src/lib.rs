//! A client for the HTTP management API of a network controller that puts
//! one switch port under one of two configured profiles.
//!
//! The library performs no I/O. [`command::plan`] turns the settings and
//! the arguments of a command into a [`client::UnifiApi`] and the
//! [`client::PortChange`] to carry out. The caller then asks
//! [`client::UnifiApi::step`] what to do, sends the request it is given
//! over one HTTP session that keeps cookies, hands the reply to
//! [`client::UnifiApi::on_reply`], and goes on until the step is to stop.
//! [`conversation`] states what holds of every such exchange.

pub mod error;
pub mod wire;
pub mod client;
pub mod settings;
pub mod command;
pub mod conversation;
