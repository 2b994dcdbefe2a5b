//! A verified model of a small routed web application.
//!
//! The application has three pages (home, login, users), one remote
//! operation that adds two integers, and reactive state bound to the URL
//! query string. This crate states and proves the behavioural contracts of
//! that application: how the query string is parsed, how paths are routed,
//! and how cached resources are refreshed when their keys change, including
//! the last-key-wins guarantee for out-of-order fetch results.
//!
//! The reactive runtime itself (rendering, network transport, the event
//! loop) stays outside: the library is a state machine from events to new
//! states and fetch requests, and a host drives it.

pub mod action;
pub mod app;
pub mod pages;
pub mod query;
pub mod resource;
pub mod router;
pub mod server;
pub mod text;
