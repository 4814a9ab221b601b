//! Typed handles to host-owned objects, and the export metadata of the classes behind them.
//!
//! The host owns every object, its identity and the slot that binds extension state to it.
//! This crate states, and proves, what a handle may rely on when it talks to the host, and
//! what the export directives on a class's fields turn into at registration.

pub mod class;
pub mod host;
pub mod kv_parser;
pub mod obj;
pub mod property;
pub mod property_info;
pub mod storage;
pub mod sys;
pub mod tokens;
pub mod variant;
