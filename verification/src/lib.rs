//! A model of a manual verification harness for a remote bot API.
//!
//! The harness drives a fixed sequence of remote calls (setting and reading
//! back localized bot descriptions, managing a sticker set) and checks that
//! every value written is read back unchanged.  The remote transport itself
//! is outside this library: the library plans each call, and judges each
//! reply, as verified state machines over plain values.

pub mod config;
pub mod descriptions;
pub mod outcome;
pub mod send;
pub mod stickers;
