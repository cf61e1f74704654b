//! Verified core of a shim for the host's authentication library.
//!
//! A process that cannot link against the native authentication library
//! calls a facade instead. The facade forwards every call over a private
//! byte channel to a helper process, which links against the real library,
//! and hands the answer back. While the native library authenticates it may
//! call back with prompts for the application; each such conversation round
//! crosses the channel and back before the call goes on.
//!
//! This crate holds what the two sides decide, and proves it:
//!
//! - [`messages`]: the requests and responses, with their mathematical
//!   models;
//! - [`framing`]: the length-prefixed frame that carries one serialized
//!   message;
//! - [`dispatcher`]: the session state machine of the helper process,
//!   conversation rounds included;
//! - [`facade`]: what each reply means to the calling application;
//! - [`exchange`]: what holds of the two sides together.
//!
//! Reading and writing the channel, serializing a message into a payload,
//! launching the helper and calling the native library are left to the
//! programs around this crate. No function here panics, and none asks
//! anything of its caller.

pub mod dispatcher;
pub mod exchange;
pub mod facade;
pub mod framing;
pub mod messages;
