//! State, validation and decision logic of a desktop wallet for spaces: names
//! that are opened, auctioned by bidding, claimed and then held on chain.
//!
//! The library owns everything that decides: how a typed field is filtered and
//! parsed, which phase of its auction a space is in, how an answer of the
//! daemon changes the cached state, and which call follows which message. The
//! program around it draws the windows and performs the calls.

pub mod app;
pub mod helper;
pub mod helpers;
pub mod laws;
pub mod rpc;
pub mod screen;
pub mod store;
pub mod text;
pub mod types;
pub mod util;
pub mod widget;
