//! What callers can rely on, whatever the arguments: laws over the results of calls.
//!
//! A law takes arguments and results that `call_ensures` relates, so it speaks of what the
//! functions do, and says of the values themselves what must hold.

pub mod environment;
pub mod errors;
pub mod exploding;
pub mod hinting;
pub mod presenting;
pub mod protection;
pub mod text;
