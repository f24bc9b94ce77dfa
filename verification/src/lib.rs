//! Verified request-handling logic of a small Actix Web practice server.
use vstd::prelude::*;

pub mod text;
pub mod decimal;
pub mod addone;
pub mod users;
pub mod simple;
pub mod pages;
pub mod responses;
pub mod events;
pub mod statics;
pub mod messages;
pub mod cors;

verus! {
}
