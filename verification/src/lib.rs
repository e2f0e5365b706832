//! Stock-watching logic of a JLCPCB component tracker for Discord: the data the
//! bot keeps, the decisions it takes on each stock check, and the texts and
//! queries it produces.

pub mod commands;
pub mod extras;
pub mod jlc;
pub mod json;
pub mod keys;
pub mod schedule;
pub mod text;
pub mod uptime;
