//! Verified core of the Fewwis Discord bot: the decisions and texts behind its
//! commands, held apart from the Discord, HTTP and database plumbing.
pub mod text;
pub mod compile;
pub mod colors;
pub mod card;
pub mod paginator;
pub mod quiz;
pub mod tasks;
pub mod commands;
pub mod schema;
pub mod errors;
