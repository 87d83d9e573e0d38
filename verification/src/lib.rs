//! Decision logic of an interactive front-end to git: status parsing, menu
//! resolution, commit-message assembly and branch navigation.
//!
//! Nothing here runs git or talks to a terminal. Every function takes text or
//! answers that were already obtained and says what to show or run next.
//!
//! - [`status`] reads the short status listing into records.
//! - [`cli`] interprets the answers to menus and questions.
//! - [`git`] phrases the invocations of git and reads how they ended.
//! - [`menus`] holds the flows: staging, unstaging, committing, reverting,
//!   branching, removing, pulling and pushing.
//! - [`commands`] names the commands of the two menus.
//! - [`settings`] holds the operator's settings and the commit convention.
//! - [`text`] and [`utils`] are the helpers on strings that the rest uses.

pub mod cli;
pub mod commands;
pub mod git;
pub mod menus;
pub mod settings;
pub mod status;
pub mod text;
pub mod utils;
