//! A structured description of a project's architecture (bounded contexts,
//! entities, services, events, rules, conventions), a differ that compares
//! two versions of it, and a planner that turns the differences into
//! prioritised code actions and migration notes. Every function here is
//! verified against its contract, except a few trusted wrappers around std
//! (Unicode character classes and lower-casing, ASCII case-insensitive
//! comparison, appending a character, splitting a path); `laws` proves
//! properties that hold across the differ and the planner.

pub mod change;
pub mod diff;
pub mod edits;
pub mod laws;
pub mod model;
pub mod names;
pub mod paths;
pub mod plan;
pub mod prompts;
pub mod protocol;
pub mod registry;
pub mod resources;
pub mod seqs;
pub mod tools;
