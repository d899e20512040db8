//! A small game played on the action stack: characters that take damage and heal.
pub mod actions;
pub mod filters;
pub mod game;
pub mod identifications;
pub mod requirements;
pub mod resolvers;
pub mod stack;
