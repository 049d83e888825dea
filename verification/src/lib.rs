//! Verified core of an arcade-cabinet game agent: catalog route construction,
//! install freshness decisions, bundle extraction, executable resolution,
//! launch supervision and named-pipe open planning.

pub mod bundle;
pub mod catalog;
pub mod game;
pub mod installer;
pub mod launcher;
pub mod paths;
pub mod pipes;
pub mod route;
pub mod text;
