//! A schema-later relational store: documents arrive without a declared
//! schema, and the relational schema is widened to accept them.

pub mod api;
pub mod auth;
pub mod cache;
pub mod cli;
pub mod db;
pub mod engine;
pub mod error;
pub mod explorer;
pub mod explorer_page;
pub mod guard;
pub mod identifier;
pub mod inference;
pub mod json;
pub mod model;
pub mod plan;
pub mod storage;
pub mod text;
pub mod unification;

pub use error::{VibeError, VibeResult};
