//! Item kinds of a version-controlled notebook: the payload of a
//! free-text page, its flat persisted record, and the reconciliation of
//! records that two editing sessions changed independently.

pub mod action;
pub mod conflict;
pub mod error;
pub mod fields;
pub mod item;
pub mod registry;
pub mod response;
pub mod simple;
pub mod text;
pub mod world;
pub mod yaml;
