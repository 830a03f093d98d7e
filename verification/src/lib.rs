//! Domain library of a local-first notebook: pages, blocks, databases,
//! typed properties and table views (filter, sort, group), with the
//! validation rules and view computations proved against their contracts.

pub mod text;
pub mod ids;
pub mod time;
pub mod number;
pub mod database;
pub mod page;
pub mod property;
pub mod hierarchy;
pub mod block;
pub mod editor;
pub mod view;
pub mod sort;
pub mod filter;
pub mod group;
pub mod table;
pub mod dto;
pub mod commands;
pub mod records;
pub mod errors;
