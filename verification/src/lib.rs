//! An in-memory book of bills and the interactive session that keeps it.

pub mod amount;
pub mod bill;
pub mod book;
pub mod dialogue;
pub mod history;
pub mod input;
pub mod laws;
pub mod menu;
pub mod session;
pub mod text;
