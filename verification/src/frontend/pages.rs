//! The pages that the main area of the window can show.

pub mod add;
pub mod chat;
