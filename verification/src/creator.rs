//! Builders that turn a board of colours into text.

pub mod creator_trait;
pub mod table_creator;
