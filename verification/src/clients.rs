pub mod chat;
pub mod muninn;
