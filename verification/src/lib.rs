pub mod clients;
pub mod layers;
pub mod message_types;

pub use message_types::RequestMessage;
