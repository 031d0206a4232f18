pub mod connector;
pub mod events;
pub mod payload;
