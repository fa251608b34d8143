pub mod events;
pub mod message;
pub mod buffer;
pub mod error;
pub mod subscription;
pub mod facade;
