//! The records of the model, each with its decoder.

pub mod any_channel;
pub mod application;
pub mod channel;
pub mod embed;
pub mod gateway;
pub mod guild;
pub mod in_guild;
pub mod invite;
pub mod message;
pub mod overwrite;
pub mod possible;
pub mod presence;
pub mod reaction;
pub mod session;
pub mod status;
pub mod user;
pub mod voice;
pub mod webhook;
