//! Building blocks shared by the server's components.

pub mod assoc;
pub mod auth;
pub mod text;
pub mod voice;
pub mod client;
pub mod clock;
pub mod database;
pub mod logger;
