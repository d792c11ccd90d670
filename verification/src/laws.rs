//! What holds of the functions of the library, said of what goes in and what comes out.

pub mod conversation;
pub mod json;
pub mod log;
pub mod service;
pub mod settings;
pub mod sign_in;
pub mod stream;
pub mod text;
