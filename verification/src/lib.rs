pub mod channels;
pub mod clock;
pub mod config;
pub mod http;
pub mod json;
pub mod json_text;
pub mod signature;
pub mod text;
pub mod tools;
