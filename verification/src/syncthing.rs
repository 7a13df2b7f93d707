pub mod api;
pub mod client;
pub mod configs;
pub mod decode;
pub mod dispatcher;
pub mod errors;
pub mod event_structs;
pub mod json;
pub mod json_text;
pub mod poll;
pub mod registry;
pub mod text;
