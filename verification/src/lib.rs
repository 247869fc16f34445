pub mod backend;
pub mod calls;
pub mod config;
pub mod config_laws;
pub mod filter;
pub mod filter_laws;
pub mod http;
pub mod issue;
pub mod issue_laws;
pub mod json;
pub mod laws;
pub mod native_id;
pub mod percent;
pub mod protocol;
pub mod request_laws;
pub mod schema;
pub mod text;
pub mod text_laws;
pub mod time;
pub mod views;
