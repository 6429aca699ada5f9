pub mod text;
pub mod oplog;
pub mod json;
pub mod risk;
pub mod public_api;
pub mod oauth;
pub mod lines;
pub mod system_update;
pub mod apps;
pub mod draw;
pub mod api_ts;
pub mod api_keys;
pub mod oauth_login;
pub mod call_log;
