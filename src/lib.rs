//! Management of a JSON file of named tool servers, shared between a desktop
//! front end and a network tool endpoint: the configuration model and its
//! validation, the backup-guarded store protocol, the lifecycle of the
//! embedded server, and the sanitized views that the endpoint hands out.
pub mod config;
pub mod diagnose;
pub mod lifecycle;
pub mod messages;
pub mod name_map;
pub mod presets;
pub mod recovery;
pub mod store;
pub mod text;
pub mod tools;
