//! Verified core of a Discord API client library: IDs and their decimal text,
//! webhook URLs, request methods, and the wrappers around the cache's maps.
pub mod cache;
pub mod decimal;
pub mod http;
pub mod snowflake;
mod text;
pub mod utils;

pub use snowflake::Snowflake;
