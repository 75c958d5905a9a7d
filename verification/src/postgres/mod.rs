pub mod connection;
pub mod message;
pub mod ready_for_query;
