pub mod connection;
pub mod decode;
pub mod encode;
pub mod ok;
pub mod packets;
pub mod types;
