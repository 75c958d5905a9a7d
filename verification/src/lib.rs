pub mod backend;
pub mod buffers;
pub mod error;
pub mod le;
pub mod mariadb;
pub mod postgres;
pub mod tycons;
