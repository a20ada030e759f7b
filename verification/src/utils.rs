pub mod clonable_request;
pub mod decimal;
pub mod try_clone;
