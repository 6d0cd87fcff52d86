pub mod text;
pub mod error;
pub mod json;
pub mod catalog;
pub mod boundary;
pub mod options;
pub mod request;
pub mod session;
