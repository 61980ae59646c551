pub mod context;
pub mod error;
pub mod ffi;
pub mod history;
pub mod localname;
pub mod principal;
