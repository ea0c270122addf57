pub mod catalog;
pub mod devices_response;
pub mod error;
pub mod event;
pub mod model;
pub mod observer;
pub mod parse;
pub mod raw;
