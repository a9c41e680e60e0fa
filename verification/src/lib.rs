//! Image upload service core: request validation, naming, expiry and
//! cleanup decisions, and the image pipeline.
pub mod text;
pub mod timestamp;
pub mod db;
pub mod error;
pub mod image_processing;
pub mod r2;
pub mod fetch;
pub mod upload;
pub mod cleanup;
pub mod ui;
pub mod config;
pub mod command;
