pub mod args;
pub mod catalog;
pub mod config;
pub mod constants;
pub mod db;
pub mod error;
pub mod files;
pub mod path;
pub mod service;
pub mod sync;
pub mod text;
