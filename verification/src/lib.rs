pub mod api;
pub mod generator;
pub mod interfaces;
pub mod models;
pub mod settings;
pub mod text;
pub mod utils;
