pub mod terminal;
pub mod text;
pub mod domain;
pub mod shared;
pub mod render;
pub mod app;
