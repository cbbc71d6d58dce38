pub mod presenter;
pub mod screen;
pub mod spa;
pub mod text_view;
pub mod view_model;
