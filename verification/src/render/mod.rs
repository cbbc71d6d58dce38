pub mod raster;
pub mod scene;
pub mod svg;
pub mod tokens;
